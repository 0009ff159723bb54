use vstd::prelude::*;
use vstd::string::StrSliceExecFns;

verus! {

/// One unescaping pass: replaces, left to right and without overlap,
/// every two-character escape `\` `code` in `s` by the single character
/// `out`.
pub open spec fn unescape_one(s: Seq<char>, code: char, out: char) -> Seq<char>
    decreases s.len(),
{
    if s.len() >= 2 && s[0] == '\\' && s[1] == code {
        seq![out] + unescape_one(s.skip(2), code, out)
    } else if s.len() >= 1 {
        seq![s[0]] + unescape_one(s.skip(1), code, out)
    } else {
        Seq::empty()
    }
}

/// The unescaping applied once, at configuration time, to each ignore
/// value: the escapes `\n`, `\r`, `\t` and `\'` each become the character
/// they name, one pass per escape, in that order.
pub open spec fn unescape_all(s: Seq<char>) -> Seq<char> {
    unescape_one(
        unescape_one(unescape_one(unescape_one(s, 'n', '\n'), 'r', '\r'), 't', '\t'),
        '\'',
        '\'',
    )
}

/// One printing-escape pass: replaces every occurrence of the character
/// `which` by the two characters `\` `code`.
pub open spec fn expand_one(s: Seq<char>, which: char, code: char) -> Seq<char>
    decreases s.len(),
{
    if s.len() == 0 {
        Seq::empty()
    } else if s[0] == which {
        seq!['\\', code] + expand_one(s.skip(1), which, code)
    } else {
        seq![s[0]] + expand_one(s.skip(1), which, code)
    }
}

/// The escaping applied before a payload or response is printed:
/// newlines become `\n`, then carriage returns become `\r`.
pub open spec fn print_escaped(s: Seq<char>) -> Seq<char> {
    expand_one(expand_one(s, '\n', 'n'), '\r', 'r')
}

/// Relies on String::push: appends exactly the given character.
#[verifier::external_body]
pub(crate) fn push_char(s: &mut String, c: char)
    ensures
        final(s)@ == old(s)@.push(c),
{
    s.push(c)
}

/// One unescaping pass over `s`, as `unescape_one` states it.
fn replace_pair(s: &str, code: char, out: char) -> (r: String)
    ensures
        r@ == unescape_one(s@, code, out),
{
    let n: usize = s.unicode_len();
    let mut r = String::new();
    let mut i: usize = 0;
    proof {
        assert(s@.skip(0) =~= s@);
        assert(r@ + unescape_one(s@, code, out) =~= unescape_one(s@, code, out));
    }
    while i < n
        invariant
            i <= n,
            n == s@.len(),
            unescape_one(s@, code, out) == r@ + unescape_one(s@.skip(i as int), code, out),
        decreases n - i,
    {
        let c = s.get_char(i);
        let ghost r0 = r@;
        if c == '\\' && i + 1 < n && s.get_char(i + 1) == code {
            push_char(&mut r, out);
            proof {
                assert(s@.skip(i as int)[0] == s@[i as int]);
                assert(s@.skip(i as int)[1] == s@[i + 1]);
                assert(s@.skip(i as int).skip(2) =~= s@.skip(i + 2));
                assert(unescape_one(s@.skip(i as int), code, out) == seq![out]
                    + unescape_one(s@.skip(i + 2), code, out));
                assert(r0 + (seq![out] + unescape_one(s@.skip(i + 2), code, out)) =~= r@
                    + unescape_one(s@.skip(i + 2), code, out));
            }
            i = i + 2;
        } else {
            push_char(&mut r, c);
            proof {
                assert(s@.skip(i as int)[0] == s@[i as int]);
                if i + 1 < n {
                    assert(s@.skip(i as int)[1] == s@[i + 1]);
                }
                assert(s@.skip(i as int).skip(1) =~= s@.skip(i + 1));
                assert(unescape_one(s@.skip(i as int), code, out) == seq![c]
                    + unescape_one(s@.skip(i + 1), code, out));
                assert(r0 + (seq![c] + unescape_one(s@.skip(i + 1), code, out)) =~= r@
                    + unescape_one(s@.skip(i + 1), code, out));
            }
            i = i + 1;
        }
    }
    proof {
        assert(s@.skip(n as int) =~= Seq::<char>::empty());
        assert(r@ + unescape_one(Seq::empty(), code, out) =~= r@);
    }
    r
}

/// One printing-escape pass over `s`, as `expand_one` states it.
fn expand_char(s: &str, which: char, code: char) -> (r: String)
    ensures
        r@ == expand_one(s@, which, code),
{
    let n: usize = s.unicode_len();
    let mut r = String::new();
    let mut i: usize = 0;
    proof {
        assert(s@.skip(0) =~= s@);
        assert(r@ + expand_one(s@, which, code) =~= expand_one(s@, which, code));
    }
    while i < n
        invariant
            i <= n,
            n == s@.len(),
            expand_one(s@, which, code) == r@ + expand_one(s@.skip(i as int), which, code),
        decreases n - i,
    {
        let c = s.get_char(i);
        let ghost r0 = r@;
        if c == which {
            push_char(&mut r, '\\');
            push_char(&mut r, code);
        } else {
            push_char(&mut r, c);
        }
        proof {
            assert(s@.skip(i as int)[0] == s@[i as int]);
            assert(s@.skip(i as int).skip(1) =~= s@.skip(i + 1));
            if c == which {
                assert(expand_one(s@.skip(i as int), which, code) == seq!['\\', code]
                    + expand_one(s@.skip(i + 1), which, code));
                assert(r0 + (seq!['\\', code] + expand_one(s@.skip(i + 1), which, code)) =~= r@
                    + expand_one(s@.skip(i + 1), which, code));
            } else {
                assert(expand_one(s@.skip(i as int), which, code) == seq![c]
                    + expand_one(s@.skip(i + 1), which, code));
                assert(r0 + (seq![c] + expand_one(s@.skip(i + 1), which, code)) =~= r@
                    + expand_one(s@.skip(i + 1), which, code));
            }
        }
        i = i + 1;
    }
    proof {
        assert(s@.skip(n as int) =~= Seq::<char>::empty());
        assert(r@ + expand_one(Seq::empty(), which, code) =~= r@);
    }
    r
}

/// Unescapes one ignore value, as configuration does before any
/// comparison: an ignore value written with a literal backslash-n must
/// match an actual newline byte in a response.
pub fn escape_ignore(s: String) -> (r: String)
    ensures
        r@ == unescape_all(s@),
{
    let a = replace_pair(s.as_str(), 'n', '\n');
    let b = replace_pair(a.as_str(), 'r', '\r');
    let c = replace_pair(b.as_str(), 't', '\t');
    replace_pair(c.as_str(), '\'', '\'')
}

/// Unescapes every literal ignore value in the given list.
pub fn escape_ignores(values: &Vec<String>) -> (r: Vec<String>)
    ensures
        r@.len() == values@.len(),
        forall|i: int| 0 <= i < values@.len() ==> r@[i]@ == unescape_all(values@[i]@),
{
    let mut out: Vec<String> = Vec::new();
    let mut idx: usize = 0;
    while idx < values.len()
        invariant
            idx <= values@.len(),
            out@.len() == idx,
            forall|i: int| 0 <= i < idx ==> out@[i]@ == unescape_all(values@[i]@),
        decreases values@.len() - idx,
    {
        let v = values[idx].clone();
        out.push(escape_ignore(v));
        idx = idx + 1;
    }
    out
}

/// Escapes a string for one-line printing: newlines and carriage
/// returns are written back in their escaped form.
pub fn escape_for_print(s: String) -> (r: String)
    ensures
        r@ == print_escaped(s@),
{
    let a = expand_char(s.as_str(), '\n', 'n');
    expand_char(a.as_str(), '\r', 'r')
}

} // verus!
