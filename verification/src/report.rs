use vstd::prelude::*;
use vstd::string::{StrSliceExecFns, StringExecFns};

use crate::escape::push_char;

verus! {

/// The longest line length, in characters, over the given lines; zero
/// for an empty list.
pub open spec fn max_line_len(lines: Seq<String>) -> nat
    decreases lines.len(),
{
    if lines.len() == 0 {
        0
    } else {
        let rest = max_line_len(lines.drop_last());
        if lines.last()@.len() > rest {
            lines.last()@.len()
        } else {
            rest
        }
    }
}

/// One pass over the wordlist's lines: the total count and the longest
/// line length. The length is the true maximum, in characters — the
/// more useful value for output alignment; it only pads display lines
/// and plays no part in the engine's logic.
pub fn wordlist_info(lines: &Vec<String>) -> (r: (u64, u64))
    ensures
        r.0 == lines@.len(),
        r.1 == max_line_len(lines@),
{
    let mut max_length: u64 = 0;
    let mut idx: usize = 0;
    proof {
        assert(lines@.take(0) =~= Seq::<String>::empty());
    }
    while idx < lines.len()
        invariant
            idx <= lines@.len(),
            max_length == max_line_len(lines@.take(idx as int)),
        decreases lines@.len() - idx,
    {
        let l: usize = lines[idx].as_str().unicode_len();
        proof {
            assert(lines@.take(idx + 1).drop_last() =~= lines@.take(idx as int));
            assert(lines@.take(idx + 1).last() == lines@[idx as int]);
        }
        if l as u64 > max_length {
            max_length = l as u64;
        }
        idx = idx + 1;
    }
    proof {
        assert(lines@.take(lines@.len() as int) =~= lines@);
    }
    (lines.len() as u64, max_length)
}

/// The number of padding spaces after a label of `label_len`
/// characters: the longest payload length, capped at forty characters,
/// less the label's own length, and never negative.
pub open spec fn filler_len(label_len: nat, max_len: u64) -> nat {
    let cap: nat = if max_len > 40 {
        40
    } else {
        max_len as nat
    };
    if label_len >= cap {
        0
    } else {
        (cap - label_len) as nat
    }
}

/// The two display strings for one outcome line: the label naming the
/// payload, and the spaces that pad it to the capped width derived
/// from the longest payload length.
pub fn output_params(payload: &str, max_len: u64) -> (r: (String, String))
    ensures
        r.0@ == "Payload:["@ + payload@ + "]"@,
        r.1@.len() == filler_len(r.0@.len(), max_len),
        forall|i: int| 0 <= i < r.1@.len() ==> r.1@[i] == ' ',
{
    let mut label = String::from_str("Payload:[");
    label.append(payload);
    label.append("]");
    let llen: usize = label.as_str().unicode_len();
    let cap: usize = if max_len > 40 {
        40
    } else {
        max_len as usize
    };
    let target: usize = if llen >= cap {
        0
    } else {
        cap - llen
    };
    let mut filler = String::new();
    let mut k: usize = 0;
    while k < target
        invariant
            k <= target,
            filler@.len() == k,
            forall|i: int| 0 <= i < k ==> filler@[i] == ' ',
        decreases target - k,
    {
        push_char(&mut filler, ' ');
        k = k + 1;
    }
    (label, filler)
}

} // verus!
