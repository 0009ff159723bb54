//! Bounded-concurrency TCP payload scanning, with its decisions
//! verified: the per-payload retry and timeout policy (`probe`), the
//! window and tally bookkeeping of a scan session (`engine`), the
//! classification of responses against literal and pattern ignore
//! sets (`classify`), the escaping rules for configured values and
//! printed output (`escape`), and the wordlist and padding arithmetic
//! (`report`). The I/O itself — sockets, files, rendering — stays
//! outside, handing the library plain values and taking plain values
//! back.

pub mod classify;
pub mod engine;
pub mod escape;
pub mod outcome;
pub mod probe;
pub mod report;
