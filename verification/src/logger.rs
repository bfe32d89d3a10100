//! The line format of the LDK log file. Taking the time and appending to the
//! file are the caller's.
use vstd::prelude::*;

use crate::decimal::{decimal, spec_decimal};

verus! {

/// `s` padded with spaces on the right to at least `width` characters.
pub open spec fn pad_right(s: Seq<char>, width: nat) -> Seq<char> {
    if s.len() >= width {
        s
    } else {
        s + Seq::new((width - s.len()) as nat, |i: int| ' ')
    }
}

/// One log line: `{timestamp} {level:<5} [{module}:{line}] {message}\n`.
pub open spec fn spec_log_line(timestamp: Seq<char>, level: Seq<char>, module: Seq<char>, line: u32, message: Seq<char>) -> Seq<char> {
    timestamp + seq![' '] + pad_right(level, 5) + seq![' ', '['] + module + seq![':'] + spec_decimal(
        line as nat,
    ) + seq![']', ' '] + message + seq!['\n']
}

/// Formats one log line.
pub fn log_line(timestamp: &str, level: &str, module: &str, line: u32, message: &str) -> (r: String)
    ensures
        r@ == spec_log_line(timestamp@, level@, module@, line, message@),
{
    proof {
        reveal_strlit(" ");
        reveal_strlit(" [");
        reveal_strlit(":");
        reveal_strlit("] ");
        reveal_strlit("\n");
    }
    let mut r = String::from_str(timestamp);
    r.append(" ");
    let ghost before_level = r@;
    r.append(level);
    let n = level.unicode_len();
    let mut k: usize = n;
    while k < 5
        invariant
            n == level@.len(),
            n <= k <= 5 || (n > 5 && k == n),
            r@ == before_level + level@ + Seq::new((k - n) as nat, |i: int| ' '),
        decreases 5 - k,
    {
        proof {
            reveal_strlit(" ");
        }
        r.append(" ");
        assert(r@ =~= before_level + level@ + Seq::new((k + 1 - n) as nat, |i: int| ' '));
        k = k + 1;
    }
    assert(before_level + level@ + Seq::new((k - n) as nat, |i: int| ' ') =~= before_level + pad_right(
        level@,
        5,
    ));
    r.append(" [");
    r.append(module);
    r.append(":");
    let digits = decimal(line as u64);
    r.append(digits.as_str());
    r.append("] ");
    r.append(message);
    r.append("\n");
    r
}

} // verus!
