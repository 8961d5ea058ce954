//! The request-counter record: a small accounting snapshot (successful and
//! total request tallies) that the shell persists crash-safely, independent
//! of the remediation flow. The record, its invariant, and the exact text of
//! its success summary line are verified here; serializing and atomically
//! writing the record to disk is the shell's job.

use vstd::prelude::*;

verus! {

/// The decimal digit character for `d` (`d < 10`).
pub open spec fn dec_digit(d: int) -> char {
    if d == 0 {
        '0'
    } else if d == 1 {
        '1'
    } else if d == 2 {
        '2'
    } else if d == 3 {
        '3'
    } else if d == 4 {
        '4'
    } else if d == 5 {
        '5'
    } else if d == 6 {
        '6'
    } else if d == 7 {
        '7'
    } else if d == 8 {
        '8'
    } else {
        '9'
    }
}

/// The decimal rendering of `n`, most significant digit first, with no
/// leading zero except for `n == 0` itself.
pub open spec fn dec_seq(n: nat) -> Seq<char>
    decreases n,
{
    if n < 10 {
        seq![dec_digit(n as int)]
    } else {
        dec_seq(n / 10) + seq![dec_digit((n % 10) as int)]
    }
}

/// The one-character string of the decimal digit `d`.
fn digit_str(d: u64) -> (s: &'static str)
    requires
        d < 10,
    ensures
        s@ == seq![dec_digit(d as int)],
{
    proof {
        reveal_strlit("0");
        reveal_strlit("1");
        reveal_strlit("2");
        reveal_strlit("3");
        reveal_strlit("4");
        reveal_strlit("5");
        reveal_strlit("6");
        reveal_strlit("7");
        reveal_strlit("8");
        reveal_strlit("9");
    }
    let s = if d == 0 {
        "0"
    } else if d == 1 {
        "1"
    } else if d == 2 {
        "2"
    } else if d == 3 {
        "3"
    } else if d == 4 {
        "4"
    } else if d == 5 {
        "5"
    } else if d == 6 {
        "6"
    } else if d == 7 {
        "7"
    } else if d == 8 {
        "8"
    } else {
        "9"
    };
    proof {
        assert(s@ =~= seq![dec_digit(d as int)]);
    }
    s
}

/// Render `n` in decimal.
pub fn render_u64(n: u64) -> (s: String)
    ensures
        s@ == dec_seq(n as nat),
    decreases n,
{
    if n < 10 {
        digit_str(n).to_owned()
    } else {
        let mut s = render_u64(n / 10);
        s.append(digit_str(n % 10));
        s
    }
}

/// An accounting snapshot: how many of the outbound counting requests of
/// one invocation succeeded, out of how many were attempted. Fully replaced
/// on each persist; no history is kept.
#[derive(Clone, Copy, PartialEq, Eq, Structural, Debug)]
pub struct CounterRecord {
    pub successful: u64,
    pub total: u64,
}

impl CounterRecord {
    /// The record never counts more successes than attempts.
    pub open spec fn wf(self) -> bool {
        self.successful <= self.total
    }

    /// A fresh record for an invocation that will attempt `total` requests.
    pub fn new(total: u64) -> (r: CounterRecord)
        ensures
            r.successful == 0,
            r.total == total,
            r.wf(),
    {
        CounterRecord { successful: 0, total }
    }

    /// Count one more successful request.
    pub fn record_success(&mut self)
        requires
            old(self).successful < old(self).total,
        ensures
            final(self).successful == old(self).successful + 1,
            final(self).total == old(self).total,
            old(self).wf() ==> final(self).wf(),
    {
        self.successful = self.successful + 1;
    }

    /// The exact success summary line the command prints: the successful
    /// tally, a slash, and the total tally.
    pub fn summary_line(&self) -> (s: String)
        ensures
            s@ == "Successful requests: "@ + dec_seq(self.successful as nat) + "/"@ + dec_seq(
                self.total as nat,
            ),
    {
        let mut s = "Successful requests: ".to_owned();
        s.append(render_u64(self.successful).as_str());
        s.append("/");
        s.append(render_u64(self.total).as_str());
        s
    }
}

} // verus!
