//! The aggregation core: classify lines, track the running state, and decide
//! the final reduction.
//!
//! The caller streams the file and does the floating-point work; every
//! decision is made here.  A 64-bit IEEE 754 value appears only as its bit
//! pattern, so the running sum is a `u64` that the caller refreshes after
//! each addition, and the result of a run is either a finished bit pattern or
//! an instruction to divide the accumulated sum by the count.

use vstd::prelude::*;

verus! {

use crate::args::Operation;
use crate::text::trimmed;

/// What to do with one line of input.
#[derive(Debug, PartialEq, Eq)]
pub enum LineAction {
    /// The line is blank after trimming: do not count it, do not parse it.
    Skip,
    /// The line has content after trimming: try to parse the trimmed text as
    /// a number.
    Candidate(String),
}

/// Classify one line: blank lines (empty after trimming) are skipped, every
/// other line hands its trimmed text on as a parse candidate.
pub fn classify_line(line: &str) -> (a: LineAction)
    ensures
        trimmed(line@).len() == 0 ==> a == LineAction::Skip,
        trimmed(line@).len() > 0 ==> (a matches LineAction::Candidate(t) && t@ == trimmed(line@)),
{
    let t = crate::text::trim(line);
    if t.as_str().is_empty() {
        LineAction::Skip
    } else {
        LineAction::Candidate(t)
    }
}

/// The state of one aggregation pass: the running sum as the bit pattern of a
/// 64-bit IEEE 754 value, and how many lines parsed as numbers.  Bit pattern
/// zero is the value positive zero, so a fresh accumulator stands for
/// `(0.0, 0)`.
pub struct Accumulator {
    pub sum_bits: u64,
    pub count: u64,
}

impl Accumulator {
    /// The initial state: sum zero (as a bit pattern) and count zero.
    pub fn new() -> (a: Accumulator)
        ensures
            a.sum_bits == 0,
            a.count == 0,
    {
        Accumulator { sum_bits: 0, count: 0 }
    }

    /// Absorb the outcome of parsing one candidate line.  A successful parse
    /// hands in the refreshed running sum (the old sum plus the new value, as
    /// bits) and is counted; a failed parse is silently skipped and leaves
    /// the state untouched — malformed lines are ignored data, not errors.
    pub fn record_parse_outcome(&mut self, outcome: Option<u64>)
        requires
            outcome is Some ==> old(self).count < u64::MAX,
        ensures
            outcome matches Some(new_sum_bits) ==> final(self).sum_bits == new_sum_bits
                && final(self).count == old(self).count + 1,
            outcome is None ==> *final(self) == *old(self),
    {
        match outcome {
            Some(new_sum_bits) => {
                self.sum_bits = new_sum_bits;
                self.count = self.count + 1;
            },
            None => {},
        }
    }
}

/// The finished form of a run.
#[derive(Debug, Clone, Copy, PartialEq, Eq, Structural)]
pub enum Reduction {
    /// The result is this bit pattern, as it stands.
    Value(u64),
    /// The result is the value with the first bit pattern divided by the
    /// count given second; the count is never zero.
    Quotient(u64, u64),
}

/// The reduction each operation applies to a final state: `Sum` returns the
/// accumulated sum as it stands, `Mean` returns zero when nothing was counted
/// (never a division by zero) and otherwise divides the accumulated sum by
/// the count.
pub open spec fn reduction_of(op: Operation, acc: Accumulator) -> Reduction {
    match op {
        Operation::Sum => Reduction::Value(acc.sum_bits),
        Operation::Mean => if acc.count == 0 {
            Reduction::Value(0)
        } else {
            Reduction::Quotient(acc.sum_bits, acc.count)
        },
    }
}

/// Reduce a final state under the selected operation.
pub fn reduce(op: Operation, acc: &Accumulator) -> (r: Reduction)
    ensures
        r == reduction_of(op, *acc),
{
    match op {
        Operation::Sum => Reduction::Value(acc.sum_bits),
        Operation::Mean => if acc.count == 0 {
            Reduction::Value(0)
        } else {
            Reduction::Quotient(acc.sum_bits, acc.count)
        },
    }
}

/// A pass that counted no numeric line — the file was empty, all blank, or
/// all unparseable — reduces to the zero bit pattern under both operations.
pub proof fn lemma_empty_aggregation_is_zero(op: Operation, acc: Accumulator)
    requires
        acc.count == 0,
        acc.sum_bits == 0,
    ensures
        reduction_of(op, acc) == Reduction::Value(0u64),
{
}

/// The mean is the guarded quotient of exactly what the sum operation
/// returns: on a state with a zero count it is the zero value, and otherwise
/// it divides the very sum that `Sum` would return by the count.
pub proof fn lemma_mean_is_guarded_quotient(acc: Accumulator)
    ensures
        acc.count == 0 ==> reduction_of(Operation::Mean, acc) == Reduction::Value(0u64),
        acc.count > 0 ==> (reduction_of(Operation::Sum, acc) matches Reduction::Value(s)
            && reduction_of(Operation::Mean, acc) == Reduction::Quotient(s, acc.count)),
{
}

} // verus!
