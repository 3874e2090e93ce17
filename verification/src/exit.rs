use vstd::prelude::*;

verus! {

/// How a dialog ended, mapped onto Zenity-compatible exit codes.
#[derive(Debug, Clone, Copy, PartialEq, Eq, Structural)]
pub enum Outcome {
    /// Confirmed, or closed normally.
    Confirmed,
    /// Cancelled (Esc, or the window closed while a stream was still running).
    Cancel,
    /// Closed automatically when the timeout ran out.
    Timeout,
}

/// The process exit code that stands for an outcome.
pub open spec fn outcome_code(outcome: Outcome) -> i32 {
    match outcome {
        Outcome::Confirmed => 0,
        Outcome::Cancel => 1,
        Outcome::Timeout => 5,
    }
}

impl Outcome {
    /// Zenity-compatible exit code: 0 for OK, 1 for Cancel, 5 for a timeout.
    pub fn code(self) -> (c: i32)
        ensures
            c == outcome_code(self),
    {
        match self {
            Outcome::Confirmed => 0,
            Outcome::Cancel => 1,
            Outcome::Timeout => 5,
        }
    }
}

} // verus!

verus! {

/// The three outcomes have three different exit codes, those of Zenity
/// (0, 1 and 5).
pub proof fn lemma_codes_distinct(a: Outcome, b: Outcome)
    ensures
        outcome_code(a) == outcome_code(b) <==> a == b,
        outcome_code(Outcome::Confirmed) == 0,
        outcome_code(Outcome::Cancel) == 1,
        outcome_code(Outcome::Timeout) == 5,
{
}

} // verus!
