//! What a removal attempt came to, and how it is reported.
//!
//! The removal itself and the clock belong to the caller. An outcome is made
//! once, from what the attempt returned and how long it took, and is only
//! read afterwards.

use vstd::prelude::*;
use crate::text::{decimal, lines_view, padded_decimal, push_decimal, push_padded_decimal};

verus! {

/// Nanoseconds in one second.
pub const NANOS_PER_SECOND: u128 = 1_000_000_000;

/// A measured duration, in whole nanoseconds.
#[derive(Clone, Copy, Debug, PartialEq, Eq, Structural)]
pub struct Elapsed {
    nanos: u128,
}

impl View for Elapsed {
    type V = nat;

    closed spec fn view(&self) -> nat {
        self.nanos as nat
    }
}

impl Elapsed {
    /// A duration of the given number of nanoseconds.
    pub fn from_nanos(nanos: u128) -> (elapsed: Elapsed)
        ensures
            elapsed@ == nanos,
    {
        Elapsed { nanos }
    }

    /// The duration in nanoseconds.
    pub fn as_nanos(&self) -> (nanos: u128)
        ensures
            nanos == self@,
    {
        self.nanos
    }

    /// The whole seconds of the duration.
    pub fn whole_seconds(&self) -> (seconds: u128)
        ensures
            seconds == self@ / (NANOS_PER_SECOND as nat),
    {
        self.nanos / NANOS_PER_SECOND
    }

    /// The nanoseconds beyond the whole seconds.
    pub fn subsecond_nanos(&self) -> (nanos: u128)
        ensures
            nanos == self@ % (NANOS_PER_SECOND as nat),
            nanos < NANOS_PER_SECOND,
    {
        self.nanos % NANOS_PER_SECOND
    }
}

/// A duration in seconds, written in decimal with nine fractional digits.
pub open spec fn seconds_text(nanos: nat) -> Seq<char> {
    decimal(nanos / (NANOS_PER_SECOND as nat)) + seq!['.'] + padded_decimal(
        nanos % (NANOS_PER_SECOND as nat),
        9,
    )
}

/// The line that reports a removal that succeeded.
pub open spec fn removed_text(path: Seq<char>) -> Seq<char> {
    "Removed all files and folders from "@ + path
}

/// The line that reports a removal that failed.
pub open spec fn error_text(detail: Seq<char>) -> Seq<char> {
    "Error: "@ + detail
}

/// The closing line of a report, with the time the attempt took.
pub open spec fn done_text(nanos: nat) -> Seq<char> {
    "Done in "@ + seconds_text(nanos) + "s"@
}

/// What a removal attempt came to.
#[derive(Clone, Debug)]
pub struct DeletionOutcome {
    error_detail: Option<String>,
    elapsed: Elapsed,
}

/// What an outcome holds, as plain values.
pub struct OutcomeView {
    pub succeeded: bool,
    pub error_detail: Option<Seq<char>>,
    pub elapsed: nat,
}

impl View for DeletionOutcome {
    type V = OutcomeView;

    closed spec fn view(&self) -> OutcomeView {
        OutcomeView {
            succeeded: self.error_detail is None,
            error_detail: match self.error_detail {
                Some(detail) => Some(detail@),
                None => None,
            },
            elapsed: self.elapsed@,
        }
    }
}

/// The outcome of an attempt that returned `error` after `elapsed`: a success
/// without a detail if there was no error, else a failure with its detail.
pub open spec fn recorded(error: Option<Seq<char>>, elapsed: nat) -> OutcomeView {
    OutcomeView { succeeded: error is None, error_detail: error, elapsed }
}

/// The lines that report an outcome for a target path: what happened, then
/// how long it took.
pub open spec fn report_lines(outcome: OutcomeView, path: Seq<char>) -> Seq<Seq<char>> {
    seq![
        match outcome.error_detail {
            Some(detail) => error_text(detail),
            None => removed_text(path),
        },
        done_text(outcome.elapsed),
    ]
}

impl DeletionOutcome {
    /// Records an attempt: the error that the removal returned, if any, and
    /// the time that the attempt took.
    pub fn record(error: Option<String>, elapsed: Elapsed) -> (outcome: DeletionOutcome)
        ensures
            outcome@ == recorded(
                match error {
                    Some(detail) => Some(detail@),
                    None => None,
                },
                elapsed@,
            ),
    {
        DeletionOutcome { error_detail: error, elapsed }
    }

    /// An outcome is a success exactly if it carries no error detail.
    pub proof fn lemma_succeeded_iff_no_detail(&self)
        ensures
            self@.succeeded <==> self@.error_detail is None,
    {
    }

    /// Whether the tree was removed.
    pub fn succeeded(&self) -> (succeeded: bool)
        ensures
            succeeded == self@.succeeded,
    {
        self.error_detail.is_none()
    }

    /// What went wrong, if the removal failed.
    pub fn error_detail(&self) -> (detail: Option<&str>)
        ensures
            match detail {
                Some(text) => self@.error_detail == Some(text@),
                None => self@.error_detail is None,
            },
    {
        match &self.error_detail {
            Some(detail) => Some(detail.as_str()),
            None => None,
        }
    }

    /// How long the attempt took.
    pub fn elapsed(&self) -> (elapsed: Elapsed)
        ensures
            elapsed@ == self@.elapsed,
    {
        self.elapsed
    }

    /// Writes the lines that report this outcome for a target path.
    pub fn report(&self, path: &str) -> (lines: Vec<String>)
        ensures
            lines_view(lines@) == report_lines(self@, path@),
    {
        let first = match &self.error_detail {
            Some(detail) => error_line(detail.as_str()),
            None => removed_line(path),
        };
        let mut lines: Vec<String> = Vec::new();
        lines.push(first);
        lines.push(done_line(self.elapsed));
        assert(lines_view(lines@) =~= report_lines(self@, path@));
        lines
    }
}

/// Writes the line that reports a removal that succeeded.
pub fn removed_line(path: &str) -> (text: String)
    ensures
        text@ == removed_text(path@),
{
    let mut text = String::from_str("Removed all files and folders from ");
    text.append(path);
    text
}

/// Writes the line that reports a removal that failed.
pub fn error_line(detail: &str) -> (text: String)
    ensures
        text@ == error_text(detail@),
{
    let mut text = String::from_str("Error: ");
    text.append(detail);
    text
}

/// Writes the closing line of a report.
pub fn done_line(elapsed: Elapsed) -> (text: String)
    ensures
        text@ == done_text(elapsed@),
{
    let mut text = String::from_str("Done in ");
    push_decimal(&mut text, elapsed.whole_seconds());
    text.append(".");
    push_padded_decimal(&mut text, elapsed.subsecond_nanos(), 9);
    text.append("s");
    proof {
        reveal_strlit(".");
        assert("."@ =~= seq!['.']);
        assert(text@ =~= done_text(elapsed@));
    }
    text
}

} // verus!
