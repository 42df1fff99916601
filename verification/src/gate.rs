//! The confirmation gate: whether the removal may go ahead.
//!
//! A forced request is affirmed without a question. Any other request is
//! put to the operator, whose answer is normalized and affirms only if it is
//! the single letter `y`.

use vstd::prelude::*;
use crate::text::{normalize, normalized};

verus! {

/// A request to remove the tree under `target_path`.
#[derive(Clone, Debug)]
pub struct ConfirmationRequest {
    target_path: String,
    force: bool,
}

/// What a request holds, as plain values.
pub struct RequestView {
    pub target_path: Seq<char>,
    pub force: bool,
}

impl View for ConfirmationRequest {
    type V = RequestView;

    closed spec fn view(&self) -> RequestView {
        RequestView { target_path: self.target_path@, force: self.force }
    }
}

impl ConfirmationRequest {
    /// A request for the given path. The path is kept as it is given.
    pub fn new(target_path: String, force: bool) -> (request: ConfirmationRequest)
        ensures
            request@ == (RequestView { target_path: target_path@, force }),
    {
        ConfirmationRequest { target_path, force }
    }

    /// The path whose tree is to be removed.
    pub fn target_path(&self) -> (path: &str)
        ensures
            path@ == self@.target_path,
    {
        self.target_path.as_str()
    }

    /// Whether the operator is not to be asked.
    pub fn force(&self) -> (force: bool)
        ensures
            force == self@.force,
    {
        self.force
    }
}

/// Whether the removal may go ahead.
#[derive(Clone, Copy, Debug, PartialEq, Eq, Structural)]
pub enum ConfirmationDecision {
    /// The removal goes ahead.
    Affirmed,
    /// The removal is called off; nothing is touched.
    Declined,
}

/// Whether a normalized answer gives consent: only the single letter `y` does.
pub open spec fn affirms(answer: Seq<char>) -> bool {
    answer.len() == 1 && answer[0] == 'y'
}

/// The one answer that gives consent is the text `y`.
pub proof fn lemma_affirms_only_y(answer: Seq<char>)
    ensures
        affirms(answer) <==> answer == seq!['y'],
{
    if affirms(answer) {
        assert(answer =~= seq!['y']);
    }
}

impl ConfirmationDecision {
    /// The decision that a normalized answer stands for.
    pub open spec fn of(answer: Seq<char>) -> ConfirmationDecision {
        if affirms(answer) {
            ConfirmationDecision::Affirmed
        } else {
            ConfirmationDecision::Declined
        }
    }

    /// Decides on an answer that is already normalized.
    pub fn from_answer(answer: &str) -> (decision: ConfirmationDecision)
        ensures
            decision == ConfirmationDecision::of(answer@),
    {
        if answer.unicode_len() == 1 && answer.get_char(0) == 'y' {
            ConfirmationDecision::Affirmed
        } else {
            ConfirmationDecision::Declined
        }
    }

    /// Decides on a line as it was read from the operator.
    pub fn from_line(line: &str) -> (decision: ConfirmationDecision)
        ensures
            decision == ConfirmationDecision::of(normalized(line@)),
    {
        let answer = normalize(line);
        ConfirmationDecision::from_answer(answer.as_str())
    }
}

/// The question put to the operator. It ends in a space, not in a newline.
pub open spec fn prompt_text(path: Seq<char>) -> Seq<char> {
    "Are you sure you want to delete all files and folders in "@ + path + "? (y/n) "@
}

/// The first line of a forced run.
pub open spec fn forced_notice_text() -> Seq<char> {
    "Running delete without confirmation."@
}

/// The second line of a forced run, which names the target.
pub open spec fn forced_target_text(path: Seq<char>) -> Seq<char> {
    "Deleting all files and folders in "@ + path + "."@
}

/// The line that reports a decline, with the answer in its normal form.
pub open spec fn decline_text(answer: Seq<char>) -> Seq<char> {
    "Aborting as user input '"@ + answer + "' was not 'y'"@
}

/// Writes the question for a target path.
pub fn prompt(path: &str) -> (text: String)
    ensures
        text@ == prompt_text(path@),
{
    let mut text = String::from_str("Are you sure you want to delete all files and folders in ");
    text.append(path);
    text.append("? (y/n) ");
    text
}

/// Writes the first line of a forced run.
pub fn forced_notice() -> (text: String)
    ensures
        text@ == forced_notice_text(),
{
    String::from_str("Running delete without confirmation.")
}

/// Writes the second line of a forced run for a target path.
pub fn forced_target_notice(path: &str) -> (text: String)
    ensures
        text@ == forced_target_text(path@),
{
    let mut text = String::from_str("Deleting all files and folders in ");
    text.append(path);
    text.append(".");
    text
}

/// Writes the line that reports a decline of a normalized answer.
pub fn decline_notice(answer: &str) -> (text: String)
    ensures
        text@ == decline_text(answer@),
{
    let mut text = String::from_str("Aborting as user input '");
    text.append(answer);
    text.append("' was not 'y'");
    text
}

} // verus!
