//! One run of the tool, as a machine that is stepped by its caller.
//!
//! The run decides; the caller acts. Each step takes what the caller last
//! observed and answers with what the caller is to do next: put the question
//! and read one line, attempt the removal, or print the closing lines and
//! stop. The run never reads, writes or removes anything itself.

use vstd::prelude::*;
use crate::executor::{report_lines, DeletionOutcome, OutcomeView};
use crate::gate::{
    affirms, decline_notice, decline_text, forced_notice, forced_notice_text,
    forced_target_notice, forced_target_text, prompt, prompt_text, ConfirmationDecision,
    ConfirmationRequest, RequestView,
};
use crate::text::{lines_view, normalize, normalized};

verus! {

/// How the process is to end.
#[derive(Clone, Copy, Debug, PartialEq, Eq, Structural)]
pub enum ExitStatus {
    /// The tree was removed, or the operator declined.
    Success,
    /// The answer could not be read, or the removal failed.
    Failure,
}

/// How far a run has come.
#[derive(Clone, Copy, Debug, PartialEq, Eq, Structural)]
pub enum Stage {
    /// Nothing has happened yet.
    Start,
    /// The question is out; the operator's line is awaited.
    AwaitingAnswer,
    /// The removal is affirmed; its attempt is awaited.
    Deleting,
    /// Over: the operator declined and nothing was removed.
    Declined,
    /// Over: the operator's line could not be read.
    Unanswered,
    /// Over: the tree was removed.
    Removed,
    /// Over: the removal was attempted and failed.
    Failed,
}

/// What the caller observed.
#[derive(Debug)]
pub enum Event {
    /// The run is to begin.
    Begin,
    /// One line was read from the operator; at end of input it is empty.
    Answer(String),
    /// Reading the operator's line failed, for the reason given.
    AnswerFailed(String),
    /// The removal was attempted once and came to this outcome.
    Attempt(DeletionOutcome),
}

/// An event, as plain values.
pub enum EventView {
    Begin,
    Answer(Seq<char>),
    AnswerFailed(Seq<char>),
    Attempt(OutcomeView),
}

impl View for Event {
    type V = EventView;

    open spec fn view(&self) -> EventView {
        match *self {
            Event::Begin => EventView::Begin,
            Event::Answer(line) => EventView::Answer(line@),
            Event::AnswerFailed(detail) => EventView::AnswerFailed(detail@),
            Event::Attempt(outcome) => EventView::Attempt(outcome@),
        }
    }
}

/// What the caller is to do next.
#[derive(Debug)]
pub enum Action {
    /// Write `prompt` without a newline, flush, read one line, and report it
    /// as `Event::Answer`, or as `Event::AnswerFailed` if the read fails.
    Ask { prompt: String },
    /// Print each notice on a line of its own, then attempt the removal once,
    /// timing it, and report the outcome as `Event::Attempt`.
    Delete { notices: Vec<String> },
    /// Print each line on a line of its own; the run is over.
    Finish { lines: Vec<String> },
}

/// An action, as plain values.
pub enum ActionView {
    Ask { prompt: Seq<char> },
    Delete { notices: Seq<Seq<char>> },
    Finish { lines: Seq<Seq<char>> },
}

impl View for Action {
    type V = ActionView;

    open spec fn view(&self) -> ActionView {
        match *self {
            Action::Ask { prompt } => ActionView::Ask { prompt: prompt@ },
            Action::Delete { notices } => ActionView::Delete { notices: lines_view(notices@) },
            Action::Finish { lines } => ActionView::Finish { lines: lines_view(lines@) },
        }
    }
}

/// Why a step gave no action.
#[derive(Debug)]
pub enum SessionError {
    /// The operator's line could not be read; the run is over and nothing
    /// was removed.
    InputFailure { detail: String },
    /// The event does not fit the stage; the run stays where it was.
    UnexpectedEvent,
}

/// An error, as plain values.
pub enum ErrorView {
    InputFailure { detail: Seq<char> },
    UnexpectedEvent,
}

impl View for SessionError {
    type V = ErrorView;

    open spec fn view(&self) -> ErrorView {
        match *self {
            SessionError::InputFailure { detail } => ErrorView::InputFailure { detail: detail@ },
            SessionError::UnexpectedEvent => ErrorView::UnexpectedEvent,
        }
    }
}

/// What an error says to the operator.
pub open spec fn error_message_text(error: ErrorView) -> Seq<char> {
    match error {
        ErrorView::InputFailure { detail } => "Failed to read user input "@ + detail,
        ErrorView::UnexpectedEvent => "Event does not fit the stage of the run"@,
    }
}

impl SessionError {
    /// Writes what the error says to the operator.
    pub fn message(&self) -> (text: String)
        ensures
            text@ == error_message_text(self@),
    {
        match self {
            SessionError::InputFailure { detail } => {
                let mut text = String::from_str("Failed to read user input ");
                text.append(detail.as_str());
                text
            },
            SessionError::UnexpectedEvent => String::from_str(
                "Event does not fit the stage of the run",
            ),
        }
    }
}

/// What a step answers, as plain values.
pub open spec fn reply_view(reply: Result<Action, SessionError>) -> Result<ActionView, ErrorView> {
    match reply {
        Ok(action) => Ok(action@),
        Err(error) => Err(error@),
    }
}

/// The stage that follows when `event` is observed in `stage`.
pub open spec fn next_stage(request: RequestView, stage: Stage, event: EventView) -> Stage {
    match (stage, event) {
        (Stage::Start, EventView::Begin) => if request.force {
            Stage::Deleting
        } else {
            Stage::AwaitingAnswer
        },
        (Stage::AwaitingAnswer, EventView::Answer(line)) => if affirms(normalized(line)) {
            Stage::Deleting
        } else {
            Stage::Declined
        },
        (Stage::AwaitingAnswer, EventView::AnswerFailed(_)) => Stage::Unanswered,
        (Stage::Deleting, EventView::Attempt(outcome)) => if outcome.error_detail is None {
            Stage::Removed
        } else {
            Stage::Failed
        },
        _ => stage,
    }
}

/// What a step answers when `event` is observed in `stage`.
pub open spec fn reply(request: RequestView, stage: Stage, event: EventView) -> Result<
    ActionView,
    ErrorView,
> {
    match (stage, event) {
        (Stage::Start, EventView::Begin) => if request.force {
            Ok(
                ActionView::Delete {
                    notices: seq![forced_notice_text(), forced_target_text(request.target_path)],
                },
            )
        } else {
            Ok(ActionView::Ask { prompt: prompt_text(request.target_path) })
        },
        (Stage::AwaitingAnswer, EventView::Answer(line)) => if affirms(normalized(line)) {
            Ok(ActionView::Delete { notices: Seq::empty() })
        } else {
            Ok(ActionView::Finish { lines: seq![decline_text(normalized(line))] })
        },
        (Stage::AwaitingAnswer, EventView::AnswerFailed(detail)) => Err(
            ErrorView::InputFailure { detail },
        ),
        (Stage::Deleting, EventView::Attempt(outcome)) => Ok(
            ActionView::Finish { lines: report_lines(outcome, request.target_path) },
        ),
        _ => Err(ErrorView::UnexpectedEvent),
    }
}

/// What has been decided by the time a run is in `stage`, if anything.
pub open spec fn decision_at(stage: Stage) -> Option<ConfirmationDecision> {
    match stage {
        Stage::Start | Stage::AwaitingAnswer | Stage::Unanswered => None,
        Stage::Deleting | Stage::Removed | Stage::Failed => Some(ConfirmationDecision::Affirmed),
        Stage::Declined => Some(ConfirmationDecision::Declined),
    }
}

/// How the process is to end once a run is in `stage`, if the run is over.
pub open spec fn exit_status_at(stage: Stage) -> Option<ExitStatus> {
    match stage {
        Stage::Start | Stage::AwaitingAnswer | Stage::Deleting => None,
        Stage::Declined | Stage::Removed => Some(ExitStatus::Success),
        Stage::Unanswered | Stage::Failed => Some(ExitStatus::Failure),
    }
}

impl ExitStatus {
    /// The exit code of the process: zero for success only.
    pub fn code(self) -> (code: u8)
        ensures
            code == (if self == ExitStatus::Success { 0u8 } else { 1u8 }),
    {
        match self {
            ExitStatus::Success => 0,
            ExitStatus::Failure => 1,
        }
    }
}

/// One run: the request it serves and the stage it is in.
#[derive(Debug)]
pub struct Session {
    request: ConfirmationRequest,
    stage: Stage,
}

/// A run, as plain values.
pub struct SessionView {
    pub request: RequestView,
    pub stage: Stage,
}

impl View for Session {
    type V = SessionView;

    closed spec fn view(&self) -> SessionView {
        SessionView { request: self.request@, stage: self.stage }
    }
}

impl Session {
    /// A run for `request` that has not begun.
    pub fn new(request: ConfirmationRequest) -> (session: Session)
        ensures
            session@ == (SessionView { request: request@, stage: Stage::Start }),
    {
        Session { request, stage: Stage::Start }
    }

    /// The request that the run serves.
    pub fn request(&self) -> (request: &ConfirmationRequest)
        ensures
            request@ == self@.request,
    {
        &self.request
    }

    /// The stage that the run is in.
    pub fn stage(&self) -> (stage: Stage)
        ensures
            stage == self@.stage,
    {
        self.stage
    }

    /// What has been decided so far, if anything.
    pub fn decision(&self) -> (decision: Option<ConfirmationDecision>)
        ensures
            decision == decision_at(self@.stage),
    {
        match self.stage {
            Stage::Start | Stage::AwaitingAnswer | Stage::Unanswered => None,
            Stage::Deleting | Stage::Removed | Stage::Failed => Some(
                ConfirmationDecision::Affirmed,
            ),
            Stage::Declined => Some(ConfirmationDecision::Declined),
        }
    }

    /// How the process is to end, if the run is over.
    pub fn exit_status(&self) -> (status: Option<ExitStatus>)
        ensures
            status == exit_status_at(self@.stage),
    {
        match self.stage {
            Stage::Start | Stage::AwaitingAnswer | Stage::Deleting => None,
            Stage::Declined | Stage::Removed => Some(ExitStatus::Success),
            Stage::Unanswered | Stage::Failed => Some(ExitStatus::Failure),
        }
    }

    /// Takes what the caller observed and answers with what to do next.
    ///
    /// An event that does not fit the stage is refused and changes nothing.
    pub fn step(&mut self, event: Event) -> (result: Result<Action, SessionError>)
        ensures
            final(self)@.request == old(self)@.request,
            final(self)@.stage == next_stage(old(self)@.request, old(self)@.stage, event@),
            reply_view(result) == reply(old(self)@.request, old(self)@.stage, event@),
    {
        match self.stage {
            Stage::Start => match event {
                Event::Begin => {
                    if self.request.force() {
                        let mut notices: Vec<String> = Vec::new();
                        notices.push(forced_notice());
                        notices.push(forced_target_notice(self.request.target_path()));
                        assert(lines_view(notices@) =~= seq![
                            forced_notice_text(),
                            forced_target_text(self@.request.target_path),
                        ]);
                        self.stage = Stage::Deleting;
                        Ok(Action::Delete { notices })
                    } else {
                        let text = prompt(self.request.target_path());
                        self.stage = Stage::AwaitingAnswer;
                        Ok(Action::Ask { prompt: text })
                    }
                },
                _ => Err(SessionError::UnexpectedEvent),
            },
            Stage::AwaitingAnswer => match event {
                Event::Answer(line) => {
                    let answer = normalize(line.as_str());
                    match ConfirmationDecision::from_answer(answer.as_str()) {
                        ConfirmationDecision::Affirmed => {
                            let notices: Vec<String> = Vec::new();
                            assert(lines_view(notices@) =~= Seq::<Seq<char>>::empty());
                            self.stage = Stage::Deleting;
                            Ok(Action::Delete { notices })
                        },
                        ConfirmationDecision::Declined => {
                            let mut lines: Vec<String> = Vec::new();
                            lines.push(decline_notice(answer.as_str()));
                            assert(lines_view(lines@) =~= seq![decline_text(normalized(line@))]);
                            self.stage = Stage::Declined;
                            Ok(Action::Finish { lines })
                        },
                    }
                },
                Event::AnswerFailed(detail) => {
                    self.stage = Stage::Unanswered;
                    Err(SessionError::InputFailure { detail })
                },
                _ => Err(SessionError::UnexpectedEvent),
            },
            Stage::Deleting => match event {
                Event::Attempt(outcome) => {
                    proof {
                        outcome.lemma_succeeded_iff_no_detail();
                    }
                    let lines = outcome.report(self.request.target_path());
                    self.stage = if outcome.succeeded() {
                        Stage::Removed
                    } else {
                        Stage::Failed
                    };
                    Ok(Action::Finish { lines })
                },
                _ => Err(SessionError::UnexpectedEvent),
            },
            _ => Err(SessionError::UnexpectedEvent),
        }
    }
}

} // verus!
