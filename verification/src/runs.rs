//! What holds of every run, whatever its caller observes.
//!
//! A run is read here as the list of events that its caller handed in, from
//! the start. The lemmas speak of the stage before each event and of what the
//! step answered to it.

use vstd::prelude::*;
use crate::gate::{
    affirms, decline_text, forced_notice_text, forced_target_text, prompt_text,
    ConfirmationDecision, RequestView,
};
use crate::session::{
    decision_at, exit_status_at, next_stage, reply, ActionView, ErrorView, EventView,
    ExitStatus, Stage,
};
use crate::text::normalized;

verus! {

/// The stage of a run that began in `stage` and has since taken `events`.
pub open spec fn stage_after(request: RequestView, stage: Stage, events: Seq<EventView>) -> Stage
    decreases events.len(),
{
    if events.len() == 0 {
        stage
    } else {
        next_stage(request, stage_after(request, stage, events.drop_last()), events.last())
    }
}

/// The stage of a fresh run just before it takes its event number `i`.
pub open spec fn stage_before(request: RequestView, events: Seq<EventView>, i: int) -> Stage {
    stage_after(request, Stage::Start, events.take(i))
}

/// What a fresh run answers to its event number `i`.
pub open spec fn reply_at(request: RequestView, events: Seq<EventView>, i: int) -> Result<
    ActionView,
    ErrorView,
> {
    reply(request, stage_before(request, events, i), events[i])
}

/// Whether a step's answer sends the caller to read the operator's line.
pub open spec fn asks(answer: Result<ActionView, ErrorView>) -> bool {
    answer matches Ok(ActionView::Ask { .. })
}

/// Whether a step's answer sends the caller to attempt the removal.
pub open spec fn deletes(answer: Result<ActionView, ErrorView>) -> bool {
    answer matches Ok(ActionView::Delete { .. })
}

/// Whether a run in `stage` is over.
pub open spec fn is_over(stage: Stage) -> bool {
    exit_status_at(stage) is Some
}

/// The stages in which a step can send the caller to remove.
pub open spec fn stage_before_removal(stage: Stage) -> bool {
    stage == Stage::Start || stage == Stage::AwaitingAnswer
}

/// How far along a stage is: a run only ever moves to a later stage.
pub open spec fn progress(stage: Stage) -> nat {
    match stage {
        Stage::Start => 0,
        Stage::AwaitingAnswer => 1,
        Stage::Deleting => 2,
        _ => 3,
    }
}

/// The stage before event `i + 1` is the stage that event `i` led to.
pub proof fn lemma_stage_before_next(request: RequestView, events: Seq<EventView>, i: int)
    requires
        0 <= i < events.len(),
    ensures
        stage_before(request, events, i + 1) == next_stage(
            request,
            stage_before(request, events, i),
            events[i],
        ),
{
    assert(events.take(i + 1).drop_last() =~= events.take(i));
    assert(events.take(i + 1).last() == events[i]);
}

/// A run never moves back: the stage before a later event is no earlier
/// than the stage before an earlier one.
pub proof fn lemma_progress_grows(request: RequestView, events: Seq<EventView>, i: int, j: int)
    requires
        0 <= i <= j <= events.len(),
    ensures
        progress(stage_before(request, events, i)) <= progress(stage_before(request, events, j)),
    decreases j - i,
{
    if i < j {
        lemma_progress_grows(request, events, i, j - 1);
        lemma_stage_before_next(request, events, j - 1);
    }
}

/// A forced request is affirmed by the first step, which answers with the
/// two notices, in their order, and the order to remove.
pub proof fn lemma_forced_begin_affirms(request: RequestView)
    requires
        request.force,
    ensures
        reply(request, Stage::Start, EventView::Begin) == Ok::<ActionView, ErrorView>(
            ActionView::Delete {
                notices: seq![forced_notice_text(), forced_target_text(request.target_path)],
            },
        ),
        decision_at(next_stage(request, Stage::Start, EventView::Begin)) == Some(
            ConfirmationDecision::Affirmed,
        ),
{
}

/// A forced run never awaits the operator's line.
proof fn lemma_forced_run_never_waits(request: RequestView, events: Seq<EventView>, i: int)
    requires
        request.force,
        0 <= i <= events.len(),
    ensures
        stage_before(request, events, i) != Stage::AwaitingAnswer,
    decreases i,
{
    if i == 0 {
        assert(events.take(0) =~= Seq::<EventView>::empty());
    } else {
        lemma_forced_run_never_waits(request, events, i - 1);
        lemma_stage_before_next(request, events, i - 1);
    }
}

/// At no point of a forced run, whatever the caller hands in, is the caller
/// sent to read the operator's line; a line that is handed in all the same,
/// or the failure to read one, is refused and changes nothing.
pub proof fn lemma_forced_run_never_asks(request: RequestView, events: Seq<EventView>, i: int)
    requires
        request.force,
        0 <= i < events.len(),
    ensures
        !asks(reply_at(request, events, i)),
        events[i] is Answer || events[i] is AnswerFailed ==> {
            &&& reply_at(request, events, i) == Err::<ActionView, ErrorView>(
                ErrorView::UnexpectedEvent,
            )
            &&& stage_before(request, events, i + 1) == stage_before(request, events, i)
        },
{
    lemma_forced_run_never_waits(request, events, i);
    lemma_stage_before_next(request, events, i);
}

/// An unforced request is first answered with the question, which names the
/// path as given; a line that normalizes to `y` is then affirmed, and the
/// caller is sent to remove without further notice.
pub proof fn lemma_consent_affirms(request: RequestView, line: Seq<char>)
    requires
        !request.force,
        affirms(normalized(line)),
    ensures
        reply_at(request, seq![EventView::Begin, EventView::Answer(line)], 0) == Ok::<
            ActionView,
            ErrorView,
        >(ActionView::Ask { prompt: prompt_text(request.target_path) }),
        reply_at(request, seq![EventView::Begin, EventView::Answer(line)], 1) == Ok::<
            ActionView,
            ErrorView,
        >(ActionView::Delete { notices: Seq::empty() }),
        decision_at(
            stage_after(request, Stage::Start, seq![EventView::Begin, EventView::Answer(line)]),
        ) == Some(ConfirmationDecision::Affirmed),
{
    let events = seq![EventView::Begin, EventView::Answer(line)];
    lemma_stage_before_next(request, events, 0);
    lemma_stage_before_next(request, events, 1);
    assert(events.take(2) =~= events);
}

/// An unforced request whose line normalizes to anything but `y`, the empty
/// line included, is declined: the run is over with the decline notice, the
/// caller is not sent to remove, and the process is to end in success.
pub proof fn lemma_other_answers_decline(request: RequestView, line: Seq<char>)
    requires
        !request.force,
        !affirms(normalized(line)),
    ensures
        reply_at(request, seq![EventView::Begin, EventView::Answer(line)], 1) == Ok::<
            ActionView,
            ErrorView,
        >(ActionView::Finish { lines: seq![decline_text(normalized(line))] }),
        ({
            let end = stage_after(
                request,
                Stage::Start,
                seq![EventView::Begin, EventView::Answer(line)],
            );
            &&& end == Stage::Declined
            &&& decision_at(end) == Some(ConfirmationDecision::Declined)
            &&& exit_status_at(end) == Some(ExitStatus::Success)
        }),
{
    let events = seq![EventView::Begin, EventView::Answer(line)];
    lemma_stage_before_next(request, events, 0);
    lemma_stage_before_next(request, events, 1);
    assert(events.take(2) =~= events);
}

/// The question is put at most once in a run.
pub proof fn lemma_asks_at_most_once(request: RequestView, events: Seq<EventView>, i: int, j: int)
    requires
        0 <= i < events.len(),
        0 <= j < events.len(),
        asks(reply_at(request, events, i)),
        asks(reply_at(request, events, j)),
    ensures
        i == j,
{
    if i < j {
        lemma_stage_before_next(request, events, i);
        lemma_progress_grows(request, events, i + 1, j);
    } else if j < i {
        lemma_stage_before_next(request, events, j);
        lemma_progress_grows(request, events, j + 1, i);
    }
}

/// An operator's line is taken only after the question was put: a run that
/// does not refuse an answer has asked at an earlier step.
pub proof fn lemma_answer_follows_question(request: RequestView, events: Seq<EventView>, i: int)
    requires
        0 <= i < events.len(),
        events[i] is Answer,
        reply_at(request, events, i) != Err::<ActionView, ErrorView>(ErrorView::UnexpectedEvent),
    ensures
        exists|j: int| 0 <= j < i && asks(#[trigger] reply_at(request, events, j)),
{
    assert(stage_before(request, events, i) == Stage::AwaitingAnswer);
    lemma_entered_awaiting(request, events, i);
}

/// A run that awaits the answer before event `i` has asked at an earlier step.
proof fn lemma_entered_awaiting(request: RequestView, events: Seq<EventView>, i: int)
    requires
        0 <= i <= events.len(),
        stage_before(request, events, i) == Stage::AwaitingAnswer,
    ensures
        exists|j: int| 0 <= j < i && asks(#[trigger] reply_at(request, events, j)),
    decreases i,
{
    if i == 0 {
        assert(events.take(0) =~= Seq::<EventView>::empty());
    } else {
        lemma_stage_before_next(request, events, i - 1);
        if stage_before(request, events, i - 1) == Stage::AwaitingAnswer {
            lemma_entered_awaiting(request, events, i - 1);
            let j = choose|j: int| 0 <= j < i - 1 && asks(#[trigger] reply_at(request, events, j));
            assert(0 <= j < i && asks(reply_at(request, events, j)));
        } else {
            assert(asks(reply_at(request, events, i - 1)));
        }
    }
}

/// The caller is sent to remove only by a step that leaves the decision
/// affirmed.
pub proof fn lemma_removal_needs_consent(request: RequestView, stage: Stage, event: EventView)
    requires
        deletes(reply(request, stage, event)),
    ensures
        decision_at(next_stage(request, stage, event)) == Some(ConfirmationDecision::Affirmed),
        stage_before_removal(stage),
{
}

/// The removal is attempted at most once in a run: the caller is sent to
/// remove by at most one step.
pub proof fn lemma_removes_at_most_once(
    request: RequestView,
    events: Seq<EventView>,
    i: int,
    j: int,
)
    requires
        0 <= i < events.len(),
        0 <= j < events.len(),
        deletes(reply_at(request, events, i)),
        deletes(reply_at(request, events, j)),
    ensures
        i == j,
{
    if i < j {
        lemma_stage_before_next(request, events, i);
        lemma_progress_grows(request, events, i + 1, j);
    } else if j < i {
        lemma_stage_before_next(request, events, j);
        lemma_progress_grows(request, events, j + 1, i);
    }
}

/// Once a run is over it stays as it is: every further event is refused, so
/// after a decline the caller is never sent to remove, and the way the
/// process is to end does not change.
pub proof fn lemma_nothing_follows_the_end(
    request: RequestView,
    events: Seq<EventView>,
    i: int,
    j: int,
)
    requires
        0 <= i <= j < events.len(),
        is_over(stage_before(request, events, i)),
    ensures
        stage_before(request, events, j) == stage_before(request, events, i),
        stage_before(request, events, j + 1) == stage_before(request, events, i),
        reply_at(request, events, j) == Err::<ActionView, ErrorView>(ErrorView::UnexpectedEvent),
        !deletes(reply_at(request, events, j)),
    decreases j - i,
{
    if i < j {
        lemma_nothing_follows_the_end(request, events, i, j - 1);
    }
    lemma_stage_before_next(request, events, j);
}

/// A run that has declined never sends the caller to remove, whatever the
/// caller hands in afterwards.
pub proof fn lemma_no_removal_after_decline(
    request: RequestView,
    events: Seq<EventView>,
    i: int,
    j: int,
)
    requires
        0 <= i <= j < events.len(),
        decision_at(stage_before(request, events, i)) == Some(ConfirmationDecision::Declined),
    ensures
        !deletes(reply_at(request, events, j)),
        decision_at(stage_before(request, events, j + 1)) == Some(ConfirmationDecision::Declined),
{
    lemma_nothing_follows_the_end(request, events, i, j);
}

/// A run ends in failure exactly when the operator's line could not be read
/// or the removal failed, and in success exactly when the tree was removed
/// or the operator declined.
pub proof fn lemma_exit_status(stage: Stage)
    ensures
        exit_status_at(stage) == Some(ExitStatus::Failure) <==> (stage == Stage::Unanswered
            || stage == Stage::Failed),
        exit_status_at(stage) == Some(ExitStatus::Success) <==> (stage == Stage::Removed
            || stage == Stage::Declined),
{
}

} // verus!
