//! What holds of every round of the menu, whatever is entered and whatever
//! the requests bring back.

use crate::collect::DraftView;
use crate::error::{ApiErrorView, InputParseError};
use crate::number::{i32_of, integer_of};
use crate::product::{placeholder_image, Price, ProductView};
use crate::request::{CallView, Operation};
use crate::session::{
    awaits, demand_spec, failure_prefix, fits, round_end, selecting, step_spec, unexpected_shape,
    DemandView, EventView, OutputView, PhaseView, ReplyView, SessionView, Targeted,
};
use crate::text::trimmed;
use vstd::prelude::*;

verus! {

/// The session after `events`, taken one after the other.
pub open spec fn run(session: SessionView, events: Seq<EventView>, label: Seq<char>) -> SessionView
    decreases events.len(),
{
    if events.len() == 0 {
        session
    } else {
        run(step_spec(session, events[0], label).0, events.drop_first(), label)
    }
}

/// All that is shown while `events` are taken one after the other.
pub open spec fn shown(session: SessionView, events: Seq<EventView>, label: Seq<char>) -> Seq<
    OutputView,
>
    decreases events.len(),
{
    if events.len() == 0 {
        Seq::empty()
    } else {
        let (next, output) = step_spec(session, events[0], label);
        output + shown(next, events.drop_first(), label)
    }
}

/// Whether the step from `before` to `after` starts a call: `after` waits
/// for the answer to a request and `before` did not.
pub open spec fn starts_call(before: SessionView, after: SessionView) -> bool {
    after is Running && after->Running_0 is Calling && !(before is Running
        && before->Running_0 is Calling)
}

/// The calls that are started while `events` are taken one after the other,
/// in the order in which they are started.
pub open spec fn calls_started(session: SessionView, events: Seq<EventView>, label: Seq<char>) -> Seq<
    CallView,
>
    decreases events.len(),
{
    if events.len() == 0 {
        Seq::empty()
    } else {
        let next = step_spec(session, events[0], label).0;
        let rest = calls_started(next, events.drop_first(), label);
        if starts_call(session, next) {
            seq![next->Running_0->Calling_0] + rest
        } else {
            rest
        }
    }
}

/// Whether `events` carry `session` through to the menu and no further: each
/// event is one that the session waits for when it comes, the last one leads
/// to the menu, and none before it does.
pub open spec fn reaches_menu(session: SessionView, events: Seq<EventView>, label: Seq<char>) -> bool
    decreases events.len(),
{
    events.len() > 0 && awaits(session, events[0]) && {
        let next = step_spec(session, events[0], label).0;
        if events.len() == 1 {
            next == selecting()
        } else {
            next != selecting() && reaches_menu(next, events.drop_first(), label)
        }
    }
}

/// The operation that a session is in the middle of, if it is in the middle
/// of one.
pub open spec fn operation_under_way(session: SessionView) -> Option<Operation> {
    match session {
        SessionView::Running(PhaseView::Targeting(op)) => Some(op.operation()),
        SessionView::Running(PhaseView::Collecting { target, .. }) => Some(
            if target is None {
                Operation::Create
            } else {
                Operation::Edit
            },
        ),
        SessionView::Running(PhaseView::Pricing { target, .. }) => Some(
            if target is None {
                Operation::Create
            } else {
                Operation::Edit
            },
        ),
        SessionView::Running(PhaseView::Calling(call)) => Some(call.operation()),
        _ => None,
    }
}

/// Whether `whole` ends with `end`.
pub open spec fn ends_with(whole: Seq<OutputView>, end: Seq<OutputView>) -> bool {
    end.len() <= whole.len() && whole.subrange(whole.len() - end.len(), whole.len() as int) == end
}

/// What ends with `end` still does so with something put in front.
proof fn lemma_ends_with_after(front: Seq<OutputView>, whole: Seq<OutputView>, end: Seq<OutputView>)
    requires
        ends_with(whole, end),
    ensures
        ends_with(front + whole, end),
{
    let all = front + whole;
    assert(all.subrange(all.len() - end.len(), all.len() as int) =~= whole.subrange(
        whole.len() - end.len(),
        whole.len() as int,
    ));
}

/// From the middle of an operation to the menu: the session that is in the
/// middle of an operation and is carried through to the menu starts the call
/// of that operation unless it has started it already, starts no other, and
/// shows the menu at the end.
pub proof fn lemma_operation_completes(
    session: SessionView,
    events: Seq<EventView>,
    label: Seq<char>,
)
    requires
        operation_under_way(session) is Some,
        reaches_menu(session, events, label),
    ensures
        run(session, events, label) == selecting(),
        ends_with(shown(session, events, label), round_end()),
        session->Running_0 is Calling ==> calls_started(session, events, label).len() == 0,
        !(session->Running_0 is Calling) ==> calls_started(session, events, label).len() == 1
            && calls_started(session, events, label)[0].operation() == operation_under_way(
            session,
        )->0,
    decreases events.len(),
{
    let (next, output) = step_spec(session, events[0], label);
    let rest = events.drop_first();
    if session->Running_0 is Calling {
        assert(shown(next, rest, label) =~= Seq::<OutputView>::empty());
        assert(ends_with(output, round_end())) by {
            let front = output.subrange(0, output.len() - round_end().len());
            assert(output =~= front + round_end());
            assert(round_end().subrange(0, round_end().len() as int) =~= round_end());
            lemma_ends_with_after(front, round_end(), round_end());
        }
        assert(calls_started(next, rest, label) =~= Seq::<CallView>::empty());
    } else {
        assert(reaches_menu(next, rest, label));
        lemma_operation_completes(next, rest, label);
        lemma_ends_with_after(output, shown(next, rest, label), round_end());
    }
}

/// Every selector from one to five runs its operation once and brings the
/// menu back.
///
/// Let a line read at the menu stand for one of the five operations, and let
/// the events that follow carry the session through to the menu. Then on the
/// way exactly one call is started, it is a call of the operation that the
/// selector stands for, the session is at the menu again and has not ended,
/// and the last thing shown is the menu.
pub proof fn lemma_selector_runs_one_operation(
    line: Seq<char>,
    rest: Seq<EventView>,
    label: Seq<char>,
)
    requires
        integer_of(trimmed(line)) is Some,
        Operation::of_selector_spec(integer_of(trimmed(line))->0) is Some,
        reaches_menu(selecting(), seq![EventView::Line(line)] + rest, label),
    ensures
        ({
            let events = seq![EventView::Line(line)] + rest;
            let operation = Operation::of_selector_spec(integer_of(trimmed(line))->0)->0;
            &&& calls_started(selecting(), events, label).len() == 1
            &&& calls_started(selecting(), events, label)[0].operation() == operation
            &&& run(selecting(), events, label) == selecting()
            &&& demand_spec(run(selecting(), events, label)) == DemandView::Line
            &&& ends_with(shown(selecting(), events, label), round_end())
        }),
{
    let events = seq![EventView::Line(line)] + rest;
    assert(events.drop_first() =~= rest);
    let (next, output) = step_spec(selecting(), events[0], label);
    lemma_operation_completes(next, rest, label);
    lemma_ends_with_after(output, shown(next, rest, label), round_end());
}

/// Zero ends the session at once.
///
/// A line that reads as zero at the menu leads to the session that has ended,
/// with the farewell as all that is shown. That session waits for nothing,
/// and whatever event it is given, it stays as it is and shows nothing.
pub proof fn lemma_zero_ends_session(line: Seq<char>, label: Seq<char>)
    requires
        integer_of(trimmed(line)) == Some(0int),
    ensures
        step_spec(selecting(), EventView::Line(line), label) == (
            SessionView::Exiting,
            seq![OutputView::Stdout("Exiting..."@)],
        ),
        demand_spec(SessionView::Exiting) == DemandView::Stop,
        forall|event: EventView, other: Seq<char>| #[trigger]
            step_spec(SessionView::Exiting, event, other) == (
                SessionView::Exiting,
                Seq::<OutputView>::empty(),
            ),
{
}

/// A selector that is no number ends the session in failure.
///
/// A line that does not read as an integer at the menu leads to the failed
/// session and shows nothing. That session waits for nothing but to be
/// given up, and whatever event it is given, it stays as it is and shows
/// nothing: the menu does not come back.
pub proof fn lemma_bad_selector_fails(line: Seq<char>, label: Seq<char>)
    requires
        integer_of(trimmed(line)) is None,
    ensures
        step_spec(selecting(), EventView::Line(line), label) == (
            SessionView::Failed(InputParseError::Selector),
            Seq::<OutputView>::empty(),
        ),
        demand_spec(SessionView::Failed(InputParseError::Selector)) == DemandView::Fail(
            InputParseError::Selector,
        ),
        forall|error: InputParseError, event: EventView, other: Seq<char>| #[trigger]
            step_spec(SessionView::Failed(error), event, other) == (
                SessionView::Failed(error),
                Seq::<OutputView>::empty(),
            ),
{
}

/// An identifier that is no number ends the session in failure, whatever
/// the operation.
pub proof fn lemma_bad_identifier_fails(op: Targeted, line: Seq<char>, label: Seq<char>)
    requires
        i32_of(trimmed(line)) is None,
    ensures
        step_spec(
            SessionView::Running(PhaseView::Targeting(op)),
            EventView::Line(line),
            label,
        ) == (SessionView::Failed(InputParseError::ProductId), Seq::<OutputView>::empty()),
{
}

/// An integer that stands for no operation is pointed out and the menu
/// comes back.
///
/// A line that reads at the menu as an integer other than zero to five, be
/// it negative or of any size, leads to the menu again, not to the end of the
/// session. What is shown is the notice and then the close of the round with
/// the menu. No call is started.
pub proof fn lemma_unknown_selector_is_pointed_out(line: Seq<char>, label: Seq<char>)
    requires
        integer_of(trimmed(line)) is Some,
        integer_of(trimmed(line))->0 < 0 || integer_of(trimmed(line))->0 > 5,
    ensures
        step_spec(selecting(), EventView::Line(line), label) == (
            selecting(),
            seq![OutputView::Stdout("Invalid choice, please select 1, 2, or 3."@)] + round_end(),
        ),
        calls_started(selecting(), seq![EventView::Line(line)], label).len() == 0,
{
    let events = seq![EventView::Line(line)];
    assert(calls_started(selecting(), events.drop_first(), label).len() == 0);
}

/// Every answer closes the round.
///
/// Whatever call is under way and whatever the answer, be it a failure, a
/// reply that fits the call or one that does not, the answer leads to the
/// menu, and the last thing shown is the close of the round with the menu.
/// The session never waits for the same call again.
pub proof fn lemma_answer_closes_round(
    call: CallView,
    answer: Result<ReplyView, ApiErrorView>,
    label: Seq<char>,
)
    ensures
        ({
            let session = SessionView::Running(PhaseView::Calling(call));
            let events = seq![EventView::Answer(answer)];
            &&& reaches_menu(session, events, label)
            &&& run(session, events, label) == selecting()
            &&& ends_with(shown(session, events, label), round_end())
        }),
{
    let session = SessionView::Running(PhaseView::Calling(call));
    let events = seq![EventView::Answer(answer)];
    lemma_operation_completes(session, events, label);
}

/// A reply of the wrong shape is reported as a failure to decode.
///
/// Whatever call is under way, a reply that holds something other than what
/// the answer to that call is expected to hold is shown as the failure of
/// the call, in one line for the standard error, and the round is closed.
pub proof fn lemma_wrong_shape_is_reported(call: CallView, reply: ReplyView, label: Seq<char>)
    requires
        !fits(call, reply),
    ensures
        step_spec(
            SessionView::Running(PhaseView::Calling(call)),
            EventView::Answer(Ok(reply)),
            label,
        ) == (
            selecting(),
            seq![
                OutputView::Stderr(failure_prefix(call.operation()) + unexpected_shape().message),
            ] + round_end(),
        ),
{
}

/// A failed request is reported and the menu comes back.
///
/// Whatever call is under way and whatever the failure, the answer leads to
/// the menu, not to the end of the session. What is shown is one line for the
/// standard error, made of the words for the operation and the text of the
/// failure, and then the close of the round with the menu.
pub proof fn lemma_failure_is_reported(call: CallView, error: ApiErrorView, label: Seq<char>)
    ensures
        step_spec(
            SessionView::Running(PhaseView::Calling(call)),
            EventView::Answer(Err(error)),
            label,
        ) == (
            selecting(),
            seq![OutputView::Stderr(failure_prefix(call.operation()) + error.message)]
                + round_end(),
        ),
        demand_spec(selecting()) == DemandView::Line,
{
}


/// A price that cannot be read counts as zero.
///
/// When all fields are entered and the price text turns out to be no number,
/// the session goes on to the call all the same, and the product that the
/// call sends carries the price `0.0`. The other fields are as entered.
pub proof fn lemma_unreadable_price_is_zero(
    target: Option<i32>,
    draft: DraftView,
    label: Seq<char>,
)
    ensures
        ({
            let (next, output) = step_spec(
                SessionView::Running(PhaseView::Pricing { target, draft }),
                EventView::PriceRead(None),
                label,
            );
            &&& next is Running
            &&& next->Running_0 is Calling
            &&& output.len() == 0
            &&& next->Running_0->Calling_0.request().body is Some
            &&& next->Running_0->Calling_0.request().body->0 == (ProductView {
                id: target,
                title: draft.title,
                price: Price { bits: 0 },
                description: draft.description,
                category: draft.category,
                image: placeholder_image(),
            })
        }),
{
}

/// An event that the session does not wait for changes nothing and shows
/// nothing.
pub proof fn lemma_unawaited_changes_nothing(
    session: SessionView,
    event: EventView,
    label: Seq<char>,
)
    requires
        !awaits(session, event),
    ensures
        step_spec(session, event, label) == (session, Seq::<OutputView>::empty()),
{
}

/// Every call makes a request that is well formed: a product sent to be
/// created carries no identifier, a product sent to replace another carries
/// the identifier of the one it replaces, and the other requests carry no
/// product.
pub proof fn lemma_requests_well_formed(call: CallView)
    ensures
        call.request().well_formed(),
        call matches CallView::Create(_) ==> call.request().body->0.id is None,
        call matches CallView::Edit(id, _) ==> call.request().body->0.id == Some(id),
{
}

} // verus!
