//! What holds of every run of the polling engine.

use vstd::prelude::*;
use crate::live::{all_live, observed, observed_all, pruned};
use crate::polling::{heights_from, ActionView, EventView, Phase, PollingView, LAST_HEIGHT};
use crate::types::{block_heights, FirehoseBlockView};

verus! {

/// Observing blocks keeps every height of a window live.
pub proof fn observed_all_keeps_live(
    m: Map<u64, crate::live::BlockInfoView>,
    confirms: u64,
    latest: u64,
    blocks: Seq<FirehoseBlockView>,
)
    requires
        all_live(m, confirms, latest),
    ensures
        all_live(observed_all(m, confirms, latest, blocks), confirms, latest),
    decreases blocks.len(),
{
    if blocks.len() > 0 {
        observed_all_keeps_live(m, confirms, latest, blocks.drop_last());
    }
}

/// What the helpers of a transition need of the state they start from.
spec fn sound(s: PollingView) -> bool {
    &&& s.batch >= 1
    &&& s.target <= LAST_HEIGHT
    &&& all_live(s.window, s.confirms, s.latest)
}

proof fn begin_chunk_keeps_wf(s: PollingView)
    requires
        sound(s),
        s.queue.len() == 0,
    ensures
        s.begin_chunk().0.wf(),
{
}

proof fn fail_keeps_wf(s: PollingView, e: crate::result::Error)
    requires
        sound(s),
    ensures
        s.fail(e).0.wf(),
        s.halt(e).0.wf(),
{
}

proof fn emit_next_keeps_wf(s: PollingView)
    requires
        sound(s),
        s.queue.len() > 0 ==> s.ptr + s.queue.len() <= s.target + 1 && block_heights(s.queue)
            == heights_from(s.ptr, s.queue.len()),
    ensures
        s.emit_next().0.wf(),
{
    if s.queue.len() == 0 {
        begin_chunk_keeps_wf(s);
    } else {
        fail_keeps_wf(s, crate::result::Error::ParseBlockFailed);
    }
}

/// Every transition leads from a well-formed state to a well-formed state.
/// In particular no height of the window is ever final under the head
/// estimate.
pub proof fn next_keeps_wf(s: PollingView, event: EventView)
    requires
        s.wf(),
    ensures
        s.next(event).0.wf(),
{
    match (s.phase, event) {
        (Phase::Succeeded, _) => {},
        (Phase::Failed(_), _) => {},
        (Phase::Idle, EventView::Start) => {
            if let Some(end) = s.end {
                begin_chunk_keeps_wf(PollingView { target: crate::polling::clamped(end), ..s });
            }
        },
        (Phase::AwaitingHead, EventView::Head(Ok(h))) => {
            crate::live::pruned_all_live(s.window, s.confirms, h);
            begin_chunk_keeps_wf(s.with_head(h));
        },
        (Phase::AwaitingHead, EventView::Head(Err(e))) => {
            fail_keeps_wf(s, e);
        },
        (Phase::AwaitingBlocks, EventView::Blocks(Ok(blocks))) => {
            observed_all_keeps_live(s.window, s.confirms, s.latest, blocks);
            fail_keeps_wf(s, crate::result::Error::UnexpectedBlock);
            if block_heights(blocks) == heights_from(s.ptr, s.chunk_len) {
                assert(block_heights(blocks).len() == blocks.len());
                assert(heights_from(s.ptr, s.chunk_len).len() == s.chunk_len);
                emit_next_keeps_wf(s.with_blocks(blocks));
            }
        },
        (Phase::AwaitingBlocks, EventView::Blocks(Err(e))) => {
            fail_keeps_wf(s, e);
        },
        (Phase::AwaitingWrite, EventView::Written(Ok(_))) => {
            let t = s.with_written();
            assert(s.queue[0].height == heights_from(s.ptr, s.queue.len())[0]);
            if t.queue.len() > 0 {
                assert forall|i: int| 0 <= i < t.queue.len() implies block_heights(t.queue)[i]
                    == heights_from(t.ptr, t.queue.len())[i] by {
                    assert(block_heights(s.queue)[i + 1] == heights_from(s.ptr, s.queue.len())[i
                        + 1]);
                }
                assert(block_heights(t.queue) =~= heights_from(t.ptr, t.queue.len()));
            }
            emit_next_keeps_wf(t);
        },
        (Phase::AwaitingWrite, EventView::Written(Err(e))) => {
            fail_keeps_wf(s, e);
        },
        _ => {},
    }
}

/// The state after a sequence of events.
pub open spec fn run(s: PollingView, events: Seq<EventView>) -> PollingView
    decreases events.len(),
{
    if events.len() == 0 {
        s
    } else {
        run(s, events.drop_last()).next(events.last()).0
    }
}

/// The actions that a sequence of events is answered with, one per event.
pub open spec fn actions(s: PollingView, events: Seq<EventView>) -> Seq<ActionView>
    decreases events.len(),
{
    if events.len() == 0 {
        Seq::empty()
    } else {
        actions(s, events.drop_last()).push(run(s, events.drop_last()).next(events.last()).1)
    }
}

/// What a run has left outside the process: the heights of the lines
/// written, in order, and the cursor in its durable location.
pub struct Ledger {
    pub emitted: Seq<u64>,
    pub stored: u64,
}

/// The ledger after an action was carried out in full: an emission writes
/// its line and then stores its cursor; no other action touches the ledger.
pub open spec fn performed(l: Ledger, a: ActionView) -> Ledger {
    match a {
        ActionView::Emit { height, line, cursor } => Ledger {
            emitted: l.emitted.push(height),
            stored: cursor,
        },
        _ => l,
    }
}

/// The ledger after the process died in the middle of an action: the line
/// of an emission is written, its cursor is not stored.
pub open spec fn interrupted(l: Ledger, a: ActionView) -> Ledger {
    match a {
        ActionView::Emit { height, line, cursor } => Ledger {
            emitted: l.emitted.push(height),
            stored: l.stored,
        },
        _ => l,
    }
}

/// The ledger after the actions were carried out in full, one after the
/// other, the cursor having been `start` before.
pub open spec fn ledger(start: u64, acts: Seq<ActionView>) -> Ledger
    decreases acts.len(),
{
    if acts.len() == 0 {
        Ledger { emitted: Seq::empty(), stored: start }
    } else {
        performed(ledger(start, acts.drop_last()), acts.last())
    }
}

/// The height that the next emission is for: the one behind the cursor
/// while the block at the cursor is being written, else the cursor.
pub open spec fn next_height(s: PollingView) -> int {
    if s.phase == Phase::AwaitingWrite {
        s.ptr + 1
    } else {
        s.ptr as int
    }
}

/// Whether the service has ended with an error.
pub open spec fn has_failed(s: PollingView) -> bool {
    s.phase matches Phase::Failed(_)
}

/// Turning to the next batch, to the next block or to an error leaves the
/// cursor where it is.
proof fn helpers_keep_cursor(s: PollingView, e: crate::result::Error)
    ensures
        s.begin_chunk().0.ptr == s.ptr,
        s.halt(e).0.ptr == s.ptr,
        s.fail(e).0.ptr == s.ptr,
        s.emit_next().0.ptr == s.ptr,
{
    if s.queue.len() > 0 {
        if let Err(x) = crate::polling::dm_log_result(s.queue[0]) {
            assert(s.fail(x).0.ptr == s.ptr);
        }
    }
}

/// The cursor never moves back, and moves by one height at most: no head
/// estimate, however low, and no error moves it.
pub proof fn cursor_never_decreases(s: PollingView, event: EventView)
    requires
        s.wf(),
    ensures
        s.ptr <= s.next(event).0.ptr <= s.ptr + 1,
        s.next(event).0.ptr == s.ptr + 1 ==> s.phase == Phase::AwaitingWrite && event
            == EventView::Written(Ok(())),
{
    let e0 = crate::result::Error::UnexpectedBlock;
    match (s.phase, event) {
        (Phase::Succeeded, _) => {},
        (Phase::Failed(_), _) => {},
        (Phase::Idle, EventView::Start) => {
            if let Some(end) = s.end {
                helpers_keep_cursor(PollingView { target: crate::polling::clamped(end), ..s }, e0);
            }
        },
        (Phase::AwaitingHead, EventView::Head(Ok(h))) => {
            helpers_keep_cursor(s.with_head(h), e0);
        },
        (Phase::AwaitingHead, EventView::Head(Err(e))) => {
            helpers_keep_cursor(s, e);
        },
        (Phase::AwaitingBlocks, EventView::Blocks(Ok(blocks))) => {
            helpers_keep_cursor(s, e0);
            helpers_keep_cursor(s.with_blocks(blocks), e0);
        },
        (Phase::AwaitingBlocks, EventView::Blocks(Err(e))) => {
            helpers_keep_cursor(s, e);
        },
        (Phase::AwaitingWrite, EventView::Written(Ok(u))) => {
            helpers_keep_cursor(s.with_written(), e0);
            assert(u == ());
        },
        (Phase::AwaitingWrite, EventView::Written(Err(e))) => {
            helpers_keep_cursor(s, e);
        },
        _ => {},
    }
}

/// A batch that fails leaves the cursor where it was and has nothing
/// emitted: the service begins again at the cursor or ends.
pub proof fn failed_batch_keeps_cursor(s: PollingView, e: crate::result::Error)
    requires
        s.wf(),
        s.phase == Phase::AwaitingBlocks,
    ensures
        s.next(EventView::Blocks(Err(e))).0.ptr == s.ptr,
        s.next(EventView::Blocks(Err(e))).1 == ActionView::Restart(e) || s.next(
            EventView::Blocks(Err(e)),
        ).1 == ActionView::Done(Err(e)),
{
}

/// An emission is for the next height and has the height behind it
/// persisted; nothing else changes which height is next, unless the
/// service fails.
pub proof fn emission_is_next_height(s: PollingView, event: EventView)
    requires
        s.wf(),
    ensures
        s.next(event).0.wf(),
        match s.next(event).1 {
            ActionView::Emit { height, line, cursor } => height == next_height(s) && cursor
                == height + 1 && next_height(s.next(event).0) == next_height(s) + 1
                && !has_failed(s),
            _ => next_height(s.next(event).0) == next_height(s) || has_failed(s.next(event).0),
        },
        has_failed(s) ==> has_failed(s.next(event).0),
{
    next_keeps_wf(s, event);
    match (s.phase, event) {
        (Phase::AwaitingBlocks, EventView::Blocks(Ok(blocks))) => {
            if block_heights(blocks) == heights_from(s.ptr, s.chunk_len) {
                assert(block_heights(blocks).len() == blocks.len());
                assert(heights_from(s.ptr, s.chunk_len).len() == s.chunk_len);
            }
        },
        (Phase::AwaitingWrite, EventView::Written(Ok(_))) => {},
        _ => {},
    }
}

/// The phases that a bounded service goes through: it fetches and emits,
/// and ends.
pub open spec fn is_bounded_phase(phase: Phase) -> bool {
    phase == Phase::Idle || phase == Phase::AwaitingBlocks || phase == Phase::AwaitingWrite
        || phase == Phase::Succeeded || (phase matches Phase::Failed(_))
}

/// A bounded service never asks for the head, never pauses at the head and
/// never begins again after an error: it works through its range and ends,
/// with success or with the first error.
pub proof fn bounded_service_only_works_and_ends(s: PollingView, event: EventView)
    requires
        s.wf(),
        s.end is Some,
        is_bounded_phase(s.phase),
    ensures
        is_bounded_phase(s.next(event).0.phase),
        s.next(event).0.end == s.end,
        s.next(event).1 != ActionView::FetchHead,
        !(s.next(event).1 matches ActionView::Sleep(_)),
        !(s.next(event).1 matches ActionView::Restart(_)),
{
}

/// An unbounded service never ends with success: it ends only with an
/// error, and where it is to run forever only with the error of a failed
/// write or with one of the cursor's storage.
pub proof fn unbounded_service_ends_only_with_an_error(s: PollingView, event: EventView)
    requires
        s.wf(),
        s.end is None,
        s.phase != Phase::Succeeded,
    ensures
        s.next(event).0.phase != Phase::Succeeded,
        s.next(event).0.end is None,
        s.forever && !has_failed(s) && has_failed(s.next(event).0) ==> (s.phase
            == Phase::AwaitingWrite || (s.next(event).0.phase matches Phase::Failed(e)
            && e.spec_kind() == crate::result::ErrorKind::Persistence)),
{
}

/// Every state of a run is well-formed.
pub proof fn run_keeps_wf(s: PollingView, events: Seq<EventView>)
    requires
        s.wf(),
    ensures
        run(s, events).wf(),
    decreases events.len(),
{
    if events.len() > 0 {
        run_keeps_wf(s, events.drop_last());
        next_keeps_wf(run(s, events.drop_last()), events.last());
    }
}

/// In every run the heights are emitted one by one in ascending order,
/// beginning with the next height of the state the run starts from: none
/// twice, none left out. After each emission that was carried out the
/// stored cursor is the height behind the last line.
pub proof fn run_emits_in_order(s: PollingView, start: u64, events: Seq<EventView>)
    requires
        s.wf(),
    ensures
        ({
            let l = ledger(start, actions(s, events));
            &&& forall|i: int| 0 <= i < l.emitted.len() ==> l.emitted[i] == next_height(s) + i
            &&& l.emitted.len() == 0 ==> l.stored == start
            &&& l.emitted.len() > 0 ==> l.stored == next_height(s) + l.emitted.len()
            &&& has_failed(run(s, events)) || next_height(run(s, events)) == next_height(s)
                + l.emitted.len()
        }),
    decreases events.len(),
{
    if events.len() > 0 {
        let before = events.drop_last();
        run_emits_in_order(s, start, before);
        run_keeps_wf(s, before);
        emission_is_next_height(run(s, before), events.last());
        assert(actions(s, events).drop_last() =~= actions(s, before));
    }
}

/// The cursor in its durable location never decreases in the course of a
/// run that began with the cursor read from there. Since a restart begins
/// such a run with the cursor that the run before stored last, the stored
/// cursor never decreases across restarts either.
pub proof fn stored_cursor_never_decreases(s: PollingView, events: Seq<EventView>, k: int)
    requires
        s.wf(),
        s.phase == Phase::Idle,
        0 <= k <= events.len(),
    ensures
        s.ptr <= ledger(s.ptr, actions(s, events.take(k))).stored <= ledger(
            s.ptr,
            actions(s, events),
        ).stored,
    decreases events.len() - k,
{
    run_emits_in_order(s, s.ptr, events.take(k));
    if k == events.len() {
        assert(events.take(k) =~= events);
    } else {
        stored_cursor_never_decreases(s, events, k + 1);
        let longer = events.take(k + 1);
        assert(longer.drop_last() =~= events.take(k));
        assert(actions(s, longer).drop_last() =~= actions(s, events.take(k)));
        run_emits_in_order(s, s.ptr, longer);
    }
}

/// Recovery after a crash. Take a run that began with the cursor read from
/// its durable location, and let the process die while it carries out the
/// last action of the run, its line written and its cursor not stored. Then
/// every height below the stored cursor has been emitted, so a restart
/// from the stored cursor leaves no height out; and of the heights emitted
/// only the last can lie at or above the stored cursor, so a restart emits
/// at most one height again.
pub proof fn crash_loses_nothing_and_repeats_at_most_one(s: PollingView, events: Seq<EventView>)
    requires
        s.wf(),
        s.phase == Phase::Idle,
        events.len() > 0,
    ensures
        ({
            let acts = actions(s, events);
            let l = interrupted(ledger(s.ptr, acts.drop_last()), acts.last());
            &&& forall|i: int| 0 <= i < l.emitted.len() ==> l.emitted[i] == s.ptr + i
            &&& s.ptr <= l.stored <= s.ptr + l.emitted.len()
            &&& l.emitted.len() <= l.stored - s.ptr + 1
        }),
{
    let before = events.drop_last();
    run_emits_in_order(s, s.ptr, before);
    run_keeps_wf(s, before);
    emission_is_next_height(run(s, before), events.last());
    assert(actions(s, events).drop_last() =~= actions(s, before));
}

/// The same where the process dies between two actions: every height
/// below the stored cursor has been emitted, and none at or above it.
pub proof fn restart_continues_where_run_stopped(s: PollingView, events: Seq<EventView>)
    requires
        s.wf(),
        s.phase == Phase::Idle,
    ensures
        ({
            let l = ledger(s.ptr, actions(s, events));
            &&& forall|i: int| 0 <= i < l.emitted.len() ==> l.emitted[i] == s.ptr + i
            &&& l.stored == s.ptr + l.emitted.len()
        }),
{
    run_emits_in_order(s, s.ptr, events);
}

} // verus!
