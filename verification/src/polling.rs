//! The polling engine: drives the cursor forward over the chain, batch by
//! batch, and says at each step what is to be done next.
//!
//! The engine is a state machine. [`Polling::step`] takes the outcome of
//! the action that is outstanding and gives the next action; the caller
//! performs it and comes back with its outcome. A block is emitted, and
//! only then is the cursor behind it persisted; the cursor in memory moves
//! when both are done.

use vstd::prelude::*;
use vstd::string::*;
use crate::client::{duration_of_millis, millis, Client};
use crate::env::Env;
use crate::live::{
    all_live, last_fork, observed_all, pruned, BlockInfoView, LiveWindow,
};
use crate::pb::{block_record, encode_block};
use crate::result::{Error, ErrorKind};
use crate::text::{decimal_digits, decimal_text, hex_digits, hex_text};
use crate::types::{block_heights, block_views, texts, FirehoseBlock, FirehoseBlockView};
use crate::vecs::reversed;

verus! {

/// The last height that can be emitted: the cursor behind it must still be
/// a 64-bit number.
pub const LAST_HEIGHT: u64 = 0xffff_ffff_ffff_fffe;

/// Where the engine stands: which outcome it waits for.
#[derive(Debug, Clone, Copy, PartialEq, Eq, Structural)]
pub enum Phase {
    /// Not started.
    Idle,
    /// Waiting for the chain's current height.
    AwaitingHead,
    /// Waiting for the blocks of a batch.
    AwaitingBlocks,
    /// Waiting for a block to be emitted and the cursor behind it persisted.
    AwaitingWrite,
    /// At the head: waiting for the pause to end.
    Sleeping,
    /// After an error that is survived: waiting to begin again at the cursor.
    Restarting,
    /// Ended: the bound was reached.
    Succeeded,
    /// Ended with an error.
    Failed(Error),
}

/// The states of the service.
#[derive(Debug, Clone, Copy, PartialEq, Eq, Structural)]
pub enum State {
    /// Not started.
    NotStarted,
    /// Working through the pending heights.
    CatchingUp,
    /// The pending heights are exhausted; pausing before the next cycle.
    AtHead,
    /// An error occurred and the service begins again at the cursor.
    ErrorRestart,
    /// Ended: the bound was reached.
    Succeeded,
    /// Ended with an error.
    Failed(Error),
}

/// The outcome of the action that was outstanding.
#[derive(Debug, PartialEq, Eq)]
pub enum Event {
    /// The service is to start.
    Start,
    /// The chain's current height was fetched, or could not be.
    Head(Result<u64, Error>),
    /// The blocks of the batch were fetched, in the order of its heights,
    /// or the batch failed.
    Blocks(Result<Vec<FirehoseBlock>, Error>),
    /// The line was written and the cursor persisted, or one of the two
    /// failed.
    Written(Result<(), Error>),
    /// The pause is over.
    Woke,
    /// The error was taken note of.
    Resumed,
}

/// What is to be done next.
#[derive(Debug, PartialEq, Eq)]
pub enum Action {
    /// Fetch the chain's current height; answer with [`Event::Head`].
    FetchHead,
    /// Fetch the blocks at these heights as one batch; answer with
    /// [`Event::Blocks`].
    Poll(Vec<u64>),
    /// Write `line` to the output; only when that is done, persist `cursor`
    /// in decimal; answer with [`Event::Written`].
    Emit { height: u64, line: String, cursor: u64 },
    /// Pause for this many milliseconds; answer with [`Event::Woke`].
    Sleep(u64),
    /// Take note of the error; answer with [`Event::Resumed`].
    Restart(Error),
    /// The service has ended, with this result.
    Done(Result<(), Error>),
    /// The event does not answer the outstanding action; nothing changed.
    Invalid,
}

/// What an [`Event`] holds.
pub enum EventView {
    Start,
    Head(Result<u64, Error>),
    Blocks(Result<Seq<FirehoseBlockView>, Error>),
    Written(Result<(), Error>),
    Woke,
    Resumed,
}

/// What an [`Action`] holds.
pub enum ActionView {
    FetchHead,
    Poll(Seq<u64>),
    Emit { height: u64, line: Seq<char>, cursor: u64 },
    Sleep(u64),
    Restart(Error),
    Done(Result<(), Error>),
    Invalid,
}

impl View for Event {
    type V = EventView;

    open spec fn view(&self) -> EventView {
        match *self {
            Event::Start => EventView::Start,
            Event::Head(r) => EventView::Head(r),
            Event::Blocks(Ok(blocks)) => EventView::Blocks(Ok(block_views(blocks@))),
            Event::Blocks(Err(e)) => EventView::Blocks(Err(e)),
            Event::Written(r) => EventView::Written(r),
            Event::Woke => EventView::Woke,
            Event::Resumed => EventView::Resumed,
        }
    }
}

impl View for Action {
    type V = ActionView;

    open spec fn view(&self) -> ActionView {
        match *self {
            Action::FetchHead => ActionView::FetchHead,
            Action::Poll(heights) => ActionView::Poll(heights@),
            Action::Emit { height, line, cursor } => ActionView::Emit {
                height,
                line: line@,
                cursor,
            },
            Action::Sleep(ms) => ActionView::Sleep(ms),
            Action::Restart(e) => ActionView::Restart(e),
            Action::Done(r) => ActionView::Done(r),
            Action::Invalid => ActionView::Invalid,
        }
    }
}

/// The words that every output line begins with.
pub open spec fn dm_log_prefix() -> Seq<char> {
    seq!['D', 'M', 'L', 'O', 'G', ' ', 'B', 'L', 'O', 'C', 'K', ' ']
}

/// The output line of a block: `DMLOG BLOCK <height> <record>`, the height
/// in decimal and the block's record in lower-case hexadecimal.
pub open spec fn dm_log_line(b: FirehoseBlockView) -> Seq<char> {
    dm_log_prefix() + decimal_digits(b.height as nat) + seq![' '] + hex_digits(block_record(b))
}

/// The output line of a block, or `ParseBlockFailed` where the block's
/// record is empty.
pub open spec fn dm_log_result(b: FirehoseBlockView) -> Result<Seq<char>, Error> {
    if block_record(b).len() == 0 {
        Err(Error::ParseBlockFailed)
    } else {
        Ok(dm_log_line(b))
    }
}

/// `n` heights in a row, the first being `start`.
pub open spec fn heights_from(start: u64, n: nat) -> Seq<u64> {
    Seq::new(n, |i: int| (start + i) as u64)
}

/// The height itself, or the last height that can be emitted where it is
/// beyond that.
pub open spec fn clamped(height: u64) -> u64 {
    if height > LAST_HEIGHT {
        LAST_HEIGHT
    } else {
        height
    }
}

/// The engine's state.
pub struct PollingView {
    /// The most heights in one batch; at least 1.
    pub batch: nat,
    /// The pause at the head, in milliseconds.
    pub block_time: u64,
    /// The bound, where the service is bounded.
    pub end: Option<u64>,
    /// Whether the unbounded service survives errors.
    pub forever: bool,
    /// The confirmation depth.
    pub confirms: u64,
    /// The head estimate.
    pub latest: u64,
    /// The window of live blocks.
    pub window: Map<u64, BlockInfoView>,
    /// The cursor: the next height to emit.
    pub ptr: u64,
    /// Which outcome the engine waits for.
    pub phase: Phase,
    /// The last height of the pending range.
    pub target: u64,
    /// The number of heights in the batch that is being fetched.
    pub chunk_len: nat,
    /// The fetched blocks that are not emitted yet, the first being the one
    /// that is being written.
    pub queue: Seq<FirehoseBlockView>,
    /// The height of the most recent fork that was seen.
    pub fork: Option<u64>,
}

impl PollingView {
    /// What holds of every state that the engine reaches.
    pub open spec fn wf(self) -> bool {
        &&& self.batch >= 1
        &&& self.target <= LAST_HEIGHT
        &&& all_live(self.window, self.confirms, self.latest)
        &&& self.phase == Phase::AwaitingBlocks ==> 1 <= self.chunk_len && self.ptr
            + self.chunk_len <= self.target + 1
        &&& self.phase == Phase::AwaitingWrite ==> self.queue.len() >= 1 && self.ptr
            + self.queue.len() <= self.target + 1 && block_heights(self.queue) == heights_from(
            self.ptr,
            self.queue.len(),
        )
        &&& self.phase != Phase::AwaitingWrite ==> self.queue.len() == 0
    }

    /// The state in another phase.
    pub open spec fn in_phase(self, phase: Phase) -> PollingView {
        PollingView { phase, ..self }
    }

    /// The state of the service that the phase belongs to.
    pub open spec fn state(self) -> State {
        match self.phase {
            Phase::Idle => State::NotStarted,
            Phase::AwaitingHead => State::CatchingUp,
            Phase::AwaitingBlocks => State::CatchingUp,
            Phase::AwaitingWrite => State::CatchingUp,
            Phase::Sleeping => State::AtHead,
            Phase::Restarting => State::ErrorRestart,
            Phase::Succeeded => State::Succeeded,
            Phase::Failed(e) => State::Failed(e),
        }
    }

    /// Turns to the pending range `[ptr, target]`: asks for its first batch
    /// of at most `batch` heights, or, where the range is exhausted, ends a
    /// bounded service and lets an unbounded one pause.
    pub open spec fn begin_chunk(self) -> (PollingView, ActionView) {
        if self.ptr > self.target {
            if self.end is Some {
                (self.in_phase(Phase::Succeeded), ActionView::Done(Ok(())))
            } else {
                (self.in_phase(Phase::Sleeping), ActionView::Sleep(self.block_time))
            }
        } else {
            let span = (self.target - self.ptr + 1) as nat;
            let n = if span < self.batch {
                span
            } else {
                self.batch
            };
            (
                PollingView { phase: Phase::AwaitingBlocks, chunk_len: n, ..self },
                ActionView::Poll(heights_from(self.ptr, n)),
            )
        }
    }

    /// Ends the service with an error, whatever its mode.
    pub open spec fn halt(self, e: Error) -> (PollingView, ActionView) {
        (
            PollingView { phase: Phase::Failed(e), queue: Seq::empty(), ..self },
            ActionView::Done(Err(e)),
        )
    }

    /// Handles an error that left the cursor where it was: an unbounded
    /// service that is to run forever begins again, unless the error is one
    /// of the cursor's storage; every other service ends with the error.
    pub open spec fn fail(self, e: Error) -> (PollingView, ActionView) {
        if self.end is None && self.forever && e.spec_kind() != ErrorKind::Persistence {
            (
                PollingView { phase: Phase::Restarting, queue: Seq::empty(), ..self },
                ActionView::Restart(e),
            )
        } else {
            self.halt(e)
        }
    }

    /// Turns to the next fetched block: asks for it to be emitted at the
    /// cursor and for the cursor behind it to be persisted, or, where no
    /// block is left, turns to the rest of the pending range.
    pub open spec fn emit_next(self) -> (PollingView, ActionView) {
        if self.queue.len() == 0 {
            self.begin_chunk()
        } else {
            match dm_log_result(self.queue[0]) {
                Err(e) => self.fail(e),
                Ok(line) => (
                    self.in_phase(Phase::AwaitingWrite),
                    (ActionView::Emit { height: self.ptr, line, cursor: (self.ptr + 1) as u64 }),
                ),
            }
        }
    }

    /// Takes the head estimate `h`: the window is pruned under it and the
    /// pending range ends at it. The cursor stays, also where `h` is below
    /// an earlier estimate or below the cursor.
    pub open spec fn with_head(self, h: u64) -> PollingView {
        PollingView {
            latest: h,
            window: pruned(self.window, self.confirms, h),
            target: clamped(h),
            ..self
        }
    }

    /// Takes the blocks of a batch: they are observed in the window and
    /// queued for emission.
    pub open spec fn with_blocks(self, blocks: Seq<FirehoseBlockView>) -> PollingView {
        PollingView {
            window: observed_all(self.window, self.confirms, self.latest, blocks),
            fork: match last_fork(self.window, self.confirms, self.latest, blocks) {
                Some(h) => Some(h),
                None => self.fork,
            },
            queue: blocks,
            ..self
        }
    }

    /// The state after the block at the cursor was emitted and the cursor
    /// behind it persisted.
    pub open spec fn with_written(self) -> PollingView {
        PollingView { ptr: (self.ptr + 1) as u64, queue: self.queue.skip(1), ..self }
    }

    /// The engine's transition: the state after `event` and the action that
    /// is then outstanding.
    pub open spec fn next(self, event: EventView) -> (PollingView, ActionView) {
        match (self.phase, event) {
            (Phase::Succeeded, _) => (self, ActionView::Done(Ok(()))),
            (Phase::Failed(e), _) => (self, ActionView::Done(Err(e))),
            (Phase::Idle, EventView::Start) => match self.end {
                Some(end) => (PollingView { target: clamped(end), ..self }).begin_chunk(),
                None => (self.in_phase(Phase::AwaitingHead), ActionView::FetchHead),
            },
            (Phase::AwaitingHead, EventView::Head(Ok(h))) => self.with_head(h).begin_chunk(),
            (Phase::AwaitingHead, EventView::Head(Err(e))) => self.fail(e),
            (Phase::AwaitingBlocks, EventView::Blocks(Ok(blocks))) => if block_heights(blocks)
                == heights_from(self.ptr, self.chunk_len) {
                self.with_blocks(blocks).emit_next()
            } else {
                self.fail(Error::UnexpectedBlock)
            },
            (Phase::AwaitingBlocks, EventView::Blocks(Err(e))) => self.fail(e),
            (Phase::AwaitingWrite, EventView::Written(Ok(_))) => self.with_written().emit_next(),
            (Phase::AwaitingWrite, EventView::Written(Err(e))) => self.halt(e),
            (Phase::Sleeping, EventView::Woke) => (
                self.in_phase(Phase::AwaitingHead),
                ActionView::FetchHead,
            ),
            (Phase::Restarting, EventView::Resumed) => (
                self.in_phase(Phase::AwaitingHead),
                ActionView::FetchHead,
            ),
            _ => (self, ActionView::Invalid),
        }
    }
}

/// The engine proper: everything that a transition reads or changes.
struct Engine {
    batch: usize,
    block_time: u64,
    end: Option<u64>,
    forever: bool,
    window: LiveWindow,
    ptr: u64,
    phase: Phase,
    target: u64,
    chunk_len: usize,
    /// The fetched blocks that are not emitted yet, last first.
    queue: Vec<FirehoseBlock>,
    fork: Option<u64>,
}

impl View for Engine {
    type V = PollingView;

    closed spec fn view(&self) -> PollingView {
        PollingView {
            batch: self.batch as nat,
            block_time: self.block_time,
            end: self.end,
            forever: self.forever,
            confirms: self.window.spec_confirms(),
            latest: self.window.spec_latest(),
            window: self.window@,
            ptr: self.ptr,
            phase: self.phase,
            target: self.target,
            chunk_len: self.chunk_len as nat,
            queue: Seq::new(
                self.queue@.len(),
                |i: int| self.queue@[self.queue@.len() - 1 - i]@,
            ),
            fork: self.fork,
        }
    }
}

/// The heights `start`, `start + 1`, .. as a vector.
fn make_heights(start: u64, n: usize) -> (r: Vec<u64>)
    requires
        start + n <= u64::MAX + 1,
    ensures
        r@ == heights_from(start, n as nat),
{
    let mut r: Vec<u64> = Vec::new();
    let mut i: usize = 0;
    while i < n
        invariant
            i <= n,
            start + n <= u64::MAX + 1,
            r@ == heights_from(start, i as nat),
        decreases n - i,
    {
        r.push(start + i as u64);
        i += 1;
        assert(r@ =~= heights_from(start, i as nat));
    }
    r
}

/// Whether the blocks are at the heights `start`, `start + 1`, .., `n` of
/// them.
fn heights_match(blocks: &Vec<FirehoseBlock>, start: u64, n: usize) -> (r: bool)
    requires
        start + n <= u64::MAX + 1,
    ensures
        r == (block_heights(block_views(blocks@)) == heights_from(start, n as nat)),
{
    let ghost have = block_heights(block_views(blocks@));
    let ghost want = heights_from(start, n as nat);
    if blocks.len() != n {
        assert(have.len() != want.len());
        return false;
    }
    let mut i: usize = 0;
    while i < n
        invariant
            i <= n,
            n == blocks@.len(),
            start + n <= u64::MAX + 1,
            have == block_heights(block_views(blocks@)),
            want == heights_from(start, n as nat),
            forall|j: int| 0 <= j < i ==> have[j] == want[j],
        decreases n - i,
    {
        if blocks[i].height != start + i as u64 {
            assert(have[i as int] != want[i as int]);
            return false;
        }
        i += 1;
    }
    assert(have =~= want);
    true
}

impl Engine {
    /// Turns to the pending range.
    fn begin_chunk(self) -> (r: (Engine, Action))
        requires
            self@.batch >= 1,
            self@.target <= LAST_HEIGHT,
            self@.queue.len() == 0,
        ensures
            (r.0@, r.1@) == self@.begin_chunk(),
    {
        let mut engine = self;
        if engine.ptr > engine.target {
            if engine.end.is_some() {
                engine.phase = Phase::Succeeded;
                (engine, Action::Done(Ok(())))
            } else {
                engine.phase = Phase::Sleeping;
                let pause = engine.block_time;
                (engine, Action::Sleep(pause))
            }
        } else {
            let span: u64 = engine.target - engine.ptr + 1;
            let n: usize = if span < engine.batch as u64 {
                span as usize
            } else {
                engine.batch
            };
            engine.phase = Phase::AwaitingBlocks;
            engine.chunk_len = n;
            let heights = make_heights(engine.ptr, n);
            (engine, Action::Poll(heights))
        }
    }

    /// Ends the service with an error.
    fn halt(self, e: Error) -> (r: (Engine, Action))
        ensures
            (r.0@, r.1@) == self@.halt(e),
    {
        let mut engine = self;
        engine.phase = Phase::Failed(e);
        engine.queue = Vec::new();
        assert(engine@.queue =~= Seq::empty());
        (engine, Action::Done(Err(e)))
    }

    /// Begins again or ends, as the mode and the error ask.
    fn fail(self, e: Error) -> (r: (Engine, Action))
        ensures
            (r.0@, r.1@) == self@.fail(e),
    {
        if self.end.is_none() && self.forever && e.kind() != ErrorKind::Persistence {
            let mut engine = self;
            engine.phase = Phase::Restarting;
            engine.queue = Vec::new();
            assert(engine@.queue =~= Seq::empty());
            (engine, Action::Restart(e))
        } else {
            self.halt(e)
        }
    }

    /// Turns to the next fetched block.
    fn emit_next(self) -> (r: (Engine, Action))
        requires
            self@.batch >= 1,
            self@.target <= LAST_HEIGHT,
            self@.queue.len() > 0 ==> self@.ptr <= LAST_HEIGHT,
        ensures
            (r.0@, r.1@) == self@.emit_next(),
    {
        let n = self.queue.len();
        if n == 0 {
            return self.begin_chunk();
        }
        assert(self@.queue[0] == self.queue@[n - 1]@);
        match Polling::dm_log(&self.queue[n - 1]) {
            Err(e) => self.fail(e),
            Ok(line) => {
                let mut engine = self;
                engine.phase = Phase::AwaitingWrite;
                let height = engine.ptr;
                (engine, Action::Emit { height, line, cursor: height + 1 })
            },
        }
    }

    /// The transition.
    fn step(self, event: Event) -> (r: (Engine, Action))
        requires
            self@.wf(),
        ensures
            (r.0@, r.1@) == self@.next(event@),
    {
        match self.phase {
            Phase::Succeeded => {
                return (self, Action::Done(Ok(())));
            },
            Phase::Failed(e) => {
                return (self, Action::Done(Err(e)));
            },
            _ => {},
        }
        match event {
            Event::Start => {
                if self.phase != Phase::Idle {
                    return (self, Action::Invalid);
                }
                let mut engine = self;
                match engine.end {
                    Some(end) => {
                        engine.target = if end > LAST_HEIGHT {
                            LAST_HEIGHT
                        } else {
                            end
                        };
                        engine.begin_chunk()
                    },
                    None => {
                        engine.phase = Phase::AwaitingHead;
                        (engine, Action::FetchHead)
                    },
                }
            },
            Event::Head(outcome) => {
                if self.phase != Phase::AwaitingHead {
                    return (self, Action::Invalid);
                }
                match outcome {
                    Err(e) => self.fail(e),
                    Ok(h) => {
                        let Engine {
                            batch,
                            block_time,
                            end,
                            forever,
                            window,
                            ptr,
                            phase,
                            target: _,
                            chunk_len,
                            queue,
                            fork,
                        } = self;
                        let window = window.advance(h);
                        let target = if h > LAST_HEIGHT {
                            LAST_HEIGHT
                        } else {
                            h
                        };
                        let engine = Engine {
                            batch,
                            block_time,
                            end,
                            forever,
                            window,
                            ptr,
                            phase,
                            target,
                            chunk_len,
                            queue,
                            fork,
                        };
                        assert(engine@.queue =~= self@.queue);
                        assert(engine@ == self@.with_head(h));
                        engine.begin_chunk()
                    },
                }
            },
            Event::Blocks(outcome) => {
                if self.phase != Phase::AwaitingBlocks {
                    return (self, Action::Invalid);
                }
                match outcome {
                    Err(e) => self.fail(e),
                    Ok(blocks) => {
                        if !heights_match(&blocks, self.ptr, self.chunk_len) {
                            return self.fail(Error::UnexpectedBlock);
                        }
                        let ghost views = block_views(blocks@);
                        let Engine {
                            batch,
                            block_time,
                            end,
                            forever,
                            window,
                            ptr,
                            phase,
                            target,
                            chunk_len,
                            queue: _,
                            fork,
                        } = self;
                        let (window, seen) = window.update(&blocks);
                        let fork = match seen {
                            Some(h) => Some(h),
                            None => fork,
                        };
                        let queue = reversed(blocks);
                        let engine = Engine {
                            batch,
                            block_time,
                            end,
                            forever,
                            window,
                            ptr,
                            phase,
                            target,
                            chunk_len,
                            queue,
                            fork,
                        };
                        assert(engine@.queue =~= views);
                        assert(engine@ == self@.with_blocks(views));
                        engine.emit_next()
                    },
                }
            },
            Event::Written(outcome) => {
                if self.phase != Phase::AwaitingWrite {
                    return (self, Action::Invalid);
                }
                match outcome {
                    Err(e) => self.halt(e),
                    Ok(_) => {
                        let mut engine = self;
                        let ghost before = engine@.queue;
                        assert(before[0].height == heights_from(engine.ptr, before.len())[0]);
                        engine.ptr = engine.ptr + 1;
                        let done = engine.queue.pop();
                        assert(engine@.queue =~= before.skip(1));
                        assert(engine@ == self@.with_written());
                        proof {
                            if engine@.queue.len() > 0 {
                                assert(before[1].height == heights_from(self.ptr, before.len())[1]);
                            }
                        }
                        engine.emit_next()
                    },
                }
            },
            Event::Woke => {
                if self.phase != Phase::Sleeping {
                    return (self, Action::Invalid);
                }
                let mut engine = self;
                engine.phase = Phase::AwaitingHead;
                (engine, Action::FetchHead)
            },
            Event::Resumed => {
                if self.phase != Phase::Restarting {
                    return (self, Action::Invalid);
                }
                let mut engine = self;
                engine.phase = Phase::AwaitingHead;
                (engine, Action::FetchHead)
            },
        }
    }
}

/// The polling service.
pub struct Polling {
    client: Client,
    ptr_file: String,
    engine: Engine,
}

impl View for Polling {
    type V = PollingView;

    closed spec fn view(&self) -> PollingView {
        self.engine@
    }
}

impl Polling {
    #[verifier::type_invariant]
    spec fn inv(self) -> bool {
        self.engine@.wf()
    }

    /// The client that the service fetches with.
    pub closed spec fn spec_client(self) -> Client {
        self.client
    }

    /// Where the cursor is persisted.
    pub closed spec fn spec_ptr_file(self) -> Seq<char> {
        self.ptr_file@
    }

    /// A polling service that is not started yet: with the cursor at `ptr`,
    /// bounded by `end` where one is given, and surviving errors where
    /// `forever` is set. A batch size of zero is taken as one. Fails with
    /// `EmptyEndpoints` where the settings name no endpoint, and only then.
    pub fn new(end: Option<u64>, env: Env, forever: bool, ptr: u64) -> (r: Result<Polling, Error>)
        ensures
            env.endpoints@.len() == 0 ==> (r matches Err(e) && e == Error::EmptyEndpoints),
            env.endpoints@.len() > 0 ==> (r matches Ok(p) && p@ == (PollingView {
                batch: if env.batch_blocks == 0 {
                    1nat
                } else {
                    env.batch_blocks as nat
                },
                block_time: env.block_time,
                end,
                forever,
                confirms: env.confirms,
                latest: 0,
                window: Map::empty(),
                ptr,
                phase: Phase::Idle,
                target: 0,
                chunk_len: 0,
                queue: Seq::empty(),
                fork: None,
            }) && p@.wf() && p.spec_ptr_file() == env.ptr_file@ && p.spec_client().spec_endpoints()
                == texts(env.endpoints@) && p.spec_client().spec_timeout() == duration_of_millis(
                env.timeout,
            ) && p.spec_client().spec_retry() == env.retry),
    {
        let client = match Client::new(env.endpoints, millis(env.timeout), env.retry) {
            Err(e) => {
                return Err(e);
            },
            Ok(client) => client,
        };
        let batch: usize = if env.batch_blocks == 0 {
            1
        } else {
            env.batch_blocks as usize
        };
        let engine = Engine {
            batch,
            block_time: env.block_time,
            end,
            forever,
            window: LiveWindow::new(env.confirms),
            ptr,
            phase: Phase::Idle,
            target: 0,
            chunk_len: 0,
            queue: Vec::new(),
            fork: None,
        };
        assert(engine@.queue =~= Seq::empty());
        Ok(Polling { client, ptr_file: env.ptr_file, engine })
    }

    /// The output line of a block: `DMLOG BLOCK <height> <record>`, the
    /// height in decimal and the block's canonical record in lower-case
    /// hexadecimal. Fails with `ParseBlockFailed` where the record is
    /// empty, and only then.
    pub fn dm_log(b: &FirehoseBlock) -> (r: Result<String, Error>)
        ensures
            match r {
                Ok(line) => dm_log_result(b@) == Ok::<Seq<char>, Error>(line@),
                Err(e) => dm_log_result(b@) == Err::<Seq<char>, Error>(e),
            },
    {
        let record = encode_block(b);
        if record.len() == 0 {
            return Err(Error::ParseBlockFailed);
        }
        proof {
            reveal_strlit("DMLOG BLOCK ");
            reveal_strlit(" ");
        }
        let mut line = String::from_str("DMLOG BLOCK ");
        assert(line@ =~= dm_log_prefix());
        let height = decimal_text(b.height);
        line.append(height.as_str());
        line.append(" ");
        let hex = hex_text(record.as_slice());
        line.append(hex.as_str());
        assert(line@ =~= dm_log_line(b@));
        Ok(line)
    }

    /// Starts the service: the same as [`Polling::step`] with
    /// [`Event::Start`].
    pub fn start(self) -> (r: (Polling, Action))
        ensures
            (r.0@, r.1@) == self@.next(EventView::Start),
            r.0@.wf(),
            self@.wf(),
            r.0.spec_client() == self.spec_client(),
            r.0.spec_ptr_file() == self.spec_ptr_file(),
    {
        self.step(Event::Start)
    }

    /// Takes the outcome of the outstanding action and gives the next one.
    /// An event that does not answer the outstanding action changes
    /// nothing and gives [`Action::Invalid`]; a service that has ended
    /// gives its result again.
    pub fn step(self, event: Event) -> (r: (Polling, Action))
        ensures
            (r.0@, r.1@) == self@.next(event@),
            r.0@.wf(),
            self@.wf(),
            r.0.spec_client() == self.spec_client(),
            r.0.spec_ptr_file() == self.spec_ptr_file(),
    {
        proof {
            use_type_invariant(&self);
        }
        let Polling { client, ptr_file, engine } = self;
        let (engine, action) = engine.step(event);
        proof {
            crate::laws::next_keeps_wf(self@, event@);
        }
        (Polling { client, ptr_file, engine }, action)
    }

    /// The client that the service fetches with.
    pub fn client(&self) -> (r: &Client)
        ensures
            *r == self.spec_client(),
    {
        &self.client
    }

    /// Where the cursor is persisted.
    pub fn ptr_file(&self) -> (r: &String)
        ensures
            r@ == self.spec_ptr_file(),
    {
        &self.ptr_file
    }

    /// The cursor: the next height that is not yet emitted and persisted.
    pub fn ptr(&self) -> (r: u64)
        ensures
            r == self@.ptr,
    {
        self.engine.ptr
    }

    /// The head estimate: the height that the node reported last.
    pub fn latest(&self) -> (r: u64)
        ensures
            r == self@.latest,
    {
        self.engine.window.latest()
    }

    /// Which outcome the engine waits for.
    pub fn phase(&self) -> (r: Phase)
        ensures
            r == self@.phase,
    {
        self.engine.phase
    }

    /// The state of the service.
    pub fn state(&self) -> (r: State)
        ensures
            r == self@.state(),
    {
        match self.engine.phase {
            Phase::Idle => State::NotStarted,
            Phase::AwaitingHead => State::CatchingUp,
            Phase::AwaitingBlocks => State::CatchingUp,
            Phase::AwaitingWrite => State::CatchingUp,
            Phase::Sleeping => State::AtHead,
            Phase::Restarting => State::ErrorRestart,
            Phase::Succeeded => State::Succeeded,
            Phase::Failed(e) => State::Failed(e),
        }
    }

    /// The window of live blocks.
    pub fn live_blocks(&self) -> (r: &LiveWindow)
        ensures
            r@ == self@.window,
            r.spec_confirms() == self@.confirms,
            r.spec_latest() == self@.latest,
    {
        &self.engine.window
    }

    /// The height of the most recent fork that was seen, if any was.
    pub fn fork(&self) -> (r: Option<u64>)
        ensures
            r == self@.fork,
    {
        self.engine.fork
    }
}

} // verus!
