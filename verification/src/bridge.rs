//! The way into user logic. Every call of a capability goes through here,
//! one step at a time: the caller takes and releases the exclusive lock,
//! calls or schedules, and waits, in the order this module gives.

use vstd::prelude::*;
use crate::capability::{shape_for, CallShape, ExecutionSite, HandlerCapability};

verus! {

/// How far an invocation has come.
#[derive(Clone, Copy, Debug, PartialEq, Eq, Structural)]
pub enum Stage {
    /// Handed to the offload pool, not yet running there.
    Submitted,
    /// Asking for the exclusive lock.
    Waiting,
    /// Calling the capability, under the lock.
    Calling,
    /// Handing the coroutine to the scheduler, under the lock.
    Scheduling,
    /// Giving the lock back; `ok` is how the call or the hand-over went.
    Releasing { ok: bool },
    /// Waiting for the coroutine to end, without the lock.
    Awaiting,
    /// Over.
    Done,
}

/// What the caller reports.
#[derive(Clone, Copy, Debug, PartialEq, Eq, Structural)]
pub enum BridgeEvent {
    /// A thread of the offload pool has picked the invocation up.
    PoolStarted,
    /// The lock was taken.
    LockAcquired,
    /// The call returned, or raised.
    CallReturned { ok: bool },
    /// The coroutine was handed to the scheduler, or making it raised.
    Scheduled { ok: bool },
    /// The lock was given back.
    LockReleased,
    /// The coroutine ended, or failed.
    Joined { ok: bool },
}

/// What the caller is to do next.
#[derive(Clone, Copy, Debug, PartialEq, Eq, Structural)]
pub enum BridgeAction {
    /// Hand the invocation to the offload pool and wait for its result.
    SubmitToPool,
    /// Take the exclusive lock.
    AcquireLock,
    /// Call the capability on this thread.
    Call(CallShape),
    /// Make the coroutine and hand it to the scheduler thread.
    Schedule(CallShape),
    /// Give the lock back.
    ReleaseLock,
    /// Wait for the coroutine to end.
    AwaitJoin,
    /// Hand the result, or the failure, to whoever asked.
    Deliver { ok: bool },
    /// Nothing: the event was out of turn.
    Nothing,
}

/// One invocation in progress.
#[derive(Clone, Copy, Debug, PartialEq, Eq, Structural)]
pub struct Invocation {
    /// Where the capability runs.
    pub site: ExecutionSite,
    /// How it is called.
    pub shape: CallShape,
    /// How far the invocation has come.
    pub stage: Stage,
}

impl Invocation {
    /// Whether the caller holds the exclusive lock at this point.
    pub open spec fn holds_lock(self) -> bool {
        self.stage is Calling || self.stage is Scheduling || self.stage is Releasing
    }
}

/// Whether the caller suspends when it does this.
pub open spec fn suspends(action: BridgeAction) -> bool {
    action is SubmitToPool || action is AwaitJoin
}

/// How an invocation starts: a blocking capability is handed to the offload
/// pool, a cooperative one asks for the lock at once.
pub open spec fn bridge_begin(site: ExecutionSite, shape: CallShape) -> (Invocation, BridgeAction) {
    match site {
        ExecutionSite::OffloadPool => (
            Invocation { site, shape, stage: Stage::Submitted },
            BridgeAction::SubmitToPool,
        ),
        ExecutionSite::LoopThread => (
            Invocation { site, shape, stage: Stage::Waiting },
            BridgeAction::AcquireLock,
        ),
    }
}

/// One step of an invocation.
///
/// On the offload pool the lock is taken, the capability called, and the
/// lock given back before the result is delivered. A cooperative capability
/// is handed to the scheduler under the lock, the lock is given back at
/// once, and only then is the coroutine waited for; where the hand-over
/// failed the failure is delivered without waiting. An event out of turn
/// changes nothing.
pub open spec fn bridge_step(at: Invocation, event: BridgeEvent) -> (Invocation, BridgeAction) {
    match (at.stage, event) {
        (Stage::Submitted, BridgeEvent::PoolStarted) => (
            Invocation { stage: Stage::Waiting, ..at },
            BridgeAction::AcquireLock,
        ),
        (Stage::Waiting, BridgeEvent::LockAcquired) => match at.site {
            ExecutionSite::OffloadPool => (
                Invocation { stage: Stage::Calling, ..at },
                BridgeAction::Call(at.shape),
            ),
            ExecutionSite::LoopThread => (
                Invocation { stage: Stage::Scheduling, ..at },
                BridgeAction::Schedule(at.shape),
            ),
        },
        (Stage::Calling, BridgeEvent::CallReturned { ok }) => (
            Invocation { stage: Stage::Releasing { ok }, ..at },
            BridgeAction::ReleaseLock,
        ),
        (Stage::Scheduling, BridgeEvent::Scheduled { ok }) => (
            Invocation { stage: Stage::Releasing { ok }, ..at },
            BridgeAction::ReleaseLock,
        ),
        (Stage::Releasing { ok }, BridgeEvent::LockReleased) => if ok && at.site
            == ExecutionSite::LoopThread {
            (Invocation { stage: Stage::Awaiting, ..at }, BridgeAction::AwaitJoin)
        } else {
            (Invocation { stage: Stage::Done, ..at }, BridgeAction::Deliver { ok })
        },
        (Stage::Awaiting, BridgeEvent::Joined { ok }) => (
            Invocation { stage: Stage::Done, ..at },
            BridgeAction::Deliver { ok },
        ),
        _ => (at, BridgeAction::Nothing),
    }
}

/// Starts the invocation of a capability.
pub fn invoke<H>(capability: &HandlerCapability<H>) -> (start: (Invocation, BridgeAction))
    ensures
        start == bridge_begin(capability.site(), shape_for(capability.arity())),
{
    begin(capability.execution_site(), capability.call_shape())
}

/// Starts an invocation at a site with a call shape.
pub fn begin(site: ExecutionSite, shape: CallShape) -> (start: (Invocation, BridgeAction))
    ensures
        start == bridge_begin(site, shape),
{
    match site {
        ExecutionSite::OffloadPool => (
            Invocation { site, shape, stage: Stage::Submitted },
            BridgeAction::SubmitToPool,
        ),
        ExecutionSite::LoopThread => (
            Invocation { site, shape, stage: Stage::Waiting },
            BridgeAction::AcquireLock,
        ),
    }
}

impl Invocation {
    /// Takes what the caller reports and says what to do next.
    pub fn advance(self, event: BridgeEvent) -> (next: (Invocation, BridgeAction))
        ensures
            next == bridge_step(self, event),
    {
        let site = self.site;
        let shape = self.shape;
        match (self.stage, event) {
            (Stage::Submitted, BridgeEvent::PoolStarted) => (
                Invocation { site, shape, stage: Stage::Waiting },
                BridgeAction::AcquireLock,
            ),
            (Stage::Waiting, BridgeEvent::LockAcquired) => match site {
                ExecutionSite::OffloadPool => (
                    Invocation { site, shape, stage: Stage::Calling },
                    BridgeAction::Call(shape),
                ),
                ExecutionSite::LoopThread => (
                    Invocation { site, shape, stage: Stage::Scheduling },
                    BridgeAction::Schedule(shape),
                ),
            },
            (Stage::Calling, BridgeEvent::CallReturned { ok }) => (
                Invocation { site, shape, stage: Stage::Releasing { ok } },
                BridgeAction::ReleaseLock,
            ),
            (Stage::Scheduling, BridgeEvent::Scheduled { ok }) => (
                Invocation { site, shape, stage: Stage::Releasing { ok } },
                BridgeAction::ReleaseLock,
            ),
            (Stage::Releasing { ok }, BridgeEvent::LockReleased) => {
                let cooperative = match site {
                    ExecutionSite::LoopThread => true,
                    ExecutionSite::OffloadPool => false,
                };
                if ok && cooperative {
                    (Invocation { site, shape, stage: Stage::Awaiting }, BridgeAction::AwaitJoin)
                } else {
                    (Invocation { site, shape, stage: Stage::Done }, BridgeAction::Deliver { ok })
                }
            },
            (Stage::Awaiting, BridgeEvent::Joined { ok }) => (
                Invocation { site, shape, stage: Stage::Done },
                BridgeAction::Deliver { ok },
            ),
            _ => (self, BridgeAction::Nothing),
        }
    }

    /// Whether the invocation is over.
    pub fn is_done(&self) -> (done: bool)
        ensures
            done == (self.stage is Done),
    {
        match self.stage {
            Stage::Done => true,
            _ => false,
        }
    }
}

/// Says how a startup or shutdown hook is to be run, if one is registered:
/// as any capability is, and without an argument.
pub fn execute_event_handler<H>(event_handler: Option<&HandlerCapability<H>>) -> (start: Option<
    (Invocation, BridgeAction),
>)
    ensures
        start == (match event_handler {
            None => None::<(Invocation, BridgeAction)>,
            Some(handler) => Some(bridge_begin(handler.site(), CallShape::NoArgument)),
        }),
{
    match event_handler {
        None => None,
        Some(handler) => Some(begin(handler.execution_site(), CallShape::NoArgument)),
    }
}

/// Where an invocation stands after a run of events.
pub open spec fn bridge_run(at: Invocation, events: Seq<BridgeEvent>) -> Invocation
    decreases events.len(),
{
    if events.len() == 0 {
        at
    } else {
        bridge_step(bridge_run(at, events.drop_last()), events.last()).0
    }
}

/// What is asked of the caller after the last of a run of events.
pub open spec fn bridge_last_action(at: Invocation, events: Seq<BridgeEvent>) -> BridgeAction
    recommends
        events.len() > 0,
{
    bridge_step(bridge_run(at, events.drop_last()), events.last()).1
}

/// The number of times a run of events leads to the capability being
/// called or scheduled.
pub open spec fn entries(at: Invocation, events: Seq<BridgeEvent>) -> nat
    decreases events.len(),
{
    if events.len() == 0 {
        0
    } else {
        let action = bridge_last_action(at, events);
        entries(at, events.drop_last()) + (if action is Call || action is Schedule {
            1nat
        } else {
            0nat
        })
    }
}

/// How far along a stage is.
pub open spec fn progress(stage: Stage) -> int {
    match stage {
        Stage::Submitted => 0,
        Stage::Waiting => 1,
        Stage::Calling => 2,
        Stage::Scheduling => 2,
        Stage::Releasing { .. } => 3,
        Stage::Awaiting => 4,
        Stage::Done => 5,
    }
}

/// The lock is never held across a suspension. Whenever the caller is asked
/// to wait, for the offload pool or for a coroutine, it does not hold the
/// lock; it holds the lock whenever it is asked to call or to schedule; and
/// the result is delivered without the lock.
pub proof fn lemma_lock_not_held_across_suspension(at: Invocation, event: BridgeEvent)
    ensures
        ({
            let (next, action) = bridge_step(at, event);
            &&& suspends(action) ==> !next.holds_lock()
            &&& action is Deliver ==> !next.holds_lock()
            &&& (action is Call || action is Schedule) ==> next.holds_lock()
            &&& action is AcquireLock ==> !at.holds_lock()
            &&& action is ReleaseLock ==> at.holds_lock()
            &&& next.site == at.site && next.shape == at.shape
        }),
        !bridge_begin(at.site, at.shape).0.holds_lock(),
{
}

/// A blocking capability is called on the offload pool and never scheduled;
/// a cooperative one is scheduled and never called there.
pub proof fn lemma_each_kind_has_its_path(at: Invocation, event: BridgeEvent)
    ensures
        bridge_step(at, event).1 is Call ==> at.site == ExecutionSite::OffloadPool,
        bridge_step(at, event).1 is Schedule ==> at.site == ExecutionSite::LoopThread,
        bridge_step(at, event).1 is AwaitJoin ==> at.site == ExecutionSite::LoopThread,
{
}

proof fn lemma_entries_bounded(site: ExecutionSite, shape: CallShape, events: Seq<BridgeEvent>)
    ensures
        ({
            let start = bridge_begin(site, shape).0;
            let at = bridge_run(start, events);
            &&& at.site == site && at.shape == shape
            &&& entries(start, events) <= 1
            &&& entries(start, events) == (if progress(at.stage) >= 2 {
                1nat
            } else {
                0nat
            })
            &&& site == ExecutionSite::LoopThread ==> !(at.stage is Submitted) && !(at.stage is Calling)
            &&& site == ExecutionSite::OffloadPool ==> !(at.stage is Scheduling) && !(at.stage is Awaiting)
        }),
    decreases events.len(),
{
    if events.len() > 0 {
        lemma_entries_bounded(site, shape, events.drop_last());
    }
}

/// Whatever is reported, one invocation enters user logic at most once: the
/// capability is called or scheduled once when the lock has been taken, and
/// not again.
pub proof fn lemma_one_entry_per_invocation(
    site: ExecutionSite,
    shape: CallShape,
    events: Seq<BridgeEvent>,
)
    ensures
        entries(bridge_begin(site, shape).0, events) <= 1,
{
    lemma_entries_bounded(site, shape, events);
}

} // verus!
