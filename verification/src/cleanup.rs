//! The orderly shutdown: what is done after a signal to end, and in which order.
//!
//! The socket file goes first, so that no client connects any more. Then
//! the scheduler is told to stop, again and again until telling fails
//! because it is gone. Then the playlist is written to the store, and
//! last the store is closed. A stage that fails is reported by the caller
//! and does not hold up the stages after it.

use vstd::prelude::*;

verus! {

/// The milliseconds to wait before the scheduler is told to stop once more.
pub const SHUTDOWN_RETRY_DELAY: u64 = 1;

/// A stage of the shutdown, in the order in which they are done.
#[derive(Clone, Copy, Debug, PartialEq, Eq, Structural)]
pub enum Stage {
    /// Remove the socket file.
    Socket,
    /// Tell the scheduler to stop until it is gone.
    Scheduler,
    /// Write the playlist to the store.
    SaveQueue,
    /// Close the store.
    Close,
    /// Nothing is left to do.
    Done,
}

/// How the attempt at a stage ended.
#[derive(Clone, Copy, Debug, PartialEq, Eq, Structural)]
pub enum Outcome {
    /// The stage's work is over, well or not.
    Finished,
    /// The scheduler took the order to stop: it was still there.
    Delivered,
}

/// The stage to do after `stage` was tried and ended with `outcome`.
pub open spec fn stage_after(stage: Stage, outcome: Outcome) -> Stage {
    match stage {
        Stage::Socket => Stage::Scheduler,
        Stage::Scheduler => match outcome {
            Outcome::Delivered => Stage::Scheduler,
            Outcome::Finished => Stage::SaveQueue,
        },
        Stage::SaveQueue => Stage::Close,
        Stage::Close => Stage::Done,
        Stage::Done => Stage::Done,
    }
}

/// The place of a stage in the order of the shutdown.
pub open spec fn rank(stage: Stage) -> int {
    match stage {
        Stage::Socket => 0,
        Stage::Scheduler => 1,
        Stage::SaveQueue => 2,
        Stage::Close => 3,
        Stage::Done => 4,
    }
}

/// The shutdown under way.
pub struct Cleanup {
    stage: Stage,
}

impl Cleanup {
    /// The stage that is to be done next.
    pub closed spec fn stage(&self) -> Stage {
        self.stage
    }

    /// A shutdown that has done nothing yet.
    pub fn new() -> (r: Cleanup)
        ensures
            r.stage() == Stage::Socket,
    {
        Cleanup { stage: Stage::Socket }
    }

    /// The stage that is to be done next.
    pub fn current(&self) -> (r: Stage)
        ensures
            r == self.stage(),
    {
        self.stage
    }

    /// Takes in how the stage that was to be done ended, and answers with
    /// the stage to do next. Telling the scheduler to stop is done again,
    /// after `SHUTDOWN_RETRY_DELAY`, for as long as the order is taken.
    pub fn advance(&mut self, outcome: Outcome) -> (next: Stage)
        ensures
            next == stage_after(old(self).stage(), outcome),
            final(self).stage() == next,
    {
        let next = match self.stage {
            Stage::Socket => Stage::Scheduler,
            Stage::Scheduler => match outcome {
                Outcome::Delivered => Stage::Scheduler,
                Outcome::Finished => Stage::SaveQueue,
            },
            Stage::SaveQueue => Stage::Close,
            Stage::Close => Stage::Done,
            Stage::Done => Stage::Done,
        };
        self.stage = next;
        next
    }
}

/// The shutdown never goes back to an earlier stage and never skips one;
/// it stays at the scheduler exactly while the scheduler takes the order.
pub proof fn stages_go_in_order(stage: Stage, outcome: Outcome)
    ensures
        rank(stage) <= rank(stage_after(stage, outcome)) <= rank(stage) + 1,
        rank(stage_after(stage, outcome)) == rank(stage) <==> stage == Stage::Done || (stage
            == Stage::Scheduler && outcome == Outcome::Delivered),
{
}

} // verus!
