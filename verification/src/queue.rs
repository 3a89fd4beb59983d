//! The queue that the simulation clock and the render loop share, and the
//! order in which either may use it.
//!
//! Whoever wants to submit takes the queue lock, encodes its passes, submits
//! and gives the lock back at once: the lock guards the submission, not the
//! work of the device. The device runs what was submitted in the order in
//! which it came, so a pass sees what every pass before it has written.

use crate::dispatch::Grid;
use crate::pipelines::Kernel;
use vstd::prelude::*;

verus! {

/// One step of work on the shared queue.
#[derive(Debug, Clone, Copy, PartialEq, Eq, Structural)]
pub enum Command {
    /// Take the queue lock and start to encode.
    LockQueue,
    /// Encode one compute pass: the kernel's pipeline, the three binding
    /// sets in the order of the pipeline layout, and one dispatch.
    ComputePass { kernel: Kernel, workgroups: Grid },
    /// Encode one render pass onto a cleared frame: the render pipeline,
    /// the three binding sets, and one draw without a vertex buffer.
    RenderPass { vertices: u32, instances: u32 },
    /// Hand what was encoded to the queue.
    Submit,
    /// Give the queue lock back.
    UnlockQueue,
    /// Show the frame.
    Present,
}

/// Where a user of the queue stands.
#[derive(Debug, Clone, Copy, PartialEq, Eq, Structural)]
pub enum QueueState {
    /// It does not hold the lock.
    Free,
    /// It holds the lock and encodes.
    Encoding,
    /// It has submitted and still holds the lock.
    Submitted,
    /// It has done something out of turn.
    Broken,
}

impl QueueState {
    /// Where the user stands after one more command. Passes are encoded
    /// under the lock and before the submission; after the submission
    /// nothing is in turn but to give the lock back; a frame is shown while
    /// the lock is free.
    pub open spec fn after(self, command: Command) -> QueueState {
        match (self, command) {
            (QueueState::Free, Command::LockQueue) => QueueState::Encoding,
            (QueueState::Free, Command::Present) => QueueState::Free,
            (QueueState::Encoding, Command::ComputePass { .. }) => QueueState::Encoding,
            (QueueState::Encoding, Command::RenderPass { .. }) => QueueState::Encoding,
            (QueueState::Encoding, Command::Submit) => QueueState::Submitted,
            (QueueState::Submitted, Command::UnlockQueue) => QueueState::Free,
            _ => QueueState::Broken,
        }
    }

    /// Where the user stands after all the commands, first to last.
    pub open spec fn after_all(self, commands: Seq<Command>) -> QueueState
        decreases commands.len(),
    {
        if commands.len() == 0 {
            self
        } else {
            self.after_all(commands.drop_last()).after(commands.last())
        }
    }

    /// Follows one command.
    pub fn step(self, command: Command) -> (next: QueueState)
        ensures
            next == self.after(command),
    {
        match (self, command) {
            (QueueState::Free, Command::LockQueue) => QueueState::Encoding,
            (QueueState::Free, Command::Present) => QueueState::Free,
            (QueueState::Encoding, Command::ComputePass { .. }) => QueueState::Encoding,
            (QueueState::Encoding, Command::RenderPass { .. }) => QueueState::Encoding,
            (QueueState::Encoding, Command::Submit) => QueueState::Submitted,
            (QueueState::Submitted, Command::UnlockQueue) => QueueState::Free,
            _ => QueueState::Broken,
        }
    }

    /// Follows a list of commands from first to last.
    pub fn replay(self, commands: &Vec<Command>) -> (end: QueueState)
        ensures
            end == self.after_all(commands@),
    {
        let mut state = self;
        let mut done: usize = 0;
        while done < commands.len()
            invariant
                done <= commands.len(),
                state == self.after_all(commands@.take(done as int)),
            decreases commands.len() - done,
        {
            proof {
                let longer = commands@.take(done + 1);
                assert(longer.drop_last() =~= commands@.take(done as int));
                assert(longer.last() == commands@[done as int]);
            }
            state = state.step(commands[done]);
            done += 1;
        }
        assert(commands@.take(done as int) =~= commands@);
        state
    }
}

/// Whether the commands use the queue in turn, from a free lock to a free
/// lock.
pub open spec fn in_turn(commands: Seq<Command>) -> bool {
    QueueState::Free.after_all(commands) == QueueState::Free
}

/// Tests whether the commands use the queue in turn.
pub fn keeps_turn(commands: &Vec<Command>) -> (kept: bool)
    ensures
        kept == in_turn(commands@),
{
    QueueState::Free.replay(commands) == QueueState::Free
}

/// To follow two lists one after the other is to follow the first and then,
/// from where that ended, the second.
pub proof fn lemma_after_all_concat(state: QueueState, first: Seq<Command>, second: Seq<Command>)
    ensures
        state.after_all(first + second) == state.after_all(first).after_all(second),
    decreases second.len(),
{
    if second.len() == 0 {
        assert(first + second =~= first);
    } else {
        lemma_after_all_concat(state, first, second.drop_last());
        assert((first + second).drop_last() =~= first + second.drop_last());
        assert((first + second).last() == second.last());
    }
}

/// Nothing mends a broken turn.
pub proof fn lemma_broken_stays_broken(commands: Seq<Command>)
    ensures
        QueueState::Broken.after_all(commands) == QueueState::Broken,
    decreases commands.len(),
{
    if commands.len() > 0 {
        lemma_broken_stays_broken(commands.drop_last());
    }
}

/// Submissions that each keep their turn keep it one after the other, in
/// whatever order the lock lets them through: ticks and frames may follow
/// each other freely.
pub proof fn lemma_turns_compose(first: Seq<Command>, second: Seq<Command>)
    requires
        in_turn(first),
        in_turn(second),
    ensures
        in_turn(first + second),
{
    lemma_after_all_concat(QueueState::Free, first, second);
}

} // verus!
