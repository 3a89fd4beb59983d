//! The simulation clock: what one tick submits to the queue, and what the
//! ticker does between ticks.

use crate::dispatch::{agent_sense_move_deposit_grid, diffuse_and_decay_grid, Grid};
use crate::parameters::Parameters;
use crate::pipelines::Kernel;
use crate::queue::{in_turn, Command, QueueState};
use crate::resources::Slot;
use vstd::prelude::*;

verus! {

/// Nanoseconds in a second.
pub const NANOS_PER_SECOND: u64 = 1_000_000_000;

/// What one tick does, in order: under one holding of the lock, first the
/// trail is diffused, then the agents sense it, move and deposit.
pub open spec fn tick_sequence(params: Parameters) -> Seq<Command> {
    seq![
        Command::LockQueue,
        Command::ComputePass {
            kernel: Kernel::DiffuseAndDecay,
            workgroups: Grid::for_canvas(
                params.shader_parameters.canvas_width,
                params.shader_parameters.canvas_height,
            ),
        },
        Command::ComputePass {
            kernel: Kernel::AgentSenseMoveDeposit,
            workgroups: Grid::for_agents(params.shader_parameters.number_of_active_agents),
        },
        Command::Submit,
        Command::UnlockQueue,
    ]
}

/// Lists what one tick does. The diffusion pass stands before the agent
/// pass: agents sense the trail as this tick's diffusion left it.
pub fn tick_commands(params: &Parameters) -> (commands: Vec<Command>)
    ensures
        commands@ == tick_sequence(*params),
        in_turn(commands@),
{
    let diffusion = Command::ComputePass {
        kernel: Kernel::DiffuseAndDecay,
        workgroups: diffuse_and_decay_grid(
            params.shader_parameters.canvas_width,
            params.shader_parameters.canvas_height,
        ),
    };
    let agents = Command::ComputePass {
        kernel: Kernel::AgentSenseMoveDeposit,
        workgroups: agent_sense_move_deposit_grid(
            params.shader_parameters.number_of_active_agents,
        ),
    };
    let commands = vec![
        Command::LockQueue,
        diffusion,
        agents,
        Command::Submit,
        Command::UnlockQueue,
    ];
    assert(commands@ =~= tick_sequence(*params));
    proof {
        lemma_tick_keeps_turn(*params);
    }
    commands
}

/// Time between two ticks, in nanoseconds: a second divided by the tick
/// rate, rounded down.
pub open spec fn tick_interval(target_ticks_per_second: u32) -> int
    recommends
        target_ticks_per_second > 0,
{
    NANOS_PER_SECOND as int / target_ticks_per_second as int
}

/// Computes the time for which the ticker sleeps between two ticks.
pub fn tick_interval_nanos(target_ticks_per_second: u32) -> (nanos: u64)
    requires
        target_ticks_per_second > 0,
    ensures
        nanos == tick_interval(target_ticks_per_second),
{
    NANOS_PER_SECOND / (target_ticks_per_second as u64)
}

/// What the ticker does after it has looked at the exit flag.
#[derive(Debug, PartialEq, Eq)]
pub enum TickerStep {
    /// Leave the loop.
    Stop,
    /// Carry out the commands, sleep, and look at the flag again.
    Tick { commands: Vec<Command>, sleep_nanos: u64 },
}

/// Decides one turn of the ticker's loop from the exit flag as it was seen
/// at the top of the loop. Once the flag is seen set, no tick is started;
/// a tick that was started is carried out whole.
pub fn ticker_step(params: &Parameters, exiting: bool) -> (step: TickerStep)
    requires
        !exiting ==> params.target_ticks_per_second > 0,
    ensures
        exiting <==> step is Stop,
        step matches TickerStep::Tick { commands, sleep_nanos } ==> {
            &&& commands@ == tick_sequence(*params)
            &&& sleep_nanos == tick_interval(params.target_ticks_per_second)
        },
{
    if exiting {
        TickerStep::Stop
    } else {
        TickerStep::Tick {
            commands: tick_commands(params),
            sleep_nanos: tick_interval_nanos(params.target_ticks_per_second),
        }
    }
}

/// A tick submits exactly two compute passes, the diffusion before the
/// agents, inside one holding of the queue lock that ends right after the
/// submission. So what the diffusion did to the trail is in place before an
/// agent senses it.
pub proof fn lemma_diffusion_precedes_agents(params: Parameters)
    ensures
        ({
            let tick = tick_sequence(params);
            &&& tick.len() == 5
            &&& tick[0] == Command::LockQueue
            &&& tick[1] matches Command::ComputePass { kernel, workgroups }
                && kernel == Kernel::DiffuseAndDecay
            &&& tick[2] matches Command::ComputePass { kernel, workgroups }
                && kernel == Kernel::AgentSenseMoveDeposit
            &&& tick[3] == Command::Submit
            &&& tick[4] == Command::UnlockQueue
            &&& forall|i: int|
                0 <= i < tick.len() ==> ((#[trigger] tick[i]) is ComputePass <==> i == 1 || i
                    == 2)
        }),
{
}

/// A tick uses the queue in turn: it takes the lock once, encodes its two
/// passes, submits once and gives the lock back right after.
pub proof fn lemma_tick_keeps_turn(params: Parameters)
    ensures
        in_turn(tick_sequence(params)),
{
    let tick = tick_sequence(params);
    let four = tick.drop_last();
    let three = four.drop_last();
    let two = three.drop_last();
    let one = two.drop_last();
    let none = one.drop_last();
    assert(none.len() == 0);
    assert(QueueState::Free.after_all(none) == QueueState::Free);
    assert(one.last() == Command::LockQueue);
    assert(QueueState::Free.after_all(one) == QueueState::Encoding);
    assert(QueueState::Free.after_all(two) == QueueState::Encoding);
    assert(QueueState::Free.after_all(three) == QueueState::Encoding);
    assert(QueueState::Free.after_all(four) == QueueState::Submitted);
}

/// The passes of a tick in which the kernel writes the given buffer.
pub open spec fn writers(tick: Seq<Command>, slot: Slot) -> Set<int> {
    Set::new(
        |i: int|
            0 <= i < tick.len() && (tick[i] matches Command::ComputePass { kernel, workgroups }
                && kernel.writes(slot)),
    )
}

/// Within a tick, the trail is the only buffer that more than one pass
/// writes: the agents are written by the agent pass alone, the settings by
/// none, and the trail by the diffusion first and the agents second.
pub proof fn lemma_writers_of_a_tick(params: Parameters)
    ensures
        writers(tick_sequence(params), Slot::ShaderContext) =~= Set::<int>::empty(),
        writers(tick_sequence(params), Slot::DataLayer) =~= set![2int],
        writers(tick_sequence(params), Slot::TrailLayer) =~= set![1int, 2int],
{
}

} // verus!
