use physarum::dispatch::Grid;
use physarum::parameters::{Parameters, ShaderParameters};
use physarum::pipelines::Kernel;
use physarum::render::{
    after_render, choose_surface_format, frame_interval_micros, on_event, render_commands, Event,
    FrameAction, Key, Reaction, SurfaceError,
};
use physarum::queue::Command;
use physarum::simulation::{tick_commands, tick_interval_nanos, ticker_step, TickerStep};

fn default_params() -> Parameters {
    Parameters::new(ShaderParameters::new(1400, 1400))
}

#[test]
fn tick_interval_at_60_ticks_per_second() {
    assert_eq!(tick_interval_nanos(60), 16_666_666);
}

#[test]
fn tick_interval_rounds_down() {
    assert_eq!(tick_interval_nanos(1), 1_000_000_000);
    assert_eq!(tick_interval_nanos(3), 333_333_333);
    assert_eq!(tick_interval_nanos(30), 33_333_333);
    assert_eq!(tick_interval_nanos(144), 6_944_444);
    assert_eq!(tick_interval_nanos(1_000_000_000), 1);
    assert_eq!(tick_interval_nanos(1_000_000_001), 0);
    assert_eq!(tick_interval_nanos(u32::MAX), 0);
}

#[test]
fn frame_interval_rounds_down() {
    assert_eq!(frame_interval_micros(60), 16_666);
    assert_eq!(frame_interval_micros(1), 1_000_000);
    assert_eq!(frame_interval_micros(7), 142_857);
    assert_eq!(frame_interval_micros(1_000_001), 0);
}

#[test]
fn tick_diffuses_before_agents_move() {
    let commands = tick_commands(&default_params());
    assert_eq!(
        commands,
        vec![
            Command::LockQueue,
            Command::ComputePass {
                kernel: Kernel::DiffuseAndDecay,
                workgroups: Grid { x: 175, y: 175, z: 1 },
            },
            Command::ComputePass {
                kernel: Kernel::AgentSenseMoveDeposit,
                workgroups: Grid { x: 32, y: 245, z: 1 },
            },
            Command::Submit,
            Command::UnlockQueue,
        ]
    );
}

#[test]
fn captured_tick_commits_diffusion_before_agents_sense() {
    let mut params = Parameters::with_population(70_000, ShaderParameters::new(33, 17));
    params.shader_parameters.number_of_active_agents = 66_000;
    let mut locked = false;
    let mut submitted = false;
    let mut diffusions_committed = 0;
    let mut sensed_after = Vec::new();
    for command in tick_commands(&params) {
        match command {
            Command::LockQueue => {
                assert!(!locked);
                locked = true;
            }
            Command::ComputePass { kernel: Kernel::DiffuseAndDecay, workgroups } => {
                assert!(locked && !submitted);
                assert_eq!(workgroups, Grid { x: 5, y: 3, z: 1 });
                diffusions_committed += 1;
            }
            Command::ComputePass { kernel: Kernel::AgentSenseMoveDeposit, workgroups } => {
                assert!(locked && !submitted);
                assert_eq!(workgroups, Grid { x: 32, y: 33, z: 1 });
                sensed_after.push(diffusions_committed);
            }
            Command::Submit => {
                assert!(locked && !submitted);
                submitted = true;
            }
            Command::UnlockQueue => {
                assert!(locked && submitted);
                locked = false;
            }
            other => panic!("a tick does not {:?}", other),
        }
    }
    assert_eq!(sensed_after, vec![1]);
    assert_eq!(diffusions_committed, 1);
    assert!(submitted && !locked);
}

#[test]
fn ticker_stops_once_the_flag_is_seen() {
    assert_eq!(ticker_step(&default_params(), true), TickerStep::Stop);
    let mut unclocked = default_params();
    unclocked.target_ticks_per_second = 0;
    assert_eq!(ticker_step(&unclocked, true), TickerStep::Stop);
}

#[test]
fn ticker_ticks_and_sleeps_while_the_flag_is_clear() {
    let params = default_params();
    assert_eq!(
        ticker_step(&params, false),
        TickerStep::Tick { commands: tick_commands(&params), sleep_nanos: 16_666_666 }
    );
}

#[test]
fn ticker_runs_at_most_the_tick_in_flight_after_the_flag_is_set() {
    let params = default_params();
    let flag_seen = [false, false, false, true, true];
    let mut ticks = 0;
    for exiting in flag_seen {
        match ticker_step(&params, exiting) {
            TickerStep::Stop => break,
            TickerStep::Tick { .. } => ticks += 1,
        }
    }
    assert_eq!(ticks, 3);
}

#[test]
fn frame_draws_six_vertices_in_one_pass() {
    assert_eq!(
        render_commands(),
        vec![
            Command::LockQueue,
            Command::RenderPass { vertices: 6, instances: 1 },
            Command::Submit,
            Command::UnlockQueue,
            Command::Present,
        ]
    );
}

#[test]
fn shown_frame_proceeds() {
    assert_eq!(after_render(Ok(())), FrameAction::Proceed);
}

#[test]
fn lost_surface_is_reconfigured() {
    assert_eq!(after_render(Err(SurfaceError::Lost)), FrameAction::Reconfigure);
}

#[test]
fn out_of_memory_exits() {
    assert_eq!(after_render(Err(SurfaceError::OutOfMemory)), FrameAction::Exit);
}

#[test]
fn other_surface_errors_are_reported() {
    assert_eq!(
        after_render(Err(SurfaceError::Timeout)),
        FrameAction::Report(SurfaceError::Timeout)
    );
    assert_eq!(
        after_render(Err(SurfaceError::Outdated)),
        FrameAction::Report(SurfaceError::Outdated)
    );
}

fn tally(outcomes: &[Result<(), SurfaceError>]) -> (usize, usize, usize) {
    let mut reconfigurations = 0;
    let mut exits = 0;
    let mut reports = 0;
    for outcome in outcomes {
        match after_render(*outcome) {
            FrameAction::Proceed => {}
            FrameAction::Reconfigure => reconfigurations += 1,
            FrameAction::Exit => exits += 1,
            FrameAction::Report(_) => reports += 1,
        }
    }
    (reconfigurations, exits, reports)
}

#[test]
fn lost_surface_then_a_frame_reconfigures_once_and_does_not_exit() {
    assert_eq!(tally(&[Err(SurfaceError::Lost), Ok(())]), (1, 0, 0));
}

#[test]
fn out_of_memory_exits_without_reconfiguring() {
    assert_eq!(tally(&[Err(SurfaceError::OutOfMemory)]), (0, 1, 0));
}

#[test]
fn unclassified_errors_neither_reconfigure_nor_exit() {
    assert_eq!(
        tally(&[Err(SurfaceError::Timeout), Ok(()), Err(SurfaceError::Outdated), Ok(())]),
        (0, 0, 2)
    );
}

#[test]
fn events_that_end_the_run() {
    let params = default_params();
    assert_eq!(on_event(&params, Event::CloseRequested), Reaction::Exit);
    assert_eq!(
        on_event(&params, Event::KeyboardInput { key: Key::Escape, pressed: true }),
        Reaction::Exit
    );
}

#[test]
fn keys_that_do_nothing() {
    let params = default_params();
    assert_eq!(
        on_event(&params, Event::KeyboardInput { key: Key::Escape, pressed: false }),
        Reaction::Ignore
    );
    assert_eq!(
        on_event(&params, Event::KeyboardInput { key: Key::KeyR, pressed: true }),
        Reaction::Ignore
    );
    assert_eq!(
        on_event(&params, Event::KeyboardInput { key: Key::KeyR, pressed: false }),
        Reaction::Ignore
    );
    assert_eq!(
        on_event(&params, Event::KeyboardInput { key: Key::Other, pressed: true }),
        Reaction::Ignore
    );
    assert_eq!(on_event(&params, Event::Other), Reaction::Ignore);
}

#[test]
fn resume_time_asks_for_a_redraw() {
    assert_eq!(on_event(&default_params(), Event::ResumeTimeReached), Reaction::RequestRedraw);
}

#[test]
fn redraw_renders_and_sets_the_next_deadline() {
    let mut params = default_params();
    assert_eq!(
        on_event(&params, Event::RedrawRequested),
        Reaction::Render { wait_micros: 16_666 }
    );
    params.target_ticks_per_second = 30;
    assert_eq!(
        on_event(&params, Event::RedrawRequested),
        Reaction::Render { wait_micros: 33_333 }
    );
}

#[test]
fn events_other_than_redraw_need_no_tick_rate() {
    let mut params = default_params();
    params.target_ticks_per_second = 0;
    assert_eq!(on_event(&params, Event::CloseRequested), Reaction::Exit);
    assert_eq!(on_event(&params, Event::ResumeTimeReached), Reaction::RequestRedraw);
}

#[test]
fn first_srgb_format_is_chosen() {
    assert_eq!(choose_surface_format(&vec![true]), 0);
    assert_eq!(choose_surface_format(&vec![false, true]), 1);
    assert_eq!(choose_surface_format(&vec![false, false, true, true]), 2);
    assert_eq!(choose_surface_format(&vec![true, false, true]), 0);
}

#[test]
fn first_format_is_chosen_where_none_is_srgb() {
    assert_eq!(choose_surface_format(&vec![false]), 0);
    assert_eq!(choose_surface_format(&vec![false, false, false]), 0);
}
