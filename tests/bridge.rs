use bevy::app::App;
use iyes_loopless::prelude::AppLooplessStateExt;
use iyes_loopless::state::{CurrentState, NextState};
use logic::ecs::{exit_on_escape, Ecs, ProcessState, UpdatePass, QUIT_EXIT_CODE};
use logic::hello_world::HelloWorld;

fn configured_app() -> App {
    let mut app = App::empty();
    app.add_default_stages();
    app.add_loopless_state(ProcessState::Idle);
    app
}

fn current_state(ecs: &mut Ecs) -> ProcessState {
    ecs.app_mut()
        .world
        .get_resource::<CurrentState<ProcessState>>()
        .map(|s| s.0)
        .unwrap()
}

fn pending_in_world(ecs: &mut Ecs) -> Option<ProcessState> {
    ecs.app_mut().world.get_resource::<NextState<ProcessState>>().map(|s| s.0)
}

#[test]
fn new_starts_idle_with_nothing_pending() {
    let ecs = Ecs::new(App::empty());
    assert_eq!(ecs.state(), ProcessState::Idle);
    assert_eq!(ecs.next_state(), None);
}

#[test]
fn ready_after_new_runs_one_idle_pass() {
    let mut ecs = Ecs::new(configured_app());
    let pass = ecs._ready();
    assert_eq!(
        pass,
        UpdatePass { state: ProcessState::Idle, startup: true, exit_check: true }
    );
    assert_eq!(ecs.state(), ProcessState::Idle);
    assert_eq!(ecs.next_state(), None);
    assert_eq!(current_state(&mut ecs), ProcessState::Idle);
}

#[test]
fn startup_runs_only_in_first_pass() {
    let mut ecs = Ecs::new(App::empty());
    assert!(ecs._ready().startup);
    assert!(!ecs._process().startup);
    assert!(!ecs._physics_process().startup);
}

#[test]
fn physics_process_switches_to_physics() {
    let mut ecs = Ecs::new(configured_app());
    ecs._ready();
    let pass = ecs._physics_process();
    assert_eq!(pass.state, ProcessState::Physics);
    assert!(!pass.exit_check);
    assert_eq!(ecs.state(), ProcessState::Physics);
    assert_eq!(current_state(&mut ecs), ProcessState::Physics);
}

#[test]
fn process_switches_back_to_idle() {
    let mut ecs = Ecs::new(configured_app());
    ecs._physics_process();
    let pass = ecs._process();
    assert_eq!(pass.state, ProcessState::Idle);
    assert!(pass.exit_check);
    assert_eq!(current_state(&mut ecs), ProcessState::Idle);
}

#[test]
fn each_pass_follows_its_callback() {
    let mut ecs = Ecs::new(configured_app());
    assert_eq!(ecs._ready().state, ProcessState::Idle);
    let expected = [
        (true, ProcessState::Physics),
        (false, ProcessState::Idle),
        (true, ProcessState::Physics),
        (true, ProcessState::Physics),
        (false, ProcessState::Idle),
        (false, ProcessState::Idle),
    ];
    for (physics, state) in expected {
        let pass = if physics { ecs._physics_process() } else { ecs._process() };
        assert_eq!(pass.state, state);
        assert_eq!(ecs.state(), state);
        assert_eq!(ecs.next_state(), None);
        assert_eq!(current_state(&mut ecs), state);
    }
}

#[test]
fn no_stale_next_state_after_many_calls() {
    let mut ecs = Ecs::new(App::empty());
    for i in 0..10 {
        if i % 3 == 0 {
            ecs._process();
        } else {
            ecs._physics_process();
        }
        assert_eq!(ecs.next_state(), None);
    }
    // the tenth call (i == 9) was `process`
    assert_eq!(ecs.state(), ProcessState::Idle);
    ecs._physics_process();
    assert_eq!(ecs.state(), ProcessState::Physics);
}

#[test]
fn ready_after_physics_runs_in_idle() {
    let mut ecs = Ecs::new(configured_app());
    ecs._physics_process();
    let pass = ecs._ready();
    assert_eq!(pass.state, ProcessState::Idle);
    assert!(pass.exit_check);
    assert_eq!(ecs.state(), ProcessState::Idle);
    assert_eq!(ecs.app_state(), Some(ProcessState::Idle));
}

#[test]
fn app_state_is_read_from_the_world() {
    let mut ecs = Ecs::new(configured_app());
    // the transition stage writes `CurrentState` when it first runs
    assert_eq!(ecs.app_state(), None);
    ecs._ready();
    assert_eq!(ecs.app_state(), Some(ProcessState::Idle));
    ecs.set_next_state(ProcessState::Physics);
    assert_eq!(ecs.app_state(), Some(ProcessState::Idle));
    ecs.update();
    assert_eq!(ecs.app_state(), Some(ProcessState::Physics));
}

#[test]
fn app_state_without_loopless_state_is_none() {
    let mut ecs = Ecs::new(App::empty());
    assert_eq!(ecs.app_state(), None);
    ecs._process();
    assert_eq!(ecs.app_state(), None);
}

#[test]
fn next_state_is_replaced_not_queued() {
    let mut ecs = Ecs::new(configured_app());
    ecs.set_next_state(ProcessState::Physics);
    ecs.set_next_state(ProcessState::Idle);
    assert_eq!(ecs.next_state(), Some(ProcessState::Idle));
    assert_eq!(pending_in_world(&mut ecs), Some(ProcessState::Idle));
    let pass = ecs.update();
    assert_eq!(pass.state, ProcessState::Idle);
    assert_eq!(current_state(&mut ecs), ProcessState::Idle);
    assert_eq!(pending_in_world(&mut ecs), None);
}

#[test]
fn app_mut_keeps_the_bridge_state() {
    let mut ecs = Ecs::new(App::empty());
    ecs._physics_process();
    ecs.app_mut().world.insert_resource(7u32);
    assert_eq!(ecs.state(), ProcessState::Physics);
    assert_eq!(ecs.next_state(), None);
}

#[test]
fn cancel_in_idle_pass_requests_quit_once() {
    let mut ecs = Ecs::new(App::empty());
    let pass = ecs._process();
    assert_eq!(pass.run_exit_system(true, true), Some(-1));
    assert_eq!(QUIT_EXIT_CODE, -1);
}

#[test]
fn no_cancel_in_idle_pass_requests_nothing() {
    let mut ecs = Ecs::new(App::empty());
    let pass = ecs._process();
    assert_eq!(pass.run_exit_system(false, true), None);
    assert_eq!(pass.run_exit_system(false, false), None);
}

#[test]
fn physics_pass_never_requests_quit() {
    let mut ecs = Ecs::new(App::empty());
    let pass = ecs._physics_process();
    assert_eq!(pass.run_exit_system(true, true), None);
    assert_eq!(pass.run_exit_system(false, true), None);
}

#[test]
fn missing_tree_is_no_quit() {
    assert_eq!(exit_on_escape(true, false), None);
    assert_eq!(exit_on_escape(true, true), Some(-1));
    assert_eq!(exit_on_escape(false, true), None);
}

#[test]
fn hello_world_has_no_state() {
    assert_eq!(HelloWorld::new(), HelloWorld);
}
