//! The lifecycle bridge: how the host engine's `ready`, `process` and
//! `physics_process` callbacks drive the update passes of the ECS
//! application, which state each pass runs in, and whether the
//! exit-on-cancel system asks the host to quit during it.
use bevy::app::App;
use iyes_loopless::state::{CurrentState, NextState};
use vstd::prelude::*;

verus! {

/// bevy's application: its world, its schedule and the systems in it.
#[verifier::external_type_specification]
#[verifier::external_body]
pub struct ExApp(App);

/// The value of iyes_loopless's `NextState<ProcessState>` resource in the
/// application's world, if it holds one.
pub uninterp spec fn app_next_state(app: App) -> Option<ProcessState>;

/// The value of iyes_loopless's `CurrentState<ProcessState>` resource in the
/// application's world, if it holds one.
pub uninterp spec fn app_current_state(app: App) -> Option<ProcessState>;

/// Relies on bevy's `World::insert_resource`: the `NextState` resource of
/// iyes_loopless now holds `s`, replacing any value written before; no
/// other resource, `CurrentState` among them, is touched.
#[verifier::external_body]
fn write_next_state(app: &mut App, s: ProcessState)
    ensures
        app_next_state(*final(app)) == Some(s),
        app_current_state(*final(app)) == app_current_state(*old(app)),
{
    app.world.insert_resource(NextState(s));
}

/// Relies on bevy's `World::get_resource`: reads the `CurrentState` resource
/// of iyes_loopless, `None` where the world holds none.
#[verifier::external_body]
fn read_current_state(app: &App) -> (r: Option<ProcessState>)
    ensures
        r == app_current_state(*app),
{
    app.world.get_resource::<CurrentState<ProcessState>>().map(|c| c.0)
}

/// Relies on bevy's `App::update`: the schedule runs once. Its first stages
/// include iyes_loopless's transition stage, which consumes a `NextState`
/// and makes it the current state before the update stage runs.
#[verifier::external_body]
fn run_schedule(app: &mut App) {
    app.update();
}

/// The two modes in which an update pass can run.
#[derive(Clone, Copy, PartialEq, Eq, Hash, Debug, Structural)]
pub enum ProcessState {
    Idle,
    Physics,
}

/// A lifecycle callback delivered by the host engine.
#[derive(Clone, Copy, PartialEq, Eq, Hash, Debug, Structural)]
pub enum Callback {
    Ready,
    Process,
    PhysicsProcess,
}

/// What one update pass ran with.
#[derive(Clone, Copy, PartialEq, Eq, Debug, Structural)]
pub struct UpdatePass {
    /// The process state that the pass ran in.
    pub state: ProcessState,
    /// Whether the startup systems ran in this pass (only the first one).
    pub startup: bool,
    /// Whether the exit-on-cancel system ran in this pass.
    pub exit_check: bool,
}

/// Exit status that the exit-on-cancel system hands to the host's `quit`.
pub const QUIT_EXIT_CODE: i64 = -1;

/// The abstract state of a bridge.
pub struct BridgeModel {
    /// The state that update passes currently run in.
    pub active: ProcessState,
    /// A "next state" value that the following pass will switch to.
    pub pending: Option<ProcessState>,
    /// Whether an update pass has already run (startup systems are done).
    pub started: bool,
    /// How many update passes have run.
    pub passes: nat,
}

/// The bridge right after construction: idle, nothing pending, no pass run.
pub open spec fn initial_model() -> BridgeModel {
    BridgeModel { active: ProcessState::Idle, pending: None, started: false, passes: 0 }
}

/// The state that a callback asks its update pass to run in.
pub open spec fn intent(c: Callback) -> ProcessState {
    match c {
        Callback::Ready => ProcessState::Idle,
        Callback::Process => ProcessState::Idle,
        Callback::PhysicsProcess => ProcessState::Physics,
    }
}

/// The state that the exit-on-cancel system is restricted to.
pub open spec fn exit_runs_in(s: ProcessState) -> bool {
    s == ProcessState::Idle
}

/// One update pass: a pending state takes effect first, then the systems run.
pub open spec fn update_model(m: BridgeModel) -> BridgeModel {
    BridgeModel {
        active: match m.pending {
            Some(s) => s,
            None => m.active,
        },
        pending: None,
        started: true,
        passes: m.passes + 1,
    }
}

/// The pass that `update_model` describes.
pub open spec fn pass_of(m: BridgeModel) -> UpdatePass {
    let s = update_model(m).active;
    UpdatePass { state: s, startup: !m.started, exit_check: exit_runs_in(s) }
}

/// A callback: its next state is written, then one pass runs.
pub open spec fn before_pass(m: BridgeModel, c: Callback) -> BridgeModel {
    BridgeModel { pending: Some(intent(c)), ..m }
}

/// The bridge after callback `c`.
pub open spec fn step(m: BridgeModel, c: Callback) -> BridgeModel {
    update_model(before_pass(m, c))
}

/// The update pass that callback `c` runs.
pub open spec fn step_pass(m: BridgeModel, c: Callback) -> UpdatePass {
    pass_of(before_pass(m, c))
}

/// The bridge after a sequence of callbacks.
pub open spec fn run(m: BridgeModel, calls: Seq<Callback>) -> BridgeModel
    decreases calls.len(),
{
    if calls.len() == 0 {
        m
    } else {
        step(run(m, calls.drop_last()), calls.last())
    }
}

/// The passes that a sequence of callbacks runs, one per callback.
pub open spec fn passes(m: BridgeModel, calls: Seq<Callback>) -> Seq<UpdatePass>
    decreases calls.len(),
{
    if calls.len() == 0 {
        Seq::empty()
    } else {
        passes(m, calls.drop_last()).push(step_pass(run(m, calls.drop_last()), calls.last()))
    }
}

/// What the exit-on-cancel system asks of the host in one run: quit with
/// `QUIT_EXIT_CODE` when the cancel action was just pressed and the host's
/// tree can be reached; nothing otherwise.
pub open spec fn exit_request(cancel_just_pressed: bool, tree_available: bool) -> Option<i64> {
    if cancel_just_pressed && tree_available {
        Some(QUIT_EXIT_CODE)
    } else {
        None
    }
}

/// The decision of the exit-on-cancel system. A missing tree is no reason
/// to fail: no quit is requested then.
pub fn exit_on_escape(cancel_just_pressed: bool, tree_available: bool) -> (r: Option<i64>)
    ensures
        r == exit_request(cancel_just_pressed, tree_available),
{
    if cancel_just_pressed && tree_available {
        Some(QUIT_EXIT_CODE)
    } else {
        None
    }
}

impl UpdatePass {
    /// What the exit-on-cancel system requests during this pass: nothing
    /// when the pass does not run it.
    pub fn run_exit_system(&self, cancel_just_pressed: bool, tree_available: bool) -> (r: Option<
        i64,
    >)
        ensures
            r == (if self.exit_check {
                exit_request(cancel_just_pressed, tree_available)
            } else {
                None
            }),
    {
        if self.exit_check {
            exit_on_escape(cancel_just_pressed, tree_available)
        } else {
            None
        }
    }
}

/// The bridge between the host's lifecycle callbacks and the update passes
/// of the ECS application.
pub struct Ecs {
    app: App,
    state: ProcessState,
    next: Option<ProcessState>,
    started: bool,
    count: Ghost<nat>,
}

impl View for Ecs {
    type V = BridgeModel;

    closed spec fn view(&self) -> BridgeModel {
        BridgeModel {
            active: self.state,
            pending: self.next,
            started: self.started,
            passes: self.count@,
        }
    }
}

impl Ecs {
    /// A bridge around `app`, which starts in `Idle`, with no next state
    /// written and no pass run yet. `app` is expected to hold the stages of
    /// a default application and the loopless state of `ProcessState`,
    /// starting in `Idle`.
    pub fn new(app: App) -> (r: Ecs)
        ensures
            r@ == initial_model(),
    {
        Ecs { app, state: ProcessState::Idle, next: None, started: false, count: Ghost(0) }
    }

    /// The application, for resources and systems that the host adds; the
    /// bridge's own state stays as it is. A `NextState` written through it
    /// is not seen by `state` or `next_state`: write it with
    /// `set_next_state`.
    pub fn app_mut(&mut self) -> (r: &mut App)
        ensures
            final(self)@ == old(self)@,
    {
        &mut self.app
    }

    /// The state that the last update pass ran in (`Idle` before any).
    pub fn state(&self) -> (r: ProcessState)
        ensures
            r == self@.active,
    {
        self.state
    }

    /// The next state written and not yet consumed by an update pass.
    pub fn next_state(&self) -> (r: Option<ProcessState>)
        ensures
            r == self@.pending,
    {
        self.next
    }

    /// The `NextState` resource that the application holds.
    pub closed spec fn written_next_state(&self) -> Option<ProcessState> {
        app_next_state(self.app)
    }

    /// The `CurrentState` resource that the application holds.
    pub closed spec fn app_state_spec(&self) -> Option<ProcessState> {
        app_current_state(self.app)
    }

    /// The current state as the application's world holds it, read back
    /// from its `CurrentState` resource; `None` where the application has
    /// no loopless state of `ProcessState`.
    pub fn app_state(&self) -> (r: Option<ProcessState>)
        ensures
            r == self.app_state_spec(),
    {
        read_current_state(&self.app)
    }

    /// Writes the "next state" value that the following pass switches to;
    /// a value written earlier is replaced.
    pub fn set_next_state(&mut self, s: ProcessState)
        ensures
            final(self)@ == (BridgeModel { pending: Some(s), ..old(self)@ }),
            final(self).written_next_state() == Some(s),
            final(self).app_state_spec() == old(self).app_state_spec(),
    {
        write_next_state(&mut self.app, s);
        self.next = Some(s);
    }

    /// Runs one update pass: a pending next state takes effect and is
    /// consumed, then the systems run in the active state.
    pub fn update(&mut self) -> (r: UpdatePass)
        ensures
            final(self)@ == update_model(old(self)@),
            r == pass_of(old(self)@),
    {
        run_schedule(&mut self.app);
        if let Some(s) = self.next {
            self.state = s;
        }
        self.next = None;
        let startup = !self.started;
        self.started = true;
        self.count = Ghost(self.count@ + 1);
        let exit_check = match self.state {
            ProcessState::Idle => true,
            ProcessState::Physics => false,
        };
        UpdatePass { state: self.state, startup, exit_check }
    }

    /// The host's `ready` callback: the next state becomes `Idle`, then one
    /// update pass runs, which runs the startup systems when it is the first.
    pub fn _ready(&mut self) -> (r: UpdatePass)
        ensures
            final(self)@ == step(old(self)@, Callback::Ready),
            r == step_pass(old(self)@, Callback::Ready),
            r.state == ProcessState::Idle,
            r.exit_check,
    {
        self.set_next_state(ProcessState::Idle);
        self.update()
    }

    /// The host's `process` callback: the next state becomes `Idle`, then
    /// one update pass runs.
    pub fn _process(&mut self) -> (r: UpdatePass)
        ensures
            final(self)@ == step(old(self)@, Callback::Process),
            r == step_pass(old(self)@, Callback::Process),
            r.state == ProcessState::Idle,
            r.exit_check,
    {
        self.set_next_state(ProcessState::Idle);
        self.update()
    }

    /// The host's `physics_process` callback: the next state becomes
    /// `Physics`, then one update pass runs.
    pub fn _physics_process(&mut self) -> (r: UpdatePass)
        ensures
            final(self)@ == step(old(self)@, Callback::PhysicsProcess),
            r == step_pass(old(self)@, Callback::PhysicsProcess),
            r.state == ProcessState::Physics,
            !r.exit_check,
    {
        self.set_next_state(ProcessState::Physics);
        self.update()
    }
}

} // verus!
