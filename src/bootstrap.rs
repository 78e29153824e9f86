use crate::capability::{capability_at, registration_plan, Capability, PLUGIN_COUNT};
use crate::window::{transparent_spec, Color};
use vstd::prelude::*;

verus! {

/// A condition that ends the process.
#[derive(Clone, Copy, Debug, PartialEq, Eq, Structural)]
pub enum Fatal {
    /// No window labeled "main" existed when setup ran.
    MissingMainWindow,
    /// The run loop returned an error.
    RunLoopFailed,
}

impl Fatal {
    /// The message the host prints when it ends the process.
    pub fn describe(&self) -> (r: &'static str)
        ensures
            *self == Fatal::MissingMainWindow ==> r@ == "no window labeled main at setup"@,
            *self == Fatal::RunLoopFailed ==> r@ == "error while running tauri application"@,
    {
        match self {
            Fatal::MissingMainWindow => "no window labeled main at setup",
            Fatal::RunLoopFailed => "error while running tauri application",
        }
    }
}

/// Where the start-up sequence stands.
#[derive(Clone, Copy, Debug, PartialEq, Eq, Structural)]
pub enum Stage {
    /// Nothing has been done yet.
    Idle,
    /// The plugin at position `next` of the plan has been asked for.
    Registering { next: usize },
    /// All plugins are in; the builder has been handed to the run loop.
    Launched,
    /// Setup asked for the main window.
    LookingUp,
    /// Setup asked to set the main window's background.
    Painting,
    /// Setup returned success; the run loop owns the process.
    Running,
    /// The run loop ended normally.
    Exited,
    /// The process ends with this condition.
    Aborted { fatal: Fatal },
}

/// What the host reports back.
#[derive(Clone, Copy, Debug, PartialEq, Eq, Structural)]
pub enum Event {
    /// The host is ready to build the application.
    Start,
    /// The plugin last asked for was added to the builder.
    PluginAdded,
    /// The run loop invoked the setup callback.
    SetupCalled,
    /// The window labeled "main" was found.
    WindowFound,
    /// No window labeled "main" exists.
    WindowMissing,
    /// The background color was set.
    ColorApplied,
    /// Setting the background color failed.
    ColorRejected,
    /// The run loop returned normally.
    LoopClosed,
    /// The run loop returned an error.
    LoopFailed,
}

/// What the host is asked to do next.
#[derive(Clone, Copy, Debug, PartialEq, Eq, Structural)]
pub enum Action {
    /// Add this capability plugin to the builder.
    Register { capability: Capability },
    /// Attach the setup callback, generate the context and enter the run loop.
    Launch,
    /// Look up the window labeled "main".
    LookUp,
    /// Set the main window's background to this color.
    Paint { color: Color },
    /// Return success from the setup callback.
    FinishSetup,
    /// Let the process end normally.
    Exit,
    /// End the process with this condition.
    Abort { fatal: Fatal },
    /// The event does not belong to this stage; nothing changes.
    Ignore,
}

/// A stage that the machine can be in.
pub open spec fn stage_ok(s: Stage) -> bool {
    s matches Stage::Registering { next } ==> next < PLUGIN_COUNT
}

/// One transition: the next stage and the action for the host.
pub open spec fn step_spec(s: Stage, e: Event) -> (Stage, Action) {
    match (s, e) {
        (Stage::Idle, Event::Start) => (
            Stage::Registering { next: 0 },
            Action::Register { capability: registration_plan()[0] },
        ),
        (Stage::Registering { next }, Event::PluginAdded) => if next + 1 < PLUGIN_COUNT {
            (
                Stage::Registering { next: (next + 1) as usize },
                Action::Register { capability: registration_plan()[next + 1] },
            )
        } else {
            (Stage::Launched, Action::Launch)
        },
        (Stage::Launched, Event::SetupCalled) => (Stage::LookingUp, Action::LookUp),
        (Stage::LookingUp, Event::WindowFound) => (
            Stage::Painting,
            Action::Paint { color: transparent_spec() },
        ),
        (Stage::LookingUp, Event::WindowMissing) => (
            Stage::Aborted { fatal: Fatal::MissingMainWindow },
            Action::Abort { fatal: Fatal::MissingMainWindow },
        ),
        (Stage::Painting, Event::ColorApplied) => (Stage::Running, Action::FinishSetup),
        (Stage::Painting, Event::ColorRejected) => (Stage::Running, Action::FinishSetup),
        (Stage::Running, Event::LoopClosed) => (Stage::Exited, Action::Exit),
        (Stage::Launched, Event::LoopFailed) => (
            Stage::Aborted { fatal: Fatal::RunLoopFailed },
            Action::Abort { fatal: Fatal::RunLoopFailed },
        ),
        (Stage::Running, Event::LoopFailed) => (
            Stage::Aborted { fatal: Fatal::RunLoopFailed },
            Action::Abort { fatal: Fatal::RunLoopFailed },
        ),
        _ => (s, Action::Ignore),
    }
}

/// The stage reached and the actions issued when the events come in order.
pub open spec fn run_from(s: Stage, evs: Seq<Event>) -> (Stage, Seq<Action>)
    decreases evs.len(),
{
    if evs.len() == 0 {
        (s, Seq::empty())
    } else {
        let (s1, a) = step_spec(s, evs[0]);
        let (t, acts) = run_from(s1, evs.drop_first());
        (t, seq![a] + acts)
    }
}

/// Setup has painted the main window: it is being colored, or setup is over.
pub open spec fn painted(s: Stage) -> bool {
    s is Painting || s is Running || s is Exited
}

/// Setup has returned success.
pub open spec fn setup_done(s: Stage) -> bool {
    s is Running || s is Exited
}

/// The color event that reports whether the background was set.
pub open spec fn color_event(applied: bool) -> Event {
    if applied {
        Event::ColorApplied
    } else {
        Event::ColorRejected
    }
}

/// Once the process is bound to end, no event changes that and every
/// event is ignored.
pub proof fn lemma_aborted_is_final(fatal: Fatal, evs: Seq<Event>)
    ensures
        run_from(Stage::Aborted { fatal }, evs) == (
            Stage::Aborted { fatal },
            Seq::new(evs.len(), |i: int| Action::Ignore),
        ),
    decreases evs.len(),
{
    if evs.len() > 0 {
        lemma_aborted_is_final(fatal, evs.drop_first());
        let (t, acts) = run_from(Stage::Aborted { fatal }, evs);
        assert(acts =~= Seq::new(evs.len(), |i: int| Action::Ignore));
    } else {
        assert(Seq::<Action>::empty() =~= Seq::new(0, |i: int| Action::Ignore));
    }
}

/// When no window labeled "main" exists at setup, the host is told to end
/// the process with that condition, and whatever it reports afterwards, the
/// sequence never gets past it.
pub proof fn lemma_missing_main_window_is_fatal(rest: Seq<Event>)
    ensures
        run_from(Stage::LookingUp, seq![Event::WindowMissing] + rest) == (
            Stage::Aborted { fatal: Fatal::MissingMainWindow },
            seq![Action::Abort { fatal: Fatal::MissingMainWindow }] + Seq::new(
                rest.len(),
                |i: int| Action::Ignore,
            ),
        ),
{
    let evs = seq![Event::WindowMissing] + rest;
    assert(evs.drop_first() =~= rest);
    lemma_aborted_is_final(Fatal::MissingMainWindow, rest);
}

/// Setting the background is best effort: setup returns success whether
/// the color was set or not.
pub proof fn lemma_color_failure_is_ignored()
    ensures
        step_spec(Stage::Painting, Event::ColorRejected) == step_spec(
            Stage::Painting,
            Event::ColorApplied,
        ),
        step_spec(Stage::Painting, Event::ColorRejected) == (Stage::Running, Action::FinishSetup),
{
}

/// A run that starts with `e` takes one step and goes on from there.
pub proof fn lemma_run_cons(s: Stage, e: Event, rest: Seq<Event>)
    ensures
        run_from(s, seq![e] + rest) == (
            run_from(step_spec(s, e).0, rest).0,
            seq![step_spec(s, e).1] + run_from(step_spec(s, e).0, rest).1,
        ),
{
    assert((seq![e] + rest).drop_first() =~= rest);
}

/// With a window labeled "main", setup looks it up, sets its background
/// to transparent black and returns success, whatever the color call did.
pub proof fn lemma_setup_paints_main_window(applied: bool)
    ensures
        run_from(Stage::Launched, seq![Event::SetupCalled, Event::WindowFound, color_event(applied)])
            == (
            Stage::Running,
            seq![Action::LookUp, Action::Paint { color: transparent_spec() }, Action::FinishSetup],
        ),
{
    let none = Seq::<Event>::empty();
    lemma_run_cons(Stage::Painting, color_event(applied), none);
    let last = seq![color_event(applied)] + none;
    lemma_run_cons(Stage::LookingUp, Event::WindowFound, last);
    let two = seq![Event::WindowFound] + last;
    lemma_run_cons(Stage::Launched, Event::SetupCalled, two);
    assert(seq![Event::SetupCalled] + two =~= seq![
        Event::SetupCalled,
        Event::WindowFound,
        color_event(applied),
    ]);
    assert(seq![Action::LookUp] + (seq![Action::Paint { color: transparent_spec() }] + (seq![
        Action::FinishSetup] + Seq::<Action>::empty())) =~= seq![
        Action::LookUp,
        Action::Paint { color: transparent_spec() },
        Action::FinishSetup,
    ]);
}

/// Whatever the host reports, a sequence that gets from a stage before
/// painting to one after it has asked for the transparent background, and
/// one that gets to a successful setup has asked to return success.
pub proof fn lemma_setup_passes_through_painting(s: Stage, evs: Seq<Event>)
    ensures
        !painted(s) && painted(run_from(s, evs).0) ==> run_from(s, evs).1.contains(
            Action::Paint { color: transparent_spec() },
        ),
        !setup_done(s) && setup_done(run_from(s, evs).0) ==> run_from(s, evs).1.contains(
            Action::FinishSetup,
        ),
    decreases evs.len(),
{
    if evs.len() > 0 {
        let (s1, a) = step_spec(s, evs[0]);
        let rest = evs.drop_first();
        lemma_setup_passes_through_painting(s1, rest);
        let acts = run_from(s, evs).1;
        let tail = run_from(s1, rest).1;
        assert(acts == seq![a] + tail);
        assert(acts[0] == a);
        assert(forall|j: int| 0 <= j < tail.len() ==> acts[j + 1] == tail[j]);
        if !painted(s) && painted(run_from(s, evs).0) {
            if painted(s1) {
                assert(acts[0] == Action::Paint { color: transparent_spec() });
            } else {
                let j = choose|j: int|
                    0 <= j < tail.len() && tail[j] == Action::Paint { color: transparent_spec() };
                assert(acts[j + 1] == Action::Paint { color: transparent_spec() });
            }
        }
        if !setup_done(s) && setup_done(run_from(s, evs).0) {
            if setup_done(s1) {
                assert(acts[0] == Action::FinishSetup);
            } else {
                let j = choose|j: int| 0 <= j < tail.len() && tail[j] == Action::FinishSetup;
                assert(acts[j + 1] == Action::FinishSetup);
            }
        }
    }
}

/// A running application, or one that ended normally, has had its main
/// window asked to turn transparent and its setup return success.
pub proof fn lemma_running_app_was_painted(evs: Seq<Event>)
    ensures
        setup_done(run_from(Stage::Idle, evs).0) ==> {
            &&& run_from(Stage::Idle, evs).1.contains(Action::Paint { color: transparent_spec() })
            &&& run_from(Stage::Idle, evs).1.contains(Action::FinishSetup)
        },
{
    lemma_setup_passes_through_painting(Stage::Idle, evs);
}

/// No event during plugin registration makes the process end.
pub proof fn lemma_registration_never_aborts(next: usize, e: Event)
    requires
        next < PLUGIN_COUNT,
    ensures
        !(step_spec(Stage::Idle, e).0 is Aborted),
        !(step_spec(Stage::Idle, e).1 is Abort),
        !(step_spec(Stage::Registering { next }, e).0 is Aborted),
        !(step_spec(Stage::Registering { next }, e).1 is Abort),
{
}

/// Registering the plugins asks for each capability of the plan once, in
/// order, and then launches, without error.
pub proof fn lemma_registration_completes()
    ensures
        run_from(
            Stage::Idle,
            seq![
                Event::Start,
                Event::PluginAdded,
                Event::PluginAdded,
                Event::PluginAdded,
                Event::PluginAdded,
                Event::PluginAdded,
            ],
        ) == (
            Stage::Launched,
            registration_plan().map_values(|c: Capability| Action::Register { capability: c }).push(
                Action::Launch,
            ),
        ),
{
    let plan = registration_plan().map_values(|c: Capability| Action::Register { capability: c });
    let added = Event::PluginAdded;
    let e0 = Seq::<Event>::empty();
    lemma_run_cons(Stage::Registering { next: 4 }, added, e0);
    let e1 = seq![added] + e0;
    lemma_run_cons(Stage::Registering { next: 3 }, added, e1);
    let e2 = seq![added] + e1;
    lemma_run_cons(Stage::Registering { next: 2 }, added, e2);
    let e3 = seq![added] + e2;
    lemma_run_cons(Stage::Registering { next: 1 }, added, e3);
    let e4 = seq![added] + e3;
    lemma_run_cons(Stage::Registering { next: 0 }, added, e4);
    let e5 = seq![added] + e4;
    lemma_run_cons(Stage::Idle, Event::Start, e5);
    assert(seq![Event::Start] + e5 =~= seq![
        Event::Start,
        Event::PluginAdded,
        Event::PluginAdded,
        Event::PluginAdded,
        Event::PluginAdded,
        Event::PluginAdded,
    ]);
    assert(seq![plan[0]] + (seq![plan[1]] + (seq![plan[2]] + (seq![plan[3]] + (seq![plan[4]] + (
    seq![Action::Launch] + Seq::<Action>::empty()))))) =~= plan.push(Action::Launch));
}

/// The start-up sequence of the application, one event at a time.
pub struct Bootstrap {
    stage: Stage,
}

impl View for Bootstrap {
    type V = Stage;

    closed spec fn view(&self) -> Stage {
        self.stage
    }
}

impl Bootstrap {
    #[verifier::type_invariant]
    spec fn inv(&self) -> bool {
        stage_ok(self.stage)
    }

    /// A sequence that has not started.
    pub fn new() -> (r: Bootstrap)
        ensures
            r@ == Stage::Idle,
    {
        Bootstrap { stage: Stage::Idle }
    }

    /// The current stage.
    pub fn stage(&self) -> (r: Stage)
        ensures
            r == self@,
            stage_ok(r),
    {
        proof {
            use_type_invariant(self);
        }
        self.stage
    }

    /// Takes the host's report and returns what the host does next.
    pub fn step(&mut self, e: Event) -> (r: Action)
        ensures
            (final(self)@, r) == step_spec(old(self)@, e),
    {
        proof {
            use_type_invariant(&*self);
        }
        let (s, a) = match (self.stage, e) {
            (Stage::Idle, Event::Start) => (
                Stage::Registering { next: 0 },
                Action::Register { capability: capability_at(0) },
            ),
            (Stage::Registering { next }, Event::PluginAdded) => if next + 1 < PLUGIN_COUNT {
                (
                    Stage::Registering { next: next + 1 },
                    Action::Register { capability: capability_at(next + 1) },
                )
            } else {
                (Stage::Launched, Action::Launch)
            },
            (Stage::Launched, Event::SetupCalled) => (Stage::LookingUp, Action::LookUp),
            (Stage::LookingUp, Event::WindowFound) => (
                Stage::Painting,
                Action::Paint { color: Color::transparent() },
            ),
            (Stage::LookingUp, Event::WindowMissing) => (
                Stage::Aborted { fatal: Fatal::MissingMainWindow },
                Action::Abort { fatal: Fatal::MissingMainWindow },
            ),
            (Stage::Painting, Event::ColorApplied) => (Stage::Running, Action::FinishSetup),
            (Stage::Painting, Event::ColorRejected) => (Stage::Running, Action::FinishSetup),
            (Stage::Running, Event::LoopClosed) => (Stage::Exited, Action::Exit),
            (Stage::Launched, Event::LoopFailed) => (
                Stage::Aborted { fatal: Fatal::RunLoopFailed },
                Action::Abort { fatal: Fatal::RunLoopFailed },
            ),
            (Stage::Running, Event::LoopFailed) => (
                Stage::Aborted { fatal: Fatal::RunLoopFailed },
                Action::Abort { fatal: Fatal::RunLoopFailed },
            ),
            (s, _) => (s, Action::Ignore),
        };
        self.stage = s;
        a
    }
}

} // verus!
