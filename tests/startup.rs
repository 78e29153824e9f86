use launcher::bootstrap::{Action, Bootstrap, Event, Fatal, Stage};
use launcher::capability::{capability_at, capability_plugins, Capability, PLUGIN_COUNT};
use launcher::window::{main_window_label, Color};

fn drive(b: &mut Bootstrap, events: &[Event]) -> Vec<Action> {
    let mut actions = Vec::new();
    for e in events {
        actions.push(b.step(*e));
    }
    actions
}

fn launched() -> Bootstrap {
    let mut b = Bootstrap::new();
    let mut events = vec![Event::Start];
    for _ in 0..PLUGIN_COUNT {
        events.push(Event::PluginAdded);
    }
    drive(&mut b, &events);
    assert_eq!(b.stage(), Stage::Launched);
    b
}

const TRANSPARENT: Color = Color { red: 0, green: 0, blue: 0, alpha: 0 };

#[test]
fn plan_lists_five_plugins_in_order() {
    assert_eq!(
        capability_plugins(),
        vec![
            Capability::GlobalShortcut,
            Capability::Shell,
            Capability::Dialog,
            Capability::Fs,
            Capability::Sql,
        ]
    );
    assert_eq!(PLUGIN_COUNT, 5);
    assert_eq!(capability_at(0), Capability::GlobalShortcut);
    assert_eq!(capability_at(4), Capability::Sql);
}

#[test]
fn registration_asks_for_each_plugin_then_launches() {
    let mut b = Bootstrap::new();
    assert_eq!(b.stage(), Stage::Idle);
    let actions = drive(
        &mut b,
        &[
            Event::Start,
            Event::PluginAdded,
            Event::PluginAdded,
            Event::PluginAdded,
            Event::PluginAdded,
            Event::PluginAdded,
        ],
    );
    assert_eq!(
        actions,
        vec![
            Action::Register { capability: Capability::GlobalShortcut },
            Action::Register { capability: Capability::Shell },
            Action::Register { capability: Capability::Dialog },
            Action::Register { capability: Capability::Fs },
            Action::Register { capability: Capability::Sql },
            Action::Launch,
        ]
    );
    assert_eq!(b.stage(), Stage::Launched);
}

#[test]
fn registration_stage_counts_plugins() {
    let mut b = Bootstrap::new();
    b.step(Event::Start);
    assert_eq!(b.stage(), Stage::Registering { next: 0 });
    b.step(Event::PluginAdded);
    b.step(Event::PluginAdded);
    assert_eq!(b.stage(), Stage::Registering { next: 2 });
}

#[test]
fn no_event_during_registration_aborts() {
    let all = [
        Event::Start,
        Event::SetupCalled,
        Event::WindowFound,
        Event::WindowMissing,
        Event::ColorApplied,
        Event::ColorRejected,
        Event::LoopClosed,
        Event::LoopFailed,
    ];
    for e in all {
        let mut b = Bootstrap::new();
        b.step(Event::Start);
        b.step(Event::PluginAdded);
        let a = b.step(e);
        assert!(!matches!(a, Action::Abort { .. }));
        assert_eq!(a, Action::Ignore);
        assert_eq!(b.stage(), Stage::Registering { next: 1 });
    }
}

#[test]
fn setup_with_main_window_paints_it_transparent() {
    let mut b = launched();
    let actions = drive(&mut b, &[Event::SetupCalled, Event::WindowFound, Event::ColorApplied]);
    assert_eq!(
        actions,
        vec![Action::LookUp, Action::Paint { color: TRANSPARENT }, Action::FinishSetup]
    );
    assert_eq!(b.stage(), Stage::Running);
}

#[test]
fn setup_without_main_window_is_fatal() {
    let mut b = launched();
    let actions = drive(&mut b, &[Event::SetupCalled, Event::WindowMissing]);
    assert_eq!(
        actions,
        vec![Action::LookUp, Action::Abort { fatal: Fatal::MissingMainWindow }]
    );
    assert_eq!(b.stage(), Stage::Aborted { fatal: Fatal::MissingMainWindow });
    let later = drive(&mut b, &[Event::WindowFound, Event::ColorApplied, Event::LoopClosed]);
    assert_eq!(later, vec![Action::Ignore, Action::Ignore, Action::Ignore]);
    assert_eq!(b.stage(), Stage::Aborted { fatal: Fatal::MissingMainWindow });
}

#[test]
fn color_failure_still_finishes_setup() {
    let mut b = launched();
    let actions = drive(&mut b, &[Event::SetupCalled, Event::WindowFound, Event::ColorRejected]);
    assert_eq!(
        actions,
        vec![Action::LookUp, Action::Paint { color: TRANSPARENT }, Action::FinishSetup]
    );
    assert_eq!(b.stage(), Stage::Running);
}

#[test]
fn run_loop_closing_exits() {
    let mut b = launched();
    drive(&mut b, &[Event::SetupCalled, Event::WindowFound, Event::ColorApplied]);
    assert_eq!(b.step(Event::LoopClosed), Action::Exit);
    assert_eq!(b.stage(), Stage::Exited);
}

#[test]
fn run_loop_failure_while_running_is_fatal() {
    let mut b = launched();
    drive(&mut b, &[Event::SetupCalled, Event::WindowFound, Event::ColorApplied]);
    assert_eq!(b.step(Event::LoopFailed), Action::Abort { fatal: Fatal::RunLoopFailed });
    assert_eq!(b.stage(), Stage::Aborted { fatal: Fatal::RunLoopFailed });
}

#[test]
fn run_loop_failure_before_setup_is_fatal() {
    let mut b = launched();
    assert_eq!(b.step(Event::LoopFailed), Action::Abort { fatal: Fatal::RunLoopFailed });
    assert_eq!(b.stage(), Stage::Aborted { fatal: Fatal::RunLoopFailed });
}

#[test]
fn out_of_order_events_are_ignored() {
    let mut b = Bootstrap::new();
    assert_eq!(b.step(Event::SetupCalled), Action::Ignore);
    assert_eq!(b.step(Event::PluginAdded), Action::Ignore);
    assert_eq!(b.stage(), Stage::Idle);
    let mut b = launched();
    assert_eq!(b.step(Event::LoopClosed), Action::Ignore);
    assert_eq!(b.step(Event::WindowFound), Action::Ignore);
    assert_eq!(b.stage(), Stage::Launched);
}

#[test]
fn fatal_messages() {
    assert_eq!(Fatal::MissingMainWindow.describe(), "no window labeled main at setup");
    assert_eq!(Fatal::RunLoopFailed.describe(), "error while running tauri application");
}

#[test]
fn transparent_is_all_zero() {
    assert_eq!(Color::transparent(), TRANSPARENT);
}

#[test]
fn main_window_is_labeled_main() {
    assert_eq!(main_window_label(), "main");
}
