use desktop_bootstrap::{
    fatal_diagnostic, required_plugin, Action, Bootstrap, Capability, Event, Stage, PLUGIN_COUNT,
};

fn started() -> Bootstrap {
    let mut b = Bootstrap::new();
    assert_eq!(b.step(Event::Launched), Action::AttachPlugin(Capability::Shell));
    assert_eq!(
        b.step(Event::PluginAttached(Capability::Shell)),
        Action::AttachPlugin(Capability::Http)
    );
    assert_eq!(b.step(Event::PluginAttached(Capability::Http)), Action::StartRunLoop);
    b
}

#[test]
fn new_sequence_is_configuring_with_no_plugin() {
    let b = Bootstrap::new();
    assert_eq!(b.stage(), Stage::Configuring);
    assert_eq!(b.attached_count(), 0);
}

#[test]
fn plugins_are_shell_then_http() {
    assert_eq!(PLUGIN_COUNT, 2);
    assert_eq!(required_plugin(0), Capability::Shell);
    assert_eq!(required_plugin(1), Capability::Http);
}

#[test]
fn both_plugins_attached_before_run_loop() {
    let mut b = Bootstrap::new();
    assert_eq!(b.step(Event::Launched), Action::AttachPlugin(Capability::Shell));
    assert_eq!(b.attached_count(), 0);
    assert_eq!(
        b.step(Event::PluginAttached(Capability::Shell)),
        Action::AttachPlugin(Capability::Http)
    );
    assert_eq!(b.attached_count(), 1);
    assert_eq!(b.stage(), Stage::Configuring);
    assert_eq!(b.step(Event::PluginAttached(Capability::Http)), Action::StartRunLoop);
    assert_eq!(b.attached_count(), 2);
    assert_eq!(b.stage(), Stage::Running);
}

#[test]
fn attachment_out_of_order_is_ignored() {
    let mut b = Bootstrap::new();
    assert_eq!(b.step(Event::PluginAttached(Capability::Http)), Action::Idle);
    assert_eq!(b.attached_count(), 0);
    assert_eq!(b.stage(), Stage::Configuring);
    assert_eq!(
        b.step(Event::PluginAttached(Capability::Shell)),
        Action::AttachPlugin(Capability::Http)
    );
    assert_eq!(b.step(Event::PluginAttached(Capability::Shell)), Action::Idle);
    assert_eq!(b.attached_count(), 1);
}

#[test]
fn run_loop_end_before_start_is_ignored() {
    let mut b = Bootstrap::new();
    assert_eq!(b.step(Event::RunLoopClosed), Action::Idle);
    assert_eq!(b.step(Event::RunLoopFailed("early".to_string())), Action::Idle);
    assert_eq!(b.stage(), Stage::Configuring);
    assert_eq!(b.step(Event::Launched), Action::AttachPlugin(Capability::Shell));
}

#[test]
fn run_loop_is_started_only_once() {
    let mut b = started();
    assert_eq!(b.step(Event::Launched), Action::Idle);
    assert_eq!(b.step(Event::PluginAttached(Capability::Shell)), Action::Idle);
    assert_eq!(b.step(Event::PluginAttached(Capability::Http)), Action::Idle);
    assert_eq!(b.stage(), Stage::Running);
    assert_eq!(b.attached_count(), 2);
}

#[test]
fn running_application_waits_then_exits() {
    let mut b = started();
    assert_eq!(b.step(Event::Launched), Action::Idle);
    assert_eq!(b.stage(), Stage::Running);
    assert_eq!(b.step(Event::RunLoopClosed), Action::Exit);
    assert_eq!(b.stage(), Stage::Exited);
    assert_eq!(b.step(Event::RunLoopClosed), Action::Idle);
    assert_eq!(b.step(Event::Launched), Action::Idle);
    assert_eq!(b.stage(), Stage::Exited);
}

#[test]
fn failed_run_loop_aborts() {
    let mut b = started();
    let err = "no display available".to_string();
    assert_eq!(b.step(Event::RunLoopFailed(err.clone())), Action::Abort(err));
    assert_eq!(b.stage(), Stage::Aborted);
    assert_eq!(b.step(Event::RunLoopClosed), Action::Idle);
    assert_eq!(b.step(Event::Launched), Action::Idle);
    assert_eq!(b.step(Event::PluginAttached(Capability::Shell)), Action::Idle);
    assert_eq!(b.stage(), Stage::Aborted);
}

#[test]
fn fatal_diagnostic_names_the_failure() {
    let d = fatal_diagnostic("invalid manifest");
    assert_eq!(d, "error while running Tauri application: invalid manifest");
    assert!(d.contains("error while running"));
}

#[test]
fn fatal_diagnostic_of_empty_error() {
    assert_eq!(fatal_diagnostic(""), "error while running Tauri application: ");
}
