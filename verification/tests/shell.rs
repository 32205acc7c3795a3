use ui_shell::shell::shell_config;
use ui_shell::shell::invoke;
use ui_shell::shell::step_of;
use ui_shell::shell::next_phase;
use ui_shell::shell::exit_of;
use ui_shell::shell::Command;
use ui_shell::shell::Plugin;
use ui_shell::shell::Phase;
use ui_shell::shell::Step;
use ui_shell::shell::Exit;

#[test]
fn config_registers_exactly_one_plugin_the_opener() {
    let config = shell_config();
    assert_eq!(config.plugins, vec![Plugin::Opener]);
}

#[test]
fn config_registers_exactly_the_two_endpoint_commands() {
    let config = shell_config();
    assert_eq!(config.commands, vec![Command::BackendUrl, Command::WsUrl]);
}

#[test]
fn config_carries_the_fixed_failure_message() {
    let config = shell_config();
    assert_eq!(config.failure_message, "error while running tauri application");
}

#[test]
fn configs_of_two_calls_are_identical() {
    let a = shell_config();
    let b = shell_config();
    assert_eq!(a.plugins, b.plugins);
    assert_eq!(a.commands, b.commands);
    assert_eq!(a.failure_message, b.failure_message);
}

#[test]
fn backend_url_command_yields_the_backend_url() {
    assert_eq!(invoke(Command::BackendUrl), "http://127.0.0.1:8080");
}

#[test]
fn ws_url_command_yields_the_event_stream_url() {
    assert_eq!(invoke(Command::WsUrl), "ws://127.0.0.1:8081/events");
}

#[test]
fn bootstrap_registers_before_it_starts_the_host() {
    let fresh = Phase::Fresh;
    assert_eq!(step_of(fresh), Step::RegisterPlugins);
    let plugins_done = next_phase(fresh);
    assert_eq!(step_of(plugins_done), Step::RegisterHandlers);
    let handlers_done = next_phase(plugins_done);
    assert_eq!(step_of(handlers_done), Step::RunHost);
    let host_done = next_phase(handlers_done);
    assert_eq!(step_of(host_done), Step::Done);
    assert_eq!(next_phase(host_done), Phase::HostDone);
}

#[test]
fn host_success_exits_normally() {
    assert!(matches!(exit_of(true), Exit::Normal));
}

#[test]
fn host_failure_aborts_with_the_fixed_message() {
    match exit_of(false) {
        Exit::Abort(message) => {
            assert_eq!(message, "error while running tauri application");
        }
        Exit::Normal => panic!("a host failure must not exit normally"),
    }
}
