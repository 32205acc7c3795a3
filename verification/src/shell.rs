//! The decisions of the shell's bootstrap.
//!
//! The host runtime itself (windowing, plugin loading, the event loop) is
//! outside code that an unverified layer drives. Everything that layer
//! decides is fixed here instead: which plugins and command handlers the
//! shell registers, in what order the bootstrap proceeds, what each command
//! answers, and how the process exits once the host's event loop has ended.
//! The driver performs one outside step at a time and takes every choice
//! from these functions.

use vstd::prelude::*;
use crate::get_backend_url;
use crate::get_ws_url;
use crate::spec_backend_url;
use crate::spec_ws_url;

verus! {

/// A command the frontend can invoke over the host's bridge.
#[derive(Clone, Copy, Debug, PartialEq, Eq, Structural)]
pub enum Command {
    /// Asks for the backend HTTP base URL.
    BackendUrl,
    /// Asks for the event WebSocket URL.
    WsUrl,
}

/// A plugin the shell wires into the host.
#[derive(Clone, Copy, Debug, PartialEq, Eq, Structural)]
pub enum Plugin {
    /// The opener plugin: lets the frontend open files and URLs.
    Opener,
}

/// The characters of the message the shell aborts with when the host fails.
pub open spec fn spec_failure_message() -> Seq<char> {
    "error while running tauri application"@
}

/// The handler table: every command the shell registers, in registration order.
pub open spec fn spec_commands() -> Seq<Command> {
    seq![Command::BackendUrl, Command::WsUrl]
}

/// The plugins the shell registers, in registration order.
pub open spec fn spec_plugins() -> Seq<Plugin> {
    seq![Plugin::Opener]
}

/// Everything the bootstrap hands the host: the plugins, the handler table,
/// and the message for a host failure.
pub struct ShellConfig {
    /// Plugins to register, in order.
    pub plugins: Vec<Plugin>,
    /// Commands to expose to the frontend, in order.
    pub commands: Vec<Command>,
    /// Message to abort with when the host reports an error.
    pub failure_message: String,
}

impl ShellConfig {
    /// The one configuration the shell ever runs with: exactly one plugin
    /// (the opener), exactly the two endpoint commands, the fixed message.
    pub open spec fn wf(&self) -> bool {
        &&& self.plugins@ == spec_plugins()
        &&& self.commands@ == spec_commands()
        &&& self.failure_message@ == spec_failure_message()
    }
}

/// Builds the shell's configuration. Every call returns the same one.
pub fn shell_config() -> (c: ShellConfig)
    ensures
        c.wf(),
{
    let mut plugins: Vec<Plugin> = Vec::new();
    plugins.push(Plugin::Opener);
    let mut commands: Vec<Command> = Vec::new();
    commands.push(Command::BackendUrl);
    commands.push(Command::WsUrl);
    proof {
        assert(plugins@ =~= spec_plugins());
        assert(commands@ =~= spec_commands());
    }
    ShellConfig {
        plugins,
        commands,
        failure_message: String::from_str("error while running tauri application"),
    }
}

/// Any two well-formed configurations are the same one: the bootstrap hands
/// the host identical wiring on every run.
pub proof fn lemma_config_is_fixed(a: ShellConfig, b: ShellConfig)
    requires
        a.wf(),
        b.wf(),
    ensures
        a.plugins@ == b.plugins@,
        a.commands@ == b.commands@,
        a.failure_message@ == b.failure_message@,
{
}

/// What a command answers the frontend.
pub open spec fn spec_reply(c: Command) -> Seq<char> {
    match c {
        Command::BackendUrl => spec_backend_url(),
        Command::WsUrl => spec_ws_url(),
    }
}

/// Answers one invocation of a registered command: the backend URL for
/// `BackendUrl`, the event WebSocket URL for `WsUrl`.
pub fn invoke(c: Command) -> (r: String)
    ensures
        r@ == spec_reply(c),
{
    match c {
        Command::BackendUrl => get_backend_url(),
        Command::WsUrl => get_ws_url(),
    }
}

/// The phases of the bootstrap, in the order it passes them.
#[derive(Clone, Copy, Debug, PartialEq, Eq, Structural)]
pub enum Phase {
    /// Nothing registered yet.
    Fresh,
    /// Every plugin of the configuration is registered.
    PluginsRegistered,
    /// Plugins and command handlers are registered.
    HandlersRegistered,
    /// The host's event loop has run and returned.
    HostDone,
}

/// The outside step the driver owes in a given phase.
#[derive(Clone, Copy, Debug, PartialEq, Eq, Structural)]
pub enum Step {
    /// Register every plugin of the configuration, in order.
    RegisterPlugins,
    /// Register every command of the configuration, in order.
    RegisterHandlers,
    /// Hand control to the host's event loop until it ends.
    RunHost,
    /// Nothing is left to do.
    Done,
}

/// The step owed in each phase: registrations first, the host last.
pub open spec fn spec_step_of(p: Phase) -> Step {
    match p {
        Phase::Fresh => Step::RegisterPlugins,
        Phase::PluginsRegistered => Step::RegisterHandlers,
        Phase::HandlersRegistered => Step::RunHost,
        Phase::HostDone => Step::Done,
    }
}

/// The phase after a phase's step is performed.
pub open spec fn spec_next_phase(p: Phase) -> Phase {
    match p {
        Phase::Fresh => Phase::PluginsRegistered,
        Phase::PluginsRegistered => Phase::HandlersRegistered,
        Phase::HandlersRegistered => Phase::HostDone,
        Phase::HostDone => Phase::HostDone,
    }
}

/// Tells the driver what to do next in phase `p`.
pub fn step_of(p: Phase) -> (s: Step)
    ensures
        s == spec_step_of(p),
{
    match p {
        Phase::Fresh => Step::RegisterPlugins,
        Phase::PluginsRegistered => Step::RegisterHandlers,
        Phase::HandlersRegistered => Step::RunHost,
        Phase::HostDone => Step::Done,
    }
}

/// Advances the bootstrap once the owed step is performed.
pub fn next_phase(p: Phase) -> (n: Phase)
    ensures
        n == spec_next_phase(p),
{
    match p {
        Phase::Fresh => Phase::PluginsRegistered,
        Phase::PluginsRegistered => Phase::HandlersRegistered,
        Phase::HandlersRegistered => Phase::HostDone,
        Phase::HostDone => Phase::HostDone,
    }
}

/// Registration precedes startup: from a fresh shell the steps come in the
/// order plugins, handlers, host, and the host runs in no other phase.
pub proof fn lemma_registration_precedes_startup()
    ensures
        spec_step_of(Phase::Fresh) == Step::RegisterPlugins,
        spec_step_of(spec_next_phase(Phase::Fresh)) == Step::RegisterHandlers,
        spec_step_of(spec_next_phase(spec_next_phase(Phase::Fresh))) == Step::RunHost,
        forall|p: Phase| spec_step_of(p) == Step::RunHost ==> p == Phase::HandlersRegistered,
{
}

/// How the shell leaves once the host's event loop has ended.
pub enum Exit {
    /// The host finished without error: return normally.
    Normal,
    /// The host reported an error: abort with this message.
    Abort(String),
}

/// Decides the shell's exit from the host's outcome: a normal return exactly
/// when the host finished without error, else an abort with the fixed message.
pub fn exit_of(host_ok: bool) -> (e: Exit)
    ensures
        host_ok <==> e is Normal,
        !host_ok ==> (e matches Exit::Abort(m) && m@ == spec_failure_message()),
{
    if host_ok {
        Exit::Normal
    } else {
        Exit::Abort(String::from_str("error while running tauri application"))
    }
}

} // verus!
