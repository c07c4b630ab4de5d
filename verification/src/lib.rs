//! Hooks that observe an agent's run and decide whether its tools may act.
//!
//! A [`HookConfig`] lists handlers, each a command with the event that it waits for. At an event a
//! [`HookManager`] takes the handlers that are for the [`HookInvocation`] in order and says what
//! is to be executed next, until the [`HookOutcome`] is settled. A [`ShellHookExecutor`] does the
//! same for one handler's command.

pub mod config;
pub mod event;
pub mod invocation;
pub mod json;
pub mod laws;
pub mod manager;
pub mod outcome;
pub mod shell;
pub mod text;

pub use config::HookConfig;
pub use config::HookHandler;
pub use event::HookEvent;
pub use invocation::HookInvocation;
pub use invocation::HookRunContext;
pub use manager::HookManager;
pub use manager::HookRun;
pub use manager::HookStep;
pub use outcome::HookDecision;
pub use outcome::HookError;
pub use outcome::HookOutcome;
pub use shell::ShellHookExecutor;
pub use shell::ShellStep;
