//! Which hooks run, and when.

use crate::event::HookEvent;
use crate::text::same_text;
use vstd::prelude::*;

verus! {

/// The hooks of a run.
#[derive(Debug, Clone, PartialEq, Eq)]
pub struct HookConfig {
    /// Whether any hook runs at all.
    pub enabled: bool,
    /// How long one hook may take.
    pub timeout_ms: u64,
    /// The hooks, in the order in which they run.
    pub handlers: Vec<HookHandler>,
}

/// What a [`HookConfig`] says.
pub struct HookConfigView {
    pub enabled: bool,
    pub timeout_ms: u64,
    pub handlers: Seq<HookHandlerView>,
}

/// One hook: a command, and the moments at which it runs.
#[derive(Debug, Clone, PartialEq, Eq)]
pub struct HookHandler {
    /// The event that the hook waits for.
    pub event: HookEvent,
    /// The tool that the hook is for; without one, or with `*`, it is for every invocation.
    pub tool: Option<String>,
    /// The shell command that the hook runs.
    pub command: String,
}

/// What a [`HookHandler`] says.
pub struct HookHandlerView {
    pub event: HookEvent,
    pub tool: Option<Seq<char>>,
    pub command: Seq<char>,
}

impl View for HookHandler {
    type V = HookHandlerView;

    open spec fn view(&self) -> HookHandlerView {
        HookHandlerView {
            event: self.event,
            tool: crate::text::optional_owned(self.tool),
            command: self.command@,
        }
    }
}

impl View for HookConfig {
    type V = HookConfigView;

    open spec fn view(&self) -> HookConfigView {
        HookConfigView {
            enabled: self.enabled,
            timeout_ms: self.timeout_ms,
            handlers: self.handlers@.map_values(|h: HookHandler| h@),
        }
    }
}

impl HookConfigView {
    /// Whether the configuration can have any effect.
    pub open spec fn active(self) -> bool {
        self.enabled && self.handlers.len() > 0
    }
}

impl HookHandlerView {
    /// Whether the handler runs at an event that concerns a tool, or none.
    pub open spec fn applies(self, event: HookEvent, tool: Option<Seq<char>>) -> bool {
        &&& self.event == event
        &&& match self.tool {
            None => true,
            Some(pattern) => pattern == "*"@ || tool == Some(pattern),
        }
    }
}

impl HookConfig {
    /// Whether hooks are enabled and there is one.
    pub fn enabled_with_handlers(&self) -> (active: bool)
        ensures
            active == self@.active(),
            active == (self.enabled && self.handlers@.len() > 0),
    {
        self.enabled && self.handlers.len() != 0
    }
}

impl Default for HookConfig {
    fn default() -> (config: Self)
        ensures
            !config.enabled,
            config.timeout_ms == 5_000,
            config.handlers@.len() == 0,
    {
        HookConfig { enabled: false, timeout_ms: default_timeout_ms(), handlers: Vec::new() }
    }
}

/// How long one hook may take where the configuration does not say.
pub fn default_timeout_ms() -> (timeout_ms: u64)
    ensures
        timeout_ms == 5_000,
{
    5_000
}

impl HookHandler {
    /// Whether the handler runs at an event that concerns a tool, or none.
    pub fn matches(&self, event: HookEvent, tool: Option<&str>) -> (runs: bool)
        ensures
            runs == self@.applies(event, crate::text::optional(tool)),
            runs == (self.event == event && match self.tool {
                None => true,
                Some(pattern) => pattern@ == "*"@ || match tool {
                    Some(name) => pattern@ == name@,
                    None => false,
                },
            }),
    {
        if self.event != event {
            return false;
        }
        match &self.tool {
            None => true,
            Some(pattern) => {
                if same_text(pattern.as_str(), "*") {
                    true
                } else {
                    match tool {
                        Some(name) => same_text(pattern.as_str(), name),
                        None => false,
                    }
                }
            },
        }
    }
}

/// A handler for `*` runs exactly when a handler for the same event without a tool does.
pub proof fn wildcard_is_for_every_tool(
    wildcard: HookHandlerView,
    general: HookHandlerView,
    event: HookEvent,
    tool: Option<Seq<char>>,
)
    requires
        wildcard.tool == Some("*"@),
        general.tool is None,
        general.event == wildcard.event,
    ensures
        wildcard.applies(event, tool) == general.applies(event, tool),
        wildcard.applies(event, tool) == (wildcard.event == event),
{
}

/// A handler for one tool runs only where that very tool is concerned, and never where none is.
pub proof fn named_handler_is_for_its_tool(
    handler: HookHandlerView,
    pattern: Seq<char>,
    event: HookEvent,
    tool: Option<Seq<char>>,
)
    requires
        handler.tool == Some(pattern),
        pattern != "*"@,
    ensures
        handler.applies(event, tool) == (handler.event == event && tool == Some(pattern)),
        !handler.applies(event, None),
{
}

/// A handler's view says what its fields hold.
pub proof fn handlers_say_their_fields(handler: HookHandler)
    ensures
        handler@.event == handler.event,
        handler.tool is None ==> handler@.tool is None,
        handler.tool matches Some(tool) ==> handler@.tool == Some(tool@),
        handler@.command == handler.command@,
{
}

/// A configuration's view says what its fields hold: the same handlers, in the same order.
pub proof fn configurations_say_their_fields(config: HookConfig)
    ensures
        config@.enabled == config.enabled,
        config@.timeout_ms == config.timeout_ms,
        config@.handlers.len() == config.handlers@.len(),
        forall|i: int|
            0 <= i < config.handlers@.len() ==> #[trigger] config@.handlers[i]
                == config.handlers@[i]@,
{
}

/// A configuration is active if and only if it is enabled and has a handler, whatever the timeout
/// and whatever the handlers are.
pub proof fn active_means_enabled_with_handlers(config: HookConfigView)
    ensures
        config.active() <==> config.enabled && config.handlers.len() > 0,
{
}

/// Two configurations that agree in being enabled and in how many handlers they have are active
/// alike: neither the timeout nor what the handlers say matters.
pub proof fn timeouts_do_not_matter(a: HookConfigView, b: HookConfigView)
    requires
        a.enabled == b.enabled,
        a.handlers.len() == b.handlers.len(),
    ensures
        a.active() == b.active(),
{
}

/// A handler runs at its own event and no other; there it runs where it has no tool, where its tool
/// is `*`, and where its tool is the one that is concerned.
pub proof fn handlers_are_chosen_by_event_and_tool(
    handler: HookHandlerView,
    event: HookEvent,
    tool: Option<Seq<char>>,
)
    ensures
        handler.applies(event, tool) <==> handler.event == event && (handler.tool is None
            || handler.tool == Some("*"@) || handler.tool == tool),
{
}

} // verus!
