use agent_hooks::config::default_timeout_ms;
use agent_hooks::HookConfig;
use agent_hooks::HookEvent;
use agent_hooks::HookHandler;
use agent_hooks::HookManager;
use agent_hooks::ShellHookExecutor;

const EVENTS: [(HookEvent, &str); 12] = [
    (HookEvent::BeforeTool, "before_tool"),
    (HookEvent::RunStarted, "run_started"),
    (HookEvent::TurnStarted, "turn_started"),
    (HookEvent::AssistantCompleted, "assistant_completed"),
    (HookEvent::ToolStarted, "tool_started"),
    (HookEvent::ToolFinished, "tool_finished"),
    (HookEvent::LlmCallStarted, "llm_call_started"),
    (HookEvent::LlmCallCompleted, "llm_call_completed"),
    (HookEvent::ContextCompactionStarted, "context_compaction_started"),
    (HookEvent::ContextCompactionCompleted, "context_compaction_completed"),
    (HookEvent::RunFinished, "run_finished"),
    (HookEvent::Error, "error"),
];

fn handler(event: HookEvent, tool: Option<&str>) -> HookHandler {
    HookHandler { event, tool: tool.map(|t| t.to_string()), command: "true".to_string() }
}

fn config(enabled: bool, handlers: Vec<HookHandler>) -> HookConfig {
    HookConfig { enabled, timeout_ms: 7, handlers }
}

#[test]
fn only_before_tool_decides() {
    for (event, _) in EVENTS {
        assert_eq!(event.is_decision_event(), event == HookEvent::BeforeTool);
    }
}

#[test]
fn events_have_snake_case_names() {
    for (event, name) in EVENTS {
        assert_eq!(event.json_name(), name);
    }
    for (i, (a, _)) in EVENTS.iter().enumerate() {
        for (j, (b, _)) in EVENTS.iter().enumerate() {
            assert_eq!(a.json_name() == b.json_name(), i == j);
        }
    }
}

#[test]
fn hooks_are_off_by_default() {
    assert_eq!(default_timeout_ms(), 5_000);
    assert_eq!(
        HookConfig::default(),
        HookConfig { enabled: false, timeout_ms: 5_000, handlers: Vec::new() }
    );
    assert!(!HookConfig::default().enabled_with_handlers());
}

#[test]
fn a_configuration_is_active_when_enabled_with_handlers() {
    let one = vec![handler(HookEvent::Error, None)];
    assert!(config(true, one.clone()).enabled_with_handlers());
    assert!(!config(false, one).enabled_with_handlers());
    assert!(!config(true, vec![]).enabled_with_handlers());
    assert!(!config(false, vec![]).enabled_with_handlers());
}

#[test]
fn managers_are_made_of_active_configurations_only() {
    let one = vec![handler(HookEvent::Error, None)];
    let manager = HookManager::new(config(true, one.clone())).expect("the configuration is active");
    let _: &ShellHookExecutor = manager.executor();
    assert!(HookManager::new(config(false, one.clone())).is_none());
    assert!(HookManager::new(config(true, vec![])).is_none());
    let executor = std::sync::Arc::new(5u8);
    let manager = HookManager::with_executor(config(true, one.clone()), executor.clone());
    assert_eq!(**manager.expect("the configuration is active").executor(), 5);
    assert!(HookManager::with_executor(config(false, one), executor.clone()).is_none());
    assert!(HookManager::with_executor(config(true, vec![]), executor).is_none());
}

#[test]
fn handlers_wait_for_their_event() {
    for (event, _) in EVENTS {
        for (other, _) in EVENTS {
            assert_eq!(handler(event, None).matches(other, Some("bash")), event == other);
            assert_eq!(handler(event, None).matches(other, None), event == other);
        }
    }
}

#[test]
fn the_wildcard_is_for_every_invocation() {
    let wildcard = handler(HookEvent::BeforeTool, Some("*"));
    assert!(wildcard.matches(HookEvent::BeforeTool, Some("bash")));
    assert!(wildcard.matches(HookEvent::BeforeTool, Some("*")));
    assert!(wildcard.matches(HookEvent::BeforeTool, Some("")));
    assert!(wildcard.matches(HookEvent::BeforeTool, None));
    assert!(!wildcard.matches(HookEvent::ToolStarted, Some("bash")));
}

#[test]
fn a_named_handler_is_for_its_tool() {
    let named = handler(HookEvent::BeforeTool, Some("bash"));
    assert!(named.matches(HookEvent::BeforeTool, Some("bash")));
    assert!(!named.matches(HookEvent::BeforeTool, Some("bas")));
    assert!(!named.matches(HookEvent::BeforeTool, Some("bash ")));
    assert!(!named.matches(HookEvent::BeforeTool, Some("Bash")));
    assert!(!named.matches(HookEvent::BeforeTool, Some("*")));
    assert!(!named.matches(HookEvent::BeforeTool, None));
    assert!(!named.matches(HookEvent::ToolStarted, Some("bash")));
    assert!(!handler(HookEvent::BeforeTool, Some("**")).matches(HookEvent::BeforeTool, Some("x")));
    assert!(handler(HookEvent::BeforeTool, Some("é")).matches(HookEvent::BeforeTool, Some("é")));
    assert!(!handler(HookEvent::BeforeTool, Some("é")).matches(HookEvent::BeforeTool, Some("è")));
    assert!(handler(HookEvent::BeforeTool, Some("")).matches(HookEvent::BeforeTool, Some("")));
    assert!(!handler(HookEvent::BeforeTool, Some("")).matches(HookEvent::BeforeTool, None));
}
