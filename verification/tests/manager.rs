use std::path::PathBuf;
use std::sync::Arc;

use agent_hooks::HookConfig;
use agent_hooks::HookError;
use agent_hooks::HookEvent;
use agent_hooks::HookHandler;
use agent_hooks::HookInvocation;
use agent_hooks::HookManager;
use agent_hooks::HookOutcome;
use agent_hooks::HookStep;
use serde_json::Value;

fn handler(event: HookEvent, tool: Option<&str>, command: &str) -> HookHandler {
    HookHandler { event, tool: tool.map(|t| t.to_string()), command: command.to_string() }
}

/// Replies as the command of the handler says.
fn reply(command: &str) -> Result<HookOutcome, HookError> {
    match command {
        "fail" => Err(HookError::Spawn("gone".to_string())),
        "slow" => Err(HookError::Timeout { timeout_ms: 20 }),
        "block" => Ok(HookOutcome::Block { reason: "blocked".to_string() }),
        "deny" => Ok(HookOutcome::Block { reason: "denied".to_string() }),
        _ => Ok(HookOutcome::Allow),
    }
}

/// The commands that are executed, and the outcome.
fn run(
    handlers: Vec<HookHandler>,
    event: HookEvent,
    tool: Option<&str>,
) -> (Vec<String>, HookOutcome) {
    let config = HookConfig { enabled: true, timeout_ms: 20, handlers };
    let manager = HookManager::with_executor(config, Arc::new(())).expect("active");
    let invocation = HookInvocation {
        event,
        cwd: PathBuf::new(),
        run_id: String::new(),
        session_id: String::new(),
        turn: 0,
        tool: tool.map(|t| t.to_string()),
        payload: Value::Null,
    };
    let mut executed = Vec::new();
    let mut step = manager.invoke(&invocation);
    loop {
        match step {
            HookStep::Done(outcome) => return (executed, outcome),
            HookStep::Execute(run) => {
                let command = run.handler().command.clone();
                let answer = reply(&command);
                assert_eq!(run.timeout_ms(), 20);
                assert_eq!(run.invocation().event, event);
                assert_eq!(run.invocation().tool.as_deref(), tool);
                assert_eq!(
                    run.passes_over(&answer),
                    answer.is_err() && event != HookEvent::BeforeTool
                );
                step = run.resume(answer);
                executed.push(command);
            }
        }
    }
}

fn block(reason: &str) -> HookOutcome {
    HookOutcome::Block { reason: reason.to_string() }
}

#[test]
fn only_concerned_handlers_run_and_in_order() {
    let before = HookEvent::BeforeTool;
    let handlers = vec![
        handler(HookEvent::RunStarted, None, "a"),
        handler(before, Some("edit"), "b"),
        handler(before, Some("bash"), "c"),
        handler(before, None, "d"),
        handler(HookEvent::ToolStarted, Some("*"), "e"),
        handler(before, Some("*"), "f"),
    ];
    let (executed, outcome) = run(handlers.clone(), before, Some("bash"));
    assert_eq!(executed, vec!["c", "d", "f"]);
    assert_eq!(outcome, HookOutcome::Allow);
    let (executed, outcome) = run(handlers.clone(), before, None);
    assert_eq!(executed, vec!["d", "f"]);
    assert_eq!(outcome, HookOutcome::Allow);
    let (executed, outcome) = run(handlers, HookEvent::Error, Some("bash"));
    assert!(executed.is_empty());
    assert_eq!(outcome, HookOutcome::Allow);
}

#[test]
fn the_first_block_settles_a_decision() {
    let before = HookEvent::BeforeTool;
    let handlers = vec![
        handler(before, None, "a"),
        handler(before, Some("other"), "deny"),
        handler(before, None, "block"),
        handler(before, None, "deny"),
        handler(before, None, "fail"),
    ];
    let (executed, outcome) = run(handlers, before, Some("bash"));
    assert_eq!(executed, vec!["a", "block"]);
    assert_eq!(outcome, block("blocked"));
}

#[test]
fn a_failure_blocks_where_hooks_decide() {
    let before = HookEvent::BeforeTool;
    let handlers = vec![
        handler(before, None, "a"),
        handler(before, None, "slow"),
        handler(before, None, "block"),
    ];
    let (executed, outcome) = run(handlers, before, Some("bash"));
    assert_eq!(executed, vec!["a", "slow"]);
    assert_eq!(outcome, block("Hook failed: hook command timed out after 20ms"));
    let (_, outcome) = run(vec![handler(before, None, "fail")], before, None);
    assert_eq!(outcome, block("Hook failed: hook command failed to spawn: gone"));
}

#[test]
fn failures_change_nothing_where_hooks_observe() {
    let started = HookEvent::RunStarted;
    let handlers = vec![
        handler(started, None, "fail"),
        handler(started, None, "slow"),
        handler(started, None, "a"),
        handler(started, None, "fail"),
    ];
    let (executed, outcome) = run(handlers, started, None);
    assert_eq!(executed, vec!["fail", "slow", "a", "fail"]);
    assert_eq!(outcome, HookOutcome::Allow);
}

#[test]
fn a_block_is_handed_on_where_hooks_observe() {
    let started = HookEvent::RunStarted;
    let handlers = vec![
        handler(started, None, "fail"),
        handler(started, None, "block"),
        handler(started, None, "a"),
    ];
    let (executed, outcome) = run(handlers, started, None);
    assert_eq!(executed, vec!["fail", "block"]);
    assert_eq!(outcome, block("blocked"));
}

#[test]
fn every_hook_has_to_allow_a_tool() {
    let before = HookEvent::BeforeTool;
    for commands in [
        ["a", "a"],
        ["a", "block"],
        ["block", "a"],
        ["fail", "a"],
        ["a", "fail"],
        ["slow", "block"],
    ] {
        let handlers = commands.iter().map(|c| handler(before, None, c)).collect();
        let (_, outcome) = run(handlers, before, Some("bash"));
        let all_allow = commands.iter().all(|c| matches!(reply(c), Ok(HookOutcome::Allow)));
        assert_eq!(outcome == HookOutcome::Allow, all_allow);
    }
}

/// The outcome, and at which handlers the invocation stood, where handlers reply as given.
fn course(event: HookEvent, replies: &[Result<HookOutcome, HookError>]) -> (Vec<usize>, HookOutcome) {
    let handlers = (0..replies.len()).map(|i| handler(event, None, &i.to_string())).collect();
    let config = HookConfig { enabled: true, timeout_ms: 1, handlers };
    let manager = HookManager::with_executor(config, Arc::new(())).expect("active").clone();
    let invocation = HookInvocation {
        event,
        cwd: PathBuf::new(),
        run_id: "r".to_string(),
        session_id: String::new(),
        turn: 0,
        tool: None,
        payload: Value::Null,
    };
    let mut executed = Vec::new();
    let mut step = manager.invoke(&invocation);
    loop {
        match step {
            HookStep::Done(outcome) => return (executed, outcome),
            HookStep::Execute(run) => {
                assert_eq!(run.invocation().run_id, "r");
                let index: usize = run.handler().command.parse().expect("an index");
                executed.push(index);
                step = run.resume(replies[index].clone());
            }
        }
    }
}

#[test]
fn failures_count_as_allowing_or_as_blocking() {
    let kinds = ["a", "fail", "slow", "block"];
    for x in kinds {
        for y in kinds {
            for z in kinds {
                let given: Vec<_> = [x, y, z].iter().map(|c| reply(c)).collect();
                let allowed: Vec<_> =
                    given.iter().map(|r| Ok(r.clone().unwrap_or(HookOutcome::Allow))).collect();
                let blocked: Vec<_> = given
                    .iter()
                    .map(|r| {
                        Ok(r.clone().unwrap_or_else(|e| block(&format!("Hook failed: {}", e.message()))))
                    })
                    .collect();
                let observing = HookEvent::TurnStarted;
                assert_eq!(course(observing, &given), course(observing, &allowed));
                let deciding = HookEvent::BeforeTool;
                assert_eq!(course(deciding, &given), course(deciding, &blocked));
            }
        }
    }
}
