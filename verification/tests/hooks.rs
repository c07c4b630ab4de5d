use std::cell::RefCell;
use std::path::PathBuf;
use std::sync::Arc;

use agent_hooks::shell::ChildOutput;
use agent_hooks::shell::WaitReply;
use agent_hooks::HookConfig;
use agent_hooks::HookDecision;
use agent_hooks::HookError;
use agent_hooks::HookEvent;
use agent_hooks::HookHandler;
use agent_hooks::HookInvocation;
use agent_hooks::HookManager;
use agent_hooks::HookOutcome;
use agent_hooks::HookStep;
use agent_hooks::ShellHookExecutor;
use agent_hooks::ShellStep;
use serde_json::Value;

/// Executes handlers for a test.
trait Executor {
    fn execute(&self, handler: &HookHandler) -> Result<HookOutcome, HookError>;
}

struct FixedHookExecutor {
    outcome: HookOutcome,
    calls: RefCell<usize>,
}

impl Executor for FixedHookExecutor {
    fn execute(&self, _handler: &HookHandler) -> Result<HookOutcome, HookError> {
        *self.calls.borrow_mut() += 1;
        Ok(self.outcome.clone())
    }
}

struct RecordingHookExecutor {
    calls: RefCell<Vec<String>>,
}

impl Executor for RecordingHookExecutor {
    fn execute(&self, handler: &HookHandler) -> Result<HookOutcome, HookError> {
        self.calls.borrow_mut().push(handler.command.clone());
        if handler.command == "fail" {
            return Err(HookError::Status {
                status: "1".to_string(),
                stderr: "lifecycle failed".to_string(),
            });
        }
        Ok(HookOutcome::Allow)
    }
}

fn run<E: Executor + ?Sized>(manager: &HookManager<E>, invocation: &HookInvocation) -> HookOutcome {
    let mut step = manager.invoke(invocation);
    loop {
        match step {
            HookStep::Done(outcome) => return outcome,
            HookStep::Execute(run) => {
                let reply = manager.executor().execute(run.handler());
                step = run.resume(reply);
            }
        }
    }
}

fn object(members: Vec<(&str, Value)>) -> Value {
    let mut map = serde_json::Map::new();
    for (name, value) in members {
        map.insert(name.to_string(), value);
    }
    Value::Object(map)
}

fn text(value: &str) -> Value {
    Value::String(value.to_string())
}

fn parse(json: &str) -> Result<HookDecision, String> {
    let value: Value = serde_json::from_str(json).map_err(|e| e.to_string())?;
    match value["decision"].as_str() {
        Some("allow") => Ok(HookDecision::Allow),
        Some("block") => match value["reason"].as_str() {
            Some(reason) => Ok(HookDecision::Block { reason: reason.to_string() }),
            None => Err("missing field `reason`".to_string()),
        },
        _ => Err("no decision".to_string()),
    }
}

fn hook_manager(outcome: HookOutcome) -> HookManager<FixedHookExecutor> {
    let config = HookConfig {
        enabled: true,
        timeout_ms: 1_000,
        handlers: vec![HookHandler {
            event: HookEvent::BeforeTool,
            tool: Some("mock_tool".to_string()),
            command: "unused".to_string(),
        }],
    };
    let executor = FixedHookExecutor { outcome, calls: RefCell::new(0) };
    HookManager::with_executor(config, Arc::new(executor)).expect("hook manager disabled")
}

/// Runs a tool unless the hooks block it; the result is the text of the tool, or the error.
fn run_tool(
    manager: &HookManager<FixedHookExecutor>,
    tool_calls: &mut usize,
) -> Result<String, String> {
    let invocation = HookInvocation {
        event: HookEvent::BeforeTool,
        cwd: PathBuf::new(),
        run_id: "run-test".to_string(),
        session_id: "session-test".to_string(),
        turn: 1,
        tool: Some("mock_tool".to_string()),
        payload: object(vec![]),
    };
    match run(manager, &invocation) {
        HookOutcome::Allow => {
            *tool_calls += 1;
            Ok("tool ran".to_string())
        }
        HookOutcome::Block { reason } => Err(reason),
    }
}

#[test]
fn before_tool_allow_runs_tool() {
    let manager = hook_manager(HookOutcome::Allow);
    let mut tool_calls: usize = 0;
    let result = run_tool(&manager, &mut tool_calls);
    assert_eq!(*manager.executor().calls.borrow(), 1);
    assert_eq!(tool_calls, 1);
    assert_eq!(result, Ok("tool ran".to_string()));
}

#[test]
fn before_tool_block_skips_tool_and_returns_error() {
    let manager = hook_manager(HookOutcome::Block { reason: "blocked by test hook".to_string() });
    let mut tool_calls: usize = 0;
    let result = run_tool(&manager, &mut tool_calls);
    let blocked = matches!(&result, Err(text) if text.contains("blocked by test hook"));
    assert_eq!(*manager.executor().calls.borrow(), 1);
    assert_eq!(tool_calls, 0);
    assert!(blocked);
}

#[test]
fn shell_hook_executor_sends_json_on_stdin() {
    let handler = HookHandler {
        event: HookEvent::BeforeTool,
        tool: Some("*".to_string()),
        command: "sh hook.sh".to_string(),
    };
    let invocation = HookInvocation {
        event: HookEvent::BeforeTool,
        cwd: PathBuf::from("/tmp/hooks"),
        run_id: "run".to_string(),
        session_id: "session".to_string(),
        turn: 2,
        tool: Some("bash".to_string()),
        payload: object(vec![("input", object(vec![("command", text("date"))]))]),
    };
    let executor = ShellHookExecutor;

    let stage = match executor.execute(&handler, &invocation, 1_000) {
        ShellStep::Spawn(stage) => stage,
        step => panic!("{step:?}"),
    };
    assert_eq!(stage.command.program, "sh");
    assert_eq!(stage.command.args, vec!["-c".to_string(), "sh hook.sh".to_string()]);
    assert_eq!(stage.command.cwd, PathBuf::from("/tmp/hooks"));
    let stage = match stage.spawned(Ok(true)) {
        ShellStep::Write(stage) => stage,
        step => panic!("{step:?}"),
    };
    let input = stage.input.clone();
    let stage = match stage.written(Ok(())) {
        ShellStep::Wait(stage) => stage,
        step => panic!("{step:?}"),
    };
    let output = ChildOutput {
        success: true,
        code: Some(0),
        stdout: b"{\"decision\":\"allow\"}".to_vec(),
        stderr: Vec::new(),
    };
    let stage = match stage.waited(WaitReply::Finished(output)) {
        ShellStep::Parse(stage) => stage,
        step => panic!("{step:?}"),
    };
    let decision = parse(&stage.text);
    let outcome = match stage.parsed(decision) {
        ShellStep::Done(reply) => reply.expect("the hook answered"),
        step => panic!("{step:?}"),
    };
    let parsed: Value = serde_json::from_slice(&input).expect("the input is JSON");

    assert_eq!(outcome, HookOutcome::Allow);
    assert_eq!(parsed["event"], "before_tool");
    assert_eq!(parsed["tool"], "bash");
    assert_eq!(parsed["cwd"], "/tmp/hooks");
    assert_eq!(parsed["run_id"], "run");
    assert_eq!(parsed["session_id"], "session");
    assert_eq!(parsed["turn"], 2);
    assert_eq!(parsed["payload"], invocation.payload);
}

#[test]
fn shell_hook_executor_blocks_invalid_decision_json() {
    let handler = HookHandler {
        event: HookEvent::BeforeTool,
        tool: Some("*".to_string()),
        command: "printf not-json".to_string(),
    };
    let invocation = HookInvocation {
        event: HookEvent::BeforeTool,
        cwd: PathBuf::from("/tmp/hooks"),
        run_id: "run".to_string(),
        session_id: "session".to_string(),
        turn: 0,
        tool: Some("bash".to_string()),
        payload: object(vec![]),
    };
    let executor = ShellHookExecutor;
    let mut step = executor.execute(&handler, &invocation, 1_000);
    let result = loop {
        step = match step {
            ShellStep::Spawn(stage) => stage.spawned(Ok(true)),
            ShellStep::Write(stage) => stage.written(Ok(())),
            ShellStep::Wait(stage) => stage.waited(WaitReply::Finished(ChildOutput {
                success: true,
                code: Some(0),
                stdout: b"not-json".to_vec(),
                stderr: Vec::new(),
            })),
            ShellStep::Parse(stage) => {
                assert_eq!(stage.text, "not-json");
                let decision = parse(&stage.text);
                stage.parsed(decision)
            }
            ShellStep::Done(reply) => break reply,
        };
    };
    assert!(matches!(result, Err(HookError::InvalidJson(_))));
}

#[test]
fn lifecycle_handlers_run_in_order_and_continue_after_error() {
    let config = HookConfig {
        enabled: true,
        timeout_ms: 1_000,
        handlers: vec![
            HookHandler {
                event: HookEvent::RunFinished,
                tool: None,
                command: "first".to_string(),
            },
            HookHandler {
                event: HookEvent::RunFinished,
                tool: None,
                command: "fail".to_string(),
            },
            HookHandler {
                event: HookEvent::RunFinished,
                tool: None,
                command: "last".to_string(),
            },
        ],
    };
    let executor = RecordingHookExecutor { calls: RefCell::new(Vec::new()) };
    let manager =
        HookManager::with_executor(config, Arc::new(executor)).expect("hook manager disabled");

    let outcome = run(
        &manager,
        &HookInvocation {
            event: HookEvent::RunFinished,
            cwd: PathBuf::new(),
            run_id: "run".to_string(),
            session_id: "session".to_string(),
            turn: 1,
            tool: None,
            payload: object(vec![("text", text("done"))]),
        },
    );

    let recorded = manager.executor().calls.borrow().clone();
    assert_eq!(outcome, HookOutcome::Allow);
    assert_eq!(
        recorded,
        vec!["first".to_string(), "fail".to_string(), "last".to_string()]
    );
}

#[test]
fn an_executor_behind_a_trait_object_is_run() {
    let executor: Arc<dyn Executor> =
        Arc::new(RecordingHookExecutor { calls: RefCell::new(Vec::new()) });
    let config = HookConfig {
        enabled: true,
        timeout_ms: 1_000,
        handlers: vec![HookHandler {
            event: HookEvent::BeforeTool,
            tool: None,
            command: "fail".to_string(),
        }],
    };
    let manager = HookManager::with_executor(config, executor).expect("hook manager disabled");
    let outcome = run(
        &manager.clone(),
        &HookInvocation {
            event: HookEvent::BeforeTool,
            cwd: PathBuf::new(),
            run_id: String::new(),
            session_id: String::new(),
            turn: 0,
            tool: Some("bash".to_string()),
            payload: Value::Null,
        },
    );
    assert_eq!(
        outcome,
        HookOutcome::Block {
            reason: "Hook failed: hook command exited with status 1: lifecycle failed".to_string(),
        }
    );
}
