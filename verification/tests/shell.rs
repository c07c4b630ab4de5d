use std::path::PathBuf;

use agent_hooks::shell::ChildOutput;
use agent_hooks::shell::WaitReply;
use agent_hooks::HookDecision;
use agent_hooks::HookError;
use agent_hooks::HookEvent;
use agent_hooks::HookHandler;
use agent_hooks::HookInvocation;
use agent_hooks::HookOutcome;
use agent_hooks::ShellHookExecutor;
use agent_hooks::ShellStep;
use serde_json::Value;

/// What the outside world answers.
struct World {
    spawn: Result<bool, String>,
    write: Result<(), String>,
    wait: WaitReply,
    parse: Result<HookDecision, String>,
}

/// What a hook came to, the stages that it went through and the text that was parsed.
struct Course {
    reply: Result<HookOutcome, HookError>,
    stages: Vec<&'static str>,
    parsed: Option<String>,
}

fn finished(success: bool, code: Option<i32>, stdout: &[u8], stderr: &[u8]) -> WaitReply {
    WaitReply::Finished(ChildOutput {
        success,
        code,
        stdout: stdout.to_vec(),
        stderr: stderr.to_vec(),
    })
}

fn world(wait: WaitReply) -> World {
    World { spawn: Ok(true), write: Ok(()), wait, parse: Ok(HookDecision::Allow) }
}

fn invocation(event: HookEvent) -> HookInvocation {
    HookInvocation {
        event,
        cwd: PathBuf::from("/"),
        run_id: "run".to_string(),
        session_id: "session".to_string(),
        turn: 1,
        tool: None,
        payload: Value::Null,
    }
}

fn run(event: HookEvent, timeout_ms: u128, world: World) -> Course {
    let handler = HookHandler { event, tool: None, command: "check".to_string() };
    let invocation = invocation(event);
    let mut step = ShellHookExecutor.execute(&handler, &invocation, timeout_ms);
    let mut stages = Vec::new();
    let mut parsed = None;
    let World { spawn, write, wait, parse } = world;
    if let ShellStep::Spawn(stage) = step {
        stages.push("spawn");
        assert_eq!(stage.input, invocation.to_json().expect("Unicode").into_bytes());
        step = stage.spawned(spawn);
    }
    if let ShellStep::Write(stage) = step {
        stages.push("write");
        assert_eq!(stage.input, invocation.to_json().expect("Unicode").into_bytes());
        step = stage.written(write);
    }
    if let ShellStep::Wait(stage) = step {
        stages.push("wait");
        step = stage.waited(wait);
    }
    if let ShellStep::Parse(stage) = step {
        stages.push("parse");
        parsed = Some(stage.text.clone());
        step = stage.parsed(parse);
    }
    match step {
        ShellStep::Done(reply) => Course { reply, stages, parsed },
        step => panic!("{step:?}"),
    }
}

fn message(course: &Course) -> String {
    match &course.reply {
        Ok(outcome) => panic!("{outcome:?}"),
        Err(error) => error.message(),
    }
}

#[test]
fn a_command_that_cannot_be_started_fails() {
    let mut outside = world(WaitReply::TimedOut);
    outside.spawn = Err("No such file or directory (os error 2)".to_string());
    let course = run(HookEvent::BeforeTool, 10, outside);
    assert!(matches!(&course.reply, Err(HookError::Spawn(_))));
    assert_eq!(
        message(&course),
        "hook command failed to spawn: No such file or directory (os error 2)"
    );
    assert_eq!(course.stages, vec!["spawn"]);
}

#[test]
fn input_that_cannot_be_written_fails() {
    let mut outside = world(WaitReply::TimedOut);
    outside.write = Err("Broken pipe (os error 32)".to_string());
    let course = run(HookEvent::RunStarted, 10, outside);
    assert!(matches!(&course.reply, Err(HookError::Spawn(_))));
    assert_eq!(message(&course), "hook command failed to spawn: Broken pipe (os error 32)");
    assert_eq!(course.stages, vec!["spawn", "write"]);
}

#[test]
fn a_command_without_standard_input_is_awaited_at_once() {
    let mut outside = world(finished(true, Some(0), b"", b""));
    outside.spawn = Ok(false);
    outside.write = Err("never asked".to_string());
    let course = run(HookEvent::RunStarted, 10, outside);
    assert_eq!(course.reply.expect("the hook completed"), HookOutcome::Allow);
    assert_eq!(course.stages, vec!["spawn", "wait"]);
}

#[test]
fn a_failed_wait_is_reported() {
    let course =
        run(HookEvent::BeforeTool, 10, world(WaitReply::Failed("lost the child".to_string())));
    assert!(matches!(&course.reply, Err(HookError::Spawn(_))));
    assert_eq!(message(&course), "hook command failed to spawn: lost the child");
}

#[test]
fn a_slow_command_is_reported_with_its_timeout() {
    for event in [HookEvent::BeforeTool, HookEvent::RunFinished] {
        let course = run(event, 1_500, world(WaitReply::TimedOut));
        assert!(matches!(course.reply, Err(HookError::Timeout { timeout_ms: 1_500 })));
        assert_eq!(message(&course), "hook command timed out after 1500ms");
    }
    let course = run(HookEvent::Error, u64::MAX as u128, world(WaitReply::TimedOut));
    assert!(matches!(course.reply, Err(HookError::Timeout { timeout_ms: u64::MAX })));
    let course = run(HookEvent::Error, u64::MAX as u128 + 3, world(WaitReply::TimedOut));
    assert!(matches!(course.reply, Err(HookError::Timeout { timeout_ms: 2 })));
}

#[test]
fn a_bad_end_is_reported_with_code_and_error_output() {
    for event in [HookEvent::BeforeTool, HookEvent::RunFinished] {
        let outside =
            world(finished(false, Some(3), b"{\"decision\":\"allow\"}", b"\n  went wrong \n\n"));
        let course = run(event, 10, outside);
        assert_eq!(message(&course), "hook command exited with status 3: went wrong");
        assert_eq!(course.stages, vec!["spawn", "write", "wait"]);
        match course.reply {
            Err(HookError::Status { status, stderr }) => {
                assert_eq!(status, "3");
                assert_eq!(stderr, "went wrong");
            }
            reply => panic!("{reply:?}"),
        }
    }
    let course = run(HookEvent::Error, 10, world(finished(false, Some(-1), b"", b"")));
    assert_eq!(message(&course), "hook command exited with status -1: ");
    let course = run(HookEvent::Error, 10, world(finished(false, None, b"", b"killed")));
    assert_eq!(message(&course), "hook command exited with status signal: killed");
}

#[test]
fn output_that_is_not_utf8_is_replaced() {
    let course = run(HookEvent::Error, 10, world(finished(false, Some(1), b"", b" a\xffb ")));
    assert_eq!(message(&course), "hook command exited with status 1: a\u{fffd}b");
    let course = run(HookEvent::BeforeTool, 10, world(finished(true, Some(0), b"\xc3\xa9\n", b"")));
    assert_eq!(course.parsed, Some("é".to_string()));
    let course = run(HookEvent::BeforeTool, 10, world(finished(true, Some(0), b"\xe2\x82 ", b"")));
    assert_eq!(course.parsed, Some("\u{fffd}".to_string()));
}

#[test]
fn a_deciding_command_answers_on_its_standard_output() {
    let outside = world(finished(true, Some(0), b"  {\"decision\":\"allow\"}\n", b"noise"));
    let course = run(HookEvent::BeforeTool, 10, outside);
    assert_eq!(course.parsed, Some("{\"decision\":\"allow\"}".to_string()));
    assert_eq!(course.reply.expect("the hook answered"), HookOutcome::Allow);
    assert_eq!(course.stages, vec!["spawn", "write", "wait", "parse"]);

    let mut outside = world(finished(true, Some(0), b"{}", b""));
    outside.parse = Ok(HookDecision::Block { reason: "not today".to_string() });
    let course = run(HookEvent::BeforeTool, 10, outside);
    assert_eq!(
        course.reply.expect("the hook answered"),
        HookOutcome::Block { reason: "not today".to_string() }
    );

    let mut outside = world(finished(true, Some(0), b"", b""));
    outside.parse = Err("EOF while parsing a value at line 1 column 0".to_string());
    let course = run(HookEvent::BeforeTool, 10, outside);
    assert_eq!(course.parsed, Some(String::new()));
    assert!(matches!(&course.reply, Err(HookError::InvalidJson(_))));
    assert_eq!(
        message(&course),
        "hook command returned invalid JSON: EOF while parsing a value at line 1 column 0"
    );
}

#[test]
fn an_observing_command_is_not_listened_to() {
    for event in [
        HookEvent::RunStarted,
        HookEvent::TurnStarted,
        HookEvent::AssistantCompleted,
        HookEvent::ToolStarted,
        HookEvent::ToolFinished,
        HookEvent::LlmCallStarted,
        HookEvent::LlmCallCompleted,
        HookEvent::ContextCompactionStarted,
        HookEvent::ContextCompactionCompleted,
        HookEvent::RunFinished,
        HookEvent::Error,
    ] {
        let mut outside =
            world(finished(true, Some(0), b"{\"decision\":\"block\",\"reason\":\"no\"}", b""));
        outside.parse = Ok(HookDecision::Block { reason: "no".to_string() });
        let course = run(event, 10, outside);
        assert_eq!(course.reply.expect("the hook completed"), HookOutcome::Allow);
        assert_eq!(course.parsed, None);
    }
}

#[test]
fn decoded_output_decides_on_the_next_step() {
    let handler =
        HookHandler { event: HookEvent::BeforeTool, tool: None, command: "check".to_string() };
    let step = ShellHookExecutor.execute(&handler, &invocation(HookEvent::BeforeTool), 9);
    let stage = match step {
        ShellStep::Spawn(stage) => match stage.spawned(Ok(false)) {
            ShellStep::Wait(stage) => stage,
            step => panic!("{step:?}"),
        },
        step => panic!("{step:?}"),
    };
    assert_eq!(stage.timeout_ms, 9);
    match stage.exited(true, Some(0), " yes ", "no") {
        ShellStep::Parse(stage) => assert_eq!(stage.text, "yes"),
        step => panic!("{step:?}"),
    }
}

#[test]
fn a_document_that_cannot_be_written_starts_nothing() {
    let mut name = PathBuf::new().into_os_string();
    assert!(name.is_empty());
    name = serde_json::from_str("{\"Unix\":[255]}").expect("a name of one byte");
    let mut odd = invocation(HookEvent::BeforeTool);
    odd.cwd = PathBuf::from(name);
    let handler =
        HookHandler { event: HookEvent::BeforeTool, tool: None, command: "check".to_string() };
    match ShellHookExecutor.execute(&handler, &odd, 10) {
        ShellStep::Done(Err(HookError::InvalidJson(cause))) => {
            assert_eq!(cause, "path contains invalid UTF-8 characters");
        }
        step => panic!("{step:?}"),
    }
}
