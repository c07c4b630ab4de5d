//! Hooks that are shell commands.
//!
//! Running such a hook takes turns with the outside world: a process is started, its standard
//! input is written, its end is awaited and its answer is parsed. Each of these is a stage that
//! says what is to be done; what came of it decides on the next step.

use crate::config::HookHandler;
use crate::config::HookHandlerView;
use crate::event::HookEvent;
use crate::invocation::HookInvocation;
use crate::invocation::HookInvocationView;
use crate::outcome::HookDecision;
use crate::outcome::HookDecisionView;
use crate::outcome::HookError;
use crate::outcome::HookErrorView;
use crate::outcome::HookOutcome;
use crate::outcome::HookOutcomeView;
use crate::outcome::HookReply;
use crate::outcome::HookReplyView;
use crate::text::decode_lossy;
use crate::text::signed_decimal_text;
use crate::text::trim_text;
use vstd::prelude::*;
use vstd::string::StrSliceExecFns;

verus! {

/// Runs hooks as shell commands.
#[derive(Debug, Default)]
pub struct ShellHookExecutor;

/// The process that a hook runs in.
#[derive(Debug)]
pub struct ShellCommand {
    pub program: String,
    pub args: Vec<String>,
    pub cwd: std::path::PathBuf,
}

/// What a [`ShellCommand`] says.
pub struct ShellCommandView {
    pub program: Seq<char>,
    pub args: Seq<Seq<char>>,
    pub cwd: std::path::PathBuf,
}

impl View for ShellCommand {
    type V = ShellCommandView;

    open spec fn view(&self) -> ShellCommandView {
        ShellCommandView {
            program: self.program@,
            args: self.args@.map_values(|arg: String| arg@),
            cwd: self.cwd,
        }
    }
}

/// How a process ended, and what it wrote.
#[derive(Debug)]
pub struct ChildOutput {
    /// Whether the process ended well.
    pub success: bool,
    /// The exit code; there is none where a signal ended the process.
    pub code: Option<i32>,
    pub stdout: Vec<u8>,
    pub stderr: Vec<u8>,
}

/// What a [`ChildOutput`] says.
pub struct ChildOutputView {
    pub success: bool,
    pub code: Option<i32>,
    pub stdout: Seq<u8>,
    pub stderr: Seq<u8>,
}

impl View for ChildOutput {
    type V = ChildOutputView;

    open spec fn view(&self) -> ChildOutputView {
        ChildOutputView {
            success: self.success,
            code: self.code,
            stdout: self.stdout@,
            stderr: self.stderr@,
        }
    }
}

/// What came of waiting for a process.
#[derive(Debug)]
pub enum WaitReply {
    /// The process ended in time.
    Finished(ChildOutput),
    /// Waiting failed, for the cause given.
    Failed(String),
    /// The process was not done in time.
    TimedOut,
}

/// What a [`WaitReply`] says.
pub enum WaitReplyView {
    Finished(ChildOutputView),
    Failed(Seq<char>),
    TimedOut,
}

impl View for WaitReply {
    type V = WaitReplyView;

    open spec fn view(&self) -> WaitReplyView {
        match self {
            WaitReply::Finished(output) => WaitReplyView::Finished(output@),
            WaitReply::Failed(cause) => WaitReplyView::Failed(cause@),
            WaitReply::TimedOut => WaitReplyView::TimedOut,
        }
    }
}

/// A process is to be started, with its standard streams piped.
#[derive(Debug)]
pub struct SpawnStage {
    pub command: ShellCommand,
    /// What the process is to read on its standard input.
    pub input: Vec<u8>,
    pub event: HookEvent,
    pub timeout_ms: u64,
}

/// The input is to be written to the process and its standard input closed.
#[derive(Debug)]
pub struct WriteStage {
    pub input: Vec<u8>,
    pub event: HookEvent,
    pub timeout_ms: u64,
}

/// The end of the process is to be awaited, for the timeout at most.
#[derive(Debug)]
pub struct WaitStage {
    pub event: HookEvent,
    pub timeout_ms: u64,
}

/// A text is to be parsed as a [`HookDecision`] in JSON.
#[derive(Debug)]
pub struct ParseStage {
    pub text: String,
}

/// What is to be done next for a hook, or what it came to.
#[derive(Debug)]
pub enum ShellStep {
    Spawn(SpawnStage),
    Write(WriteStage),
    Wait(WaitStage),
    Parse(ParseStage),
    Done(HookReply),
}

/// What a [`ShellStep`] says.
pub enum ShellStepView {
    Spawn { command: ShellCommandView, input: Seq<u8>, event: HookEvent, timeout_ms: u64 },
    Write { input: Seq<u8>, event: HookEvent, timeout_ms: u64 },
    Wait { event: HookEvent, timeout_ms: u64 },
    Parse { text: Seq<char> },
    Done(HookReplyView),
}

impl View for ShellStep {
    type V = ShellStepView;

    open spec fn view(&self) -> ShellStepView {
        match self {
            ShellStep::Spawn(stage) => ShellStepView::Spawn {
                command: stage.command@,
                input: stage.input@,
                event: stage.event,
                timeout_ms: stage.timeout_ms,
            },
            ShellStep::Write(stage) => ShellStepView::Write {
                input: stage.input@,
                event: stage.event,
                timeout_ms: stage.timeout_ms,
            },
            ShellStep::Wait(stage) => ShellStepView::Wait {
                event: stage.event,
                timeout_ms: stage.timeout_ms,
            },
            ShellStep::Parse(stage) => ShellStepView::Parse { text: stage.text@ },
            ShellStep::Done(reply) => ShellStepView::Done(crate::outcome::reply_view(*reply)),
        }
    }
}

/// The process that runs a shell command in a directory.
pub open spec fn shell_command(command: Seq<char>, cwd: std::path::PathBuf) -> ShellCommandView {
    ShellCommandView { program: "sh"@, args: seq!["-c"@, command], cwd }
}

/// The first step of running a hook.
pub open spec fn first_step(
    handler: HookHandlerView,
    invocation: HookInvocationView,
    timeout_ms: u128,
) -> ShellStepView {
    match invocation.json() {
        Ok(document) => ShellStepView::Spawn {
            command: shell_command(handler.command, invocation.cwd),
            input: vstd::utf8::encode_utf8(document),
            event: invocation.event,
            timeout_ms: (timeout_ms % 0x1_0000_0000_0000_0000) as u64,
        },
        Err(error) => ShellStepView::Done(Err(error)),
    }
}

/// The step after a process was started, with its standard input open or not, or was not.
pub open spec fn after_spawn(
    input: Seq<u8>,
    event: HookEvent,
    timeout_ms: u64,
    reply: Result<bool, Seq<char>>,
) -> ShellStepView {
    match reply {
        Ok(true) => ShellStepView::Write { input, event, timeout_ms },
        Ok(false) => ShellStepView::Wait { event, timeout_ms },
        Err(cause) => ShellStepView::Done(Err(HookErrorView::Spawn(cause))),
    }
}

/// The step after the input was written, or was not.
pub open spec fn after_write(
    event: HookEvent,
    timeout_ms: u64,
    reply: Result<(), Seq<char>>,
) -> ShellStepView {
    match reply {
        Ok(_) => ShellStepView::Wait { event, timeout_ms },
        Err(cause) => ShellStepView::Done(Err(HookErrorView::Spawn(cause))),
    }
}

/// How an exit code is reported.
pub open spec fn status_text(code: Option<i32>) -> Seq<char> {
    match code {
        Some(code) => crate::text::signed_decimal(code as int),
        None => "signal"@,
    }
}

/// The step after a process ended, where it wrote the given texts: a failure is reported, and
/// what it wrote on its standard output matters only where the hook is to decide.
pub open spec fn after_exit(
    event: HookEvent,
    success: bool,
    code: Option<i32>,
    stdout: Seq<char>,
    stderr: Seq<char>,
) -> ShellStepView {
    if !success {
        ShellStepView::Done(
            Err(
                HookErrorView::Status {
                    status: status_text(code),
                    stderr: crate::text::trim(stderr),
                },
            ),
        )
    } else if event.decides() {
        ShellStepView::Parse { text: crate::text::trim(stdout) }
    } else {
        ShellStepView::Done(Ok(HookOutcomeView::Allow))
    }
}

/// The step after waiting for a process.
pub open spec fn after_wait(
    event: HookEvent,
    timeout_ms: u64,
    reply: WaitReplyView,
) -> ShellStepView {
    match reply {
        WaitReplyView::Finished(output) => after_exit(
            event,
            output.success,
            output.code,
            crate::text::decoded(output.stdout),
            crate::text::decoded(output.stderr),
        ),
        WaitReplyView::Failed(cause) => ShellStepView::Done(Err(HookErrorView::Spawn(cause))),
        WaitReplyView::TimedOut => ShellStepView::Done(Err(HookErrorView::Timeout { timeout_ms })),
    }
}

/// The step after the answer of a hook was parsed, or was not.
pub open spec fn after_parse(reply: Result<HookDecisionView, Seq<char>>) -> ShellStepView {
    match reply {
        Ok(decision) => ShellStepView::Done(Ok(decision.outcome())),
        Err(cause) => ShellStepView::Done(Err(HookErrorView::InvalidJson(cause))),
    }
}

/// What a reply that fails with a text says.
pub open spec fn fallible<T>(reply: Result<T, String>) -> Result<T, Seq<char>> {
    match reply {
        Ok(value) => Ok(value),
        Err(cause) => Err(cause@),
    }
}

/// What the reply of a parser says.
pub open spec fn parsed_view(
    reply: Result<HookDecision, String>,
) -> Result<HookDecisionView, Seq<char>> {
    match reply {
        Ok(decision) => Ok(decision@),
        Err(cause) => Err(cause@),
    }
}

impl ShellHookExecutor {
    /// Begins to run a handler's command for an invocation. The command reads the invocation as
    /// JSON on its standard input and may take `timeout_ms` milliseconds; a timeout is reported in
    /// 64 bits.
    pub fn execute(
        &self,
        handler: &HookHandler,
        invocation: &HookInvocation,
        timeout_ms: u128,
    ) -> (step: ShellStep)
        ensures
            step@ == first_step(handler@, invocation@, timeout_ms),
            match step {
                ShellStep::Spawn(stage) => {
                    &&& crate::json::path_text(invocation.cwd) is Some
                    &&& stage.command.program@ == "sh"@
                    &&& stage.command.args@.len() == 2
                    &&& stage.command.args@[0]@ == "-c"@
                    &&& stage.command.args@[1]@ == handler.command@
                    &&& stage.command.cwd == invocation.cwd
                    &&& stage.input@ == vstd::utf8::encode_utf8(
                        invocation@.document(
                            crate::json::quoted(crate::json::path_text(invocation.cwd)->0),
                            crate::json::value_text(invocation.payload),
                        ),
                    )
                    &&& stage.event == invocation.event
                    &&& stage.timeout_ms == timeout_ms % 0x1_0000_0000_0000_0000
                },
                ShellStep::Done(reply) => {
                    &&& crate::json::path_text(invocation.cwd) is None
                    &&& reply matches Err(HookError::InvalidJson(cause))
                    &&& cause@ == "path contains invalid UTF-8 characters"@
                },
                _ => false,
            },
    {
        let document = match invocation.to_json() {
            Ok(document) => document,
            Err(error) => return ShellStep::Done(Err(error)),
        };
        let mut args: Vec<String> = Vec::new();
        args.push("-c".to_owned());
        args.push(handler.command.clone());
        let command = ShellCommand {
            program: "sh".to_owned(),
            args,
            cwd: invocation.cwd.clone(),
        };
        assert(command@.args =~= seq!["-c"@, handler.command@]);
        assert(timeout_ms as u64 == timeout_ms % 0x1_0000_0000_0000_0000) by (bit_vector);
        ShellStep::Spawn(
            SpawnStage {
                command,
                input: document.as_str().as_bytes_vec(),
                event: invocation.event,
                timeout_ms: #[verifier::truncate] (timeout_ms as u64),
            },
        )
    }
}

impl SpawnStage {
    /// Goes on after the process was started, with its standard input open or not, or was not
    /// started for the cause given.
    pub fn spawned(self, reply: Result<bool, String>) -> (step: ShellStep)
        ensures
            step@ == after_spawn(self.input@, self.event, self.timeout_ms, fallible(reply)),
            match step {
                ShellStep::Write(stage) => reply == Ok::<bool, String>(true) && stage.input
                    == self.input && stage.event == self.event && stage.timeout_ms
                    == self.timeout_ms,
                ShellStep::Wait(stage) => reply == Ok::<bool, String>(false) && stage.event
                    == self.event && stage.timeout_ms == self.timeout_ms,
                ShellStep::Done(done) => reply matches Err(cause) && done == Err::<
                    HookOutcome,
                    HookError,
                >(HookError::Spawn(cause)),
                _ => false,
            },
    {
        match reply {
            Ok(open) => {
                if open {
                    ShellStep::Write(
                        WriteStage {
                            input: self.input,
                            event: self.event,
                            timeout_ms: self.timeout_ms,
                        },
                    )
                } else {
                    ShellStep::Wait(WaitStage { event: self.event, timeout_ms: self.timeout_ms })
                }
            },
            Err(cause) => ShellStep::Done(Err(HookError::Spawn(cause))),
        }
    }
}

impl WriteStage {
    /// Goes on after the input was written, or was not for the cause given.
    pub fn written(self, reply: Result<(), String>) -> (step: ShellStep)
        ensures
            step@ == after_write(self.event, self.timeout_ms, fallible(reply)),
            match step {
                ShellStep::Wait(stage) => reply is Ok && stage.event == self.event
                    && stage.timeout_ms == self.timeout_ms,
                ShellStep::Done(done) => reply matches Err(cause) && done == Err::<
                    HookOutcome,
                    HookError,
                >(HookError::Spawn(cause)),
                _ => false,
            },
    {
        match reply {
            Ok(_) => {
                ShellStep::Wait(WaitStage { event: self.event, timeout_ms: self.timeout_ms })
            },
            Err(cause) => ShellStep::Done(Err(HookError::Spawn(cause))),
        }
    }
}

impl WaitStage {
    /// Goes on after waiting for the process.
    pub fn waited(self, reply: WaitReply) -> (step: ShellStep)
        ensures
            step@ == after_wait(self.event, self.timeout_ms, reply@),
            match reply {
                WaitReply::Finished(output) => if !output.success {
                    step matches ShellStep::Done(Err(HookError::Status { status, stderr }))
                        && status@ == (match output.code {
                        Some(code) => crate::text::signed_decimal(code as int),
                        None => "signal"@,
                    }) && stderr@ == crate::text::trim(crate::text::decoded(output.stderr@))
                } else if self.event == HookEvent::BeforeTool {
                    step matches ShellStep::Parse(stage) && stage.text@ == crate::text::trim(
                        crate::text::decoded(output.stdout@),
                    )
                } else {
                    step == ShellStep::Done(Ok(HookOutcome::Allow))
                },
                WaitReply::Failed(cause) => step == ShellStep::Done(Err(HookError::Spawn(cause))),
                WaitReply::TimedOut => step == ShellStep::Done(
                    Err(HookError::Timeout { timeout_ms: self.timeout_ms }),
                ),
            },
    {
        match reply {
            WaitReply::Finished(output) => {
                let stdout = decode_lossy(output.stdout.as_slice());
                let stderr = decode_lossy(output.stderr.as_slice());
                self.exited(output.success, output.code, stdout.as_str(), stderr.as_str())
            },
            WaitReply::Failed(cause) => ShellStep::Done(Err(HookError::Spawn(cause))),
            WaitReply::TimedOut => {
                ShellStep::Done(Err(HookError::Timeout { timeout_ms: self.timeout_ms }))
            },
        }
    }

    /// Goes on after the process ended in time and wrote the given texts.
    pub fn exited(
        self,
        success: bool,
        code: Option<i32>,
        stdout: &str,
        stderr: &str,
    ) -> (step: ShellStep)
        ensures
            step@ == after_exit(self.event, success, code, stdout@, stderr@),
            if !success {
                step matches ShellStep::Done(Err(HookError::Status { status, stderr: error }))
                    && status@ == (match code {
                    Some(code) => crate::text::signed_decimal(code as int),
                    None => "signal"@,
                }) && error@ == crate::text::trim(stderr@)
            } else if self.event == HookEvent::BeforeTool {
                step matches ShellStep::Parse(stage) && stage.text@ == crate::text::trim(stdout@)
            } else {
                step == ShellStep::Done(Ok(HookOutcome::Allow))
            },
    {
        if !success {
            let status = match code {
                Some(code) => signed_decimal_text(code),
                None => "signal".to_owned(),
            };
            return ShellStep::Done(Err(HookError::Status { status, stderr: trim_text(stderr) }));
        }
        if self.event.is_decision_event() {
            ShellStep::Parse(ParseStage { text: trim_text(stdout) })
        } else {
            ShellStep::Done(Ok(HookOutcome::Allow))
        }
    }
}

impl ParseStage {
    /// Goes on after the text was parsed, or was not for the cause given.
    pub fn parsed(self, reply: Result<HookDecision, String>) -> (step: ShellStep)
        ensures
            step@ == after_parse(parsed_view(reply)),
            match reply {
                Ok(HookDecision::Allow) => step == ShellStep::Done(Ok(HookOutcome::Allow)),
                Ok(HookDecision::Block { reason }) => step == ShellStep::Done(
                    Ok(HookOutcome::Block { reason }),
                ),
                Err(cause) => step == ShellStep::Done(Err(HookError::InvalidJson(cause))),
            },
    {
        match reply {
            Ok(decision) => ShellStep::Done(Ok(HookOutcome::from(decision))),
            Err(cause) => ShellStep::Done(Err(HookError::InvalidJson(cause))),
        }
    }
}

/// The views of a process and of what came of it say what their fields hold.
pub proof fn processes_say_their_fields(
    command: ShellCommand,
    output: ChildOutput,
    reply: WaitReply,
)
    ensures
        command@.program == command.program@,
        command@.cwd == command.cwd,
        command@.args.len() == command.args@.len(),
        forall|i: int|
            0 <= i < command.args@.len() ==> #[trigger] command@.args[i] == command.args@[i]@,
        output@.success == output.success,
        output@.code == output.code,
        output@.stdout == output.stdout@,
        output@.stderr == output.stderr@,
        match reply {
            WaitReply::Finished(output) => reply@ == WaitReplyView::Finished(output@),
            WaitReply::Failed(cause) => reply@ == WaitReplyView::Failed(cause@),
            WaitReply::TimedOut => reply@ == WaitReplyView::TimedOut,
        },
{
}

/// A step's view says what its stage holds.
pub proof fn steps_say_their_fields(step: ShellStep)
    ensures
        match step {
            ShellStep::Spawn(stage) => step@ == (ShellStepView::Spawn {
                command: stage.command@,
                input: stage.input@,
                event: stage.event,
                timeout_ms: stage.timeout_ms,
            }),
            ShellStep::Write(stage) => step@ == (ShellStepView::Write {
                input: stage.input@,
                event: stage.event,
                timeout_ms: stage.timeout_ms,
            }),
            ShellStep::Wait(stage) => step@ == (ShellStepView::Wait {
                event: stage.event,
                timeout_ms: stage.timeout_ms,
            }),
            ShellStep::Parse(stage) => step@ == (ShellStepView::Parse { text: stage.text@ }),
            ShellStep::Done(Ok(outcome)) => step@ == ShellStepView::Done(Ok(outcome@)),
            ShellStep::Done(Err(error)) => step@ == ShellStepView::Done(Err(error@)),
        },
{
}

/// What a reply that fails with a text says is what it holds.
pub proof fn failures_say_their_causes(
    started: Result<bool, String>,
    parsed: Result<HookDecision, String>,
)
    ensures
        started matches Ok(open) ==> fallible(started) == Ok::<_, Seq<char>>(open),
        started matches Err(cause) ==> fallible(started) == Err::<bool, _>(cause@),
        parsed matches Ok(decision) ==> parsed_view(parsed) == Ok::<_, Seq<char>>(decision@),
        parsed matches Err(cause) ==> parsed_view(parsed) == Err::<HookDecisionView, _>(cause@),
{
}

/// In a directory that has a text every handler's command is started, by `sh -c`, in that
/// directory and with the document as its input, whatever the invocation says besides. In any other
/// directory nothing is started.
pub proof fn commands_start_in_every_unicode_directory(
    handler: HookHandlerView,
    invocation: HookInvocationView,
    timeout_ms: u128,
)
    ensures
        match first_step(handler, invocation, timeout_ms) {
            ShellStepView::Spawn { command, input, event, timeout_ms: limit } => {
                &&& crate::json::path_text(invocation.cwd) is Some
                &&& command == (ShellCommandView {
                    program: "sh"@,
                    args: seq!["-c"@, handler.command],
                    cwd: invocation.cwd,
                })
                &&& input == vstd::utf8::encode_utf8(
                    invocation.document(
                        crate::json::quoted(crate::json::path_text(invocation.cwd)->0),
                        crate::json::value_text(invocation.payload),
                    ),
                )
                &&& event == invocation.event
                &&& limit == timeout_ms % 0x1_0000_0000_0000_0000
            },
            ShellStepView::Done(reply) => crate::json::path_text(invocation.cwd) is None && reply
                == Err::<HookOutcomeView, _>(
                HookErrorView::InvalidJson("path contains invalid UTF-8 characters"@),
            ),
            _ => false,
        },
{
}

/// From stage to stage the input, the event and the timeout are handed on as they are.
pub proof fn stages_hand_on_what_they_were_given(
    input: Seq<u8>,
    event: HookEvent,
    timeout_ms: u64,
    cause: Seq<char>,
)
    ensures
        after_spawn(input, event, timeout_ms, Ok(true)) == (ShellStepView::Write {
            input,
            event,
            timeout_ms,
        }),
        after_spawn(input, event, timeout_ms, Ok(false)) == (ShellStepView::Wait {
            event,
            timeout_ms,
        }),
        after_write(event, timeout_ms, Ok(())) == (ShellStepView::Wait { event, timeout_ms }),
        after_spawn(input, event, timeout_ms, Err(cause)) == ShellStepView::Done(
            Err(HookErrorView::Spawn(cause)),
        ),
        after_write(event, timeout_ms, Err(cause)) == ShellStepView::Done(
            Err(HookErrorView::Spawn(cause)),
        ),
{
}

/// A process that fails is reported by its exit code, or as ended by a signal where it has none. Of
/// one that does not, what it wrote is parsed before a tool runs, and at other events it allows.
pub proof fn ends_are_judged_by_success_first(
    event: HookEvent,
    code: Option<i32>,
    stdout: Seq<char>,
    stderr: Seq<char>,
)
    ensures
        code matches Some(number) ==> after_exit(event, false, code, stdout, stderr)
            == ShellStepView::Done(
            Err(
                HookErrorView::Status {
                    status: crate::text::signed_decimal(number as int),
                    stderr: crate::text::trim(stderr),
                },
            ),
        ),
        code is None ==> after_exit(event, false, code, stdout, stderr) == ShellStepView::Done(
            Err(
                HookErrorView::Status {
                    status: "signal"@,
                    stderr: crate::text::trim(stderr),
                },
            ),
        ),
        event == HookEvent::BeforeTool ==> after_exit(event, true, code, stdout, stderr) == (
        ShellStepView::Parse { text: crate::text::trim(stdout) }),
        event != HookEvent::BeforeTool ==> after_exit(event, true, code, stdout, stderr)
            == ShellStepView::Done(Ok(HookOutcomeView::Allow)),
{
}

} // verus!
