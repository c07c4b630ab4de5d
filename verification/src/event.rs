//! The moments of an agent's run at which hooks are invoked.

use vstd::prelude::*;

verus! {

/// A moment of an agent's run.
#[derive(Debug, Clone, Copy, PartialEq, Eq, Structural)]
pub enum HookEvent {
    BeforeTool,
    RunStarted,
    TurnStarted,
    AssistantCompleted,
    ToolStarted,
    ToolFinished,
    LlmCallStarted,
    LlmCallCompleted,
    ContextCompactionStarted,
    ContextCompactionCompleted,
    RunFinished,
    Error,
}

impl HookEvent {
    /// Whether hooks are asked to decide at this moment. A hook that fails then counts as one that
    /// blocks, and a shell command has to answer. At every other moment hooks are only told of the
    /// run: a failure changes nothing and a shell command's answer is not read, though a block that
    /// an executor does return is still handed on.
    pub open spec fn decides(self) -> bool {
        self == HookEvent::BeforeTool
    }

    /// The name that the event goes by in JSON.
    pub open spec fn name(self) -> Seq<char> {
        match self {
            HookEvent::BeforeTool => "before_tool"@,
            HookEvent::RunStarted => "run_started"@,
            HookEvent::TurnStarted => "turn_started"@,
            HookEvent::AssistantCompleted => "assistant_completed"@,
            HookEvent::ToolStarted => "tool_started"@,
            HookEvent::ToolFinished => "tool_finished"@,
            HookEvent::LlmCallStarted => "llm_call_started"@,
            HookEvent::LlmCallCompleted => "llm_call_completed"@,
            HookEvent::ContextCompactionStarted => "context_compaction_started"@,
            HookEvent::ContextCompactionCompleted => "context_compaction_completed"@,
            HookEvent::RunFinished => "run_finished"@,
            HookEvent::Error => "error"@,
        }
    }

    /// Whether hooks are asked to decide at this moment: only before a tool runs.
    pub fn is_decision_event(self) -> (decides: bool)
        ensures
            decides == self.decides(),
            decides == (self == HookEvent::BeforeTool),
    {
        matches!(self, HookEvent::BeforeTool)
    }

    /// The name that the event goes by in JSON: its words in lower case, joined by underscores.
    pub fn json_name(self) -> (name: &'static str)
        ensures
            name@ == self.name(),
    {
        match self {
            HookEvent::BeforeTool => "before_tool",
            HookEvent::RunStarted => "run_started",
            HookEvent::TurnStarted => "turn_started",
            HookEvent::AssistantCompleted => "assistant_completed",
            HookEvent::ToolStarted => "tool_started",
            HookEvent::ToolFinished => "tool_finished",
            HookEvent::LlmCallStarted => "llm_call_started",
            HookEvent::LlmCallCompleted => "llm_call_completed",
            HookEvent::ContextCompactionStarted => "context_compaction_started",
            HookEvent::ContextCompactionCompleted => "context_compaction_completed",
            HookEvent::RunFinished => "run_finished",
            HookEvent::Error => "error",
        }
    }
}

/// Different events have different names.
pub proof fn names_are_distinct(a: HookEvent, b: HookEvent)
    ensures
        a.name() == b.name() ==> a == b,
{
    reveal_strlit("before_tool");
    reveal_strlit("run_started");
    reveal_strlit("turn_started");
    reveal_strlit("assistant_completed");
    reveal_strlit("tool_started");
    reveal_strlit("tool_finished");
    reveal_strlit("llm_call_started");
    reveal_strlit("llm_call_completed");
    reveal_strlit("context_compaction_started");
    reveal_strlit("context_compaction_completed");
    reveal_strlit("run_finished");
    reveal_strlit("error");
    // Names of one length differ in one of their first two characters.
    if a.name() == b.name() {
        assert(a.name().len() == b.name().len());
        assert(a.name()[0] == b.name()[0]);
        assert(a.name()[1] == b.name()[1]);
    }
}

/// Hooks are asked to decide before a tool runs, and at no other event.
pub proof fn only_before_tool_decides(event: HookEvent)
    ensures
        event.decides() <==> event == HookEvent::BeforeTool,
{
}

/// The name of an event is made of lower-case words, joined by single underscores.
pub proof fn names_are_joined_words(event: HookEvent)
    ensures
        event.name().len() > 0,
        'a' <= event.name().first() <= 'z',
        'a' <= event.name().last() <= 'z',
        forall|i: int|
            0 <= i < event.name().len() ==> 'a' <= #[trigger] event.name()[i] <= 'z'
                || event.name()[i] == '_' && 'a' <= event.name()[i + 1] <= 'z',
{
    reveal_strlit("before_tool");
    reveal_strlit("run_started");
    reveal_strlit("turn_started");
    reveal_strlit("assistant_completed");
    reveal_strlit("tool_started");
    reveal_strlit("tool_finished");
    reveal_strlit("llm_call_started");
    reveal_strlit("llm_call_completed");
    reveal_strlit("context_compaction_started");
    reveal_strlit("context_compaction_completed");
    reveal_strlit("run_finished");
    reveal_strlit("error");
}

} // verus!
