//! What a hook answers, and how it fails.

use crate::text::decimal_text;
use vstd::prelude::*;
use vstd::std_specs::convert::FromSpecImpl;
use vstd::string::StringExecFns;

verus! {

/// What an invocation of hooks comes to.
#[derive(Debug, Clone, PartialEq, Eq)]
pub enum HookOutcome {
    Allow,
    Block { reason: String },
}

/// What a [`HookOutcome`] says.
pub enum HookOutcomeView {
    Allow,
    Block { reason: Seq<char> },
}

impl View for HookOutcome {
    type V = HookOutcomeView;

    open spec fn view(&self) -> HookOutcomeView {
        match self {
            HookOutcome::Allow => HookOutcomeView::Allow,
            HookOutcome::Block { reason } => HookOutcomeView::Block { reason: reason@ },
        }
    }
}

/// What a hook command writes on its standard output when it is asked to decide.
#[derive(Debug, Clone, PartialEq, Eq)]
pub enum HookDecision {
    Allow,
    Block { reason: String },
}

/// What a [`HookDecision`] says.
pub enum HookDecisionView {
    Allow,
    Block { reason: Seq<char> },
}

impl View for HookDecision {
    type V = HookDecisionView;

    open spec fn view(&self) -> HookDecisionView {
        match self {
            HookDecision::Allow => HookDecisionView::Allow,
            HookDecision::Block { reason } => HookDecisionView::Block { reason: reason@ },
        }
    }
}

impl HookDecisionView {
    /// The outcome that the decision stands for.
    pub open spec fn outcome(self) -> HookOutcomeView {
        match self {
            HookDecisionView::Allow => HookOutcomeView::Allow,
            HookDecisionView::Block { reason } => HookOutcomeView::Block { reason },
        }
    }
}

impl FromSpecImpl<HookDecision> for HookOutcome {
    open spec fn obeys_from_spec() -> bool {
        true
    }

    open spec fn from_spec(value: HookDecision) -> HookOutcome {
        match value {
            HookDecision::Allow => HookOutcome::Allow,
            HookDecision::Block { reason } => HookOutcome::Block { reason },
        }
    }
}

impl From<HookDecision> for HookOutcome {
    fn from(value: HookDecision) -> (outcome: Self)
        ensures
            outcome@ == value@.outcome(),
            match value {
                HookDecision::Allow => outcome == HookOutcome::Allow,
                HookDecision::Block { reason } => outcome == (HookOutcome::Block { reason }),
            },
    {
        match value {
            HookDecision::Allow => HookOutcome::Allow,
            HookDecision::Block { reason } => HookOutcome::Block { reason },
        }
    }
}

/// Why a hook gave no answer.
#[derive(Debug, Clone)]
pub enum HookError {
    Spawn(String),
    Timeout { timeout_ms: u64 },
    Status { status: String, stderr: String },
    InvalidJson(String),
}

/// What a [`HookError`] says.
pub enum HookErrorView {
    Spawn(Seq<char>),
    Timeout { timeout_ms: u64 },
    Status { status: Seq<char>, stderr: Seq<char> },
    InvalidJson(Seq<char>),
}

impl View for HookError {
    type V = HookErrorView;

    open spec fn view(&self) -> HookErrorView {
        match self {
            HookError::Spawn(cause) => HookErrorView::Spawn(cause@),
            HookError::Timeout { timeout_ms } => HookErrorView::Timeout { timeout_ms: *timeout_ms },
            HookError::Status { status, stderr } => HookErrorView::Status {
                status: status@,
                stderr: stderr@,
            },
            HookError::InvalidJson(cause) => HookErrorView::InvalidJson(cause@),
        }
    }
}

impl HookErrorView {
    /// The error as users read it.
    pub open spec fn message(self) -> Seq<char> {
        match self {
            HookErrorView::Spawn(cause) => "hook command failed to spawn: "@ + cause,
            HookErrorView::Timeout { timeout_ms } => "hook command timed out after "@
                + crate::text::decimal(timeout_ms as nat) + "ms"@,
            HookErrorView::Status { status, stderr } => "hook command exited with status "@ + status
                + ": "@ + stderr,
            HookErrorView::InvalidJson(cause) => "hook command returned invalid JSON: "@ + cause,
        }
    }
}

impl HookError {
    /// The error as users read it.
    pub fn message(&self) -> (message: String)
        ensures
            message@ == self@.message(),
            match self {
                HookError::Spawn(cause) => message@ == "hook command failed to spawn: "@ + cause@,
                HookError::Timeout { timeout_ms } => message@ == "hook command timed out after "@
                    + crate::text::decimal(*timeout_ms as nat) + "ms"@,
                HookError::Status { status, stderr } => message@
                    == "hook command exited with status "@ + status@ + ": "@ + stderr@,
                HookError::InvalidJson(cause) => message@ == "hook command returned invalid JSON: "@
                    + cause@,
            },
    {
        match self {
            HookError::Spawn(cause) => {
                "hook command failed to spawn: ".to_owned().concat(cause.as_str())
            },
            HookError::Timeout { timeout_ms } => {
                "hook command timed out after ".to_owned().concat(
                    decimal_text(*timeout_ms).as_str(),
                ).concat("ms")
            },
            HookError::Status { status, stderr } => {
                "hook command exited with status ".to_owned().concat(status.as_str()).concat(
                    ": ",
                ).concat(stderr.as_str())
            },
            HookError::InvalidJson(cause) => {
                "hook command returned invalid JSON: ".to_owned().concat(cause.as_str())
            },
        }
    }
}

/// What one hook answers: an outcome, or the error that kept it from one.
pub type HookReply = Result<HookOutcome, HookError>;

/// What a [`HookReply`] says.
pub type HookReplyView = Result<HookOutcomeView, HookErrorView>;

/// What a hook's reply says.
pub open spec fn reply_view(reply: HookReply) -> HookReplyView {
    match reply {
        Ok(outcome) => Ok(outcome@),
        Err(error) => Err(error@),
    }
}

/// An outcome's view says what it holds, and so does a decision's.
pub proof fn outcomes_say_their_fields(outcome: HookOutcome, decision: HookDecision)
    ensures
        outcome is Allow <==> outcome@ is Allow,
        outcome matches HookOutcome::Block { reason } ==> outcome@ == (HookOutcomeView::Block {
            reason: reason@,
        }),
        decision is Allow <==> decision@ is Allow,
        decision matches HookDecision::Block { reason } ==> decision@ == (HookDecisionView::Block {
            reason: reason@,
        }),
{
}

/// An error's view says what it holds.
pub proof fn errors_say_their_fields(error: HookError)
    ensures
        match error {
            HookError::Spawn(cause) => error@ == HookErrorView::Spawn(cause@),
            HookError::Timeout { timeout_ms } => error@ == (HookErrorView::Timeout { timeout_ms }),
            HookError::Status { status, stderr } => error@ == (HookErrorView::Status {
                status: status@,
                stderr: stderr@,
            }),
            HookError::InvalidJson(cause) => error@ == HookErrorView::InvalidJson(cause@),
        },
{
}

/// A reply's view says what it holds.
pub proof fn replies_say_their_fields(reply: HookReply)
    ensures
        reply matches Ok(outcome) ==> reply_view(reply) == Ok::<_, HookErrorView>(outcome@),
        reply matches Err(error) ==> reply_view(reply) == Err::<HookOutcomeView, _>(error@),
{
}

/// A decision keeps its kind on the way to an outcome, and a block keeps its reason.
pub proof fn decisions_keep_their_reasons(decision: HookDecisionView)
    ensures
        decision is Allow <==> decision.outcome() is Allow,
        decision matches HookDecisionView::Block { reason } ==> decision.outcome() == (
        HookOutcomeView::Block { reason }),
{
}

/// A message says what failed and ends with what is known of it, in full.
pub proof fn messages_tell_the_cause(
    cause: Seq<char>,
    status: Seq<char>,
    stderr: Seq<char>,
    timeout_ms: u64,
)
    ensures
        HookErrorView::Spawn(cause).message() == "hook command failed to spawn: "@ + cause,
        HookErrorView::InvalidJson(cause).message() == "hook command returned invalid JSON: "@
            + cause,
        (HookErrorView::Status { status, stderr }).message()
            == "hook command exited with status "@ + status + ": "@ + stderr,
        (HookErrorView::Timeout { timeout_ms }).message() == "hook command timed out after "@
            + crate::text::decimal(timeout_ms as nat) + "ms"@,
{
}

} // verus!
