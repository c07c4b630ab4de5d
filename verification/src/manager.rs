//! Invoking hooks one after another.
//!
//! A hook runs outside the manager, by way of its executor. So an invocation proceeds in steps:
//! each says which handler is to be executed, and the reply decides on the next.

use crate::config::HookConfig;
use crate::config::HookConfigView;
use crate::config::HookHandler;
use crate::event::HookEvent;
use crate::invocation::HookInvocation;
use crate::invocation::HookInvocationView;
use crate::outcome::HookOutcome;
use crate::outcome::HookOutcomeView;
use crate::outcome::HookReply;
use crate::outcome::HookReplyView;
use crate::shell::ShellHookExecutor;
use std::sync::Arc;
use vstd::prelude::*;
use vstd::string::StringExecFns;

verus! {

/// Invokes the hooks of a configuration that has some, by way of an executor.
pub struct HookManager<E: ?Sized> {
    config: Arc<HookConfig>,
    executor: Arc<E>,
}

/// Calls `Arc::clone`, which hands out the same shared value once more.
#[verifier::external_body]
fn share<T: ?Sized>(value: &Arc<T>) -> (shared: Arc<T>)
    ensures
        shared == *value,
{
    value.clone()
}

impl<E: ?Sized> HookManager<E> {
    /// The configuration.
    pub closed spec fn config(self) -> HookConfigView {
        self.config@
    }

    /// What executes the handlers.
    pub closed spec fn runner(self) -> Arc<E> {
        self.executor
    }

    /// A manager is only made of a configuration that is enabled and has handlers.
    #[verifier::type_invariant]
    spec fn well_formed(self) -> bool {
        self.config@.active()
    }

    /// Makes a manager that runs its handlers by way of an executor. There is none where the
    /// configuration is not enabled or has no handlers.
    pub fn with_executor(config: HookConfig, executor: Arc<E>) -> (manager: Option<Self>)
        ensures
            manager is Some <==> config@.active(),
            manager is Some <==> config.enabled && config.handlers@.len() > 0,
            manager is Some ==> manager->0.config() == config@,
            manager is Some ==> manager->0.runner() == executor,
    {
        if !config.enabled_with_handlers() {
            return None;
        }
        Some(HookManager { config: Arc::new(config), executor })
    }

    /// What executes the handlers.
    pub fn executor(&self) -> (executor: &Arc<E>)
        ensures
            *executor == self.runner(),
    {
        &self.executor
    }

    /// Begins to invoke the hooks that an invocation is for.
    pub fn invoke<'a>(&'a self, invocation: &'a HookInvocation) -> (step: HookStep<'a>)
        ensures
            step@ == advance(self.config(), invocation@, 0),
            self.config().active(),
            self.config().enabled && self.config().handlers.len() > 0,
            match step {
                HookStep::Done(outcome) => outcome == HookOutcome::Allow && forall|j: int|
                    #![trigger self.config().handlers[j]]
                    0 <= j < self.config().handlers.len() ==> !(
                    self.config().handlers[j].event == invocation@.event && (
                    self.config().handlers[j].tool is None
                        || self.config().handlers[j].tool == Some("*"@)
                        || self.config().handlers[j].tool == invocation@.tool)),
                HookStep::Execute(run) => {
                    &&& run@.config == self.config()
                    &&& run@.invocation == invocation@
                    &&& 0 <= run@.index < self.config().handlers.len()
                    &&& (self.config().handlers[run@.index].event == invocation@.event && (
                    self.config().handlers[run@.index].tool is None
                        || self.config().handlers[run@.index].tool == Some("*"@)
                        || self.config().handlers[run@.index].tool == invocation@.tool))
                    &&& forall|j: int|
                        #![trigger self.config().handlers[j]]
                        0 <= j < run@.index ==> !(
                        self.config().handlers[j].event == invocation@.event && (
                        self.config().handlers[j].tool is None
                            || self.config().handlers[j].tool == Some("*"@)
                            || self.config().handlers[j].tool == invocation@.tool))
                },
            },
    {
        proof {
            use_type_invariant(self);
            crate::laws::steps_stand_at_the_first_match(self.config(), invocation@, 0);
        }
        next_step(&self.config, invocation, 0)
    }
}

impl HookManager<ShellHookExecutor> {
    /// Makes a manager that runs its handlers as shell commands. There is none where the
    /// configuration is not enabled or has no handlers.
    pub fn new(config: HookConfig) -> (manager: Option<Self>)
        ensures
            manager is Some <==> config@.active(),
            manager is Some <==> config.enabled && config.handlers@.len() > 0,
            manager is Some ==> manager->0.config() == config@,
            manager is Some ==> *manager->0.runner() == ShellHookExecutor,
    {
        HookManager::with_executor(config, Arc::new(ShellHookExecutor))
    }
}

impl<E: ?Sized> Clone for HookManager<E> {
    fn clone(&self) -> (copy: Self)
        ensures
            copy.config() == self.config(),
            copy.runner() == self.runner(),
    {
        proof {
            use_type_invariant(self);
        }
        HookManager { config: share(&self.config), executor: share(&self.executor) }
    }
}

/// A handler that is to be executed for an invocation.
pub struct HookRun<'a> {
    config: &'a HookConfig,
    invocation: &'a HookInvocation,
    index: usize,
}

/// What a [`HookRun`] says.
pub struct HookRunView {
    pub config: HookConfigView,
    pub invocation: HookInvocationView,
    pub index: int,
}

impl<'a> View for HookRun<'a> {
    type V = HookRunView;

    closed spec fn view(&self) -> HookRunView {
        HookRunView {
            config: self.config@,
            invocation: self.invocation@,
            index: self.index as int,
        }
    }
}

/// What is to be done next for an invocation, or what it came to.
pub enum HookStep<'a> {
    Execute(HookRun<'a>),
    Done(HookOutcome),
}

/// What a [`HookStep`] says.
pub enum HookStepView {
    Execute(HookRunView),
    Done(HookOutcomeView),
}

impl<'a> View for HookStep<'a> {
    type V = HookStepView;

    open spec fn view(&self) -> HookStepView {
        match self {
            HookStep::Execute(run) => HookStepView::Execute(run@),
            HookStep::Done(outcome) => HookStepView::Done(outcome@),
        }
    }
}

/// Whether the handler at an index is for an invocation.
pub open spec fn applies(
    config: HookConfigView,
    invocation: HookInvocationView,
    index: int,
) -> bool {
    config.handlers[index].applies(invocation.event, invocation.tool)
}

/// The step at which an invocation stands when the handlers below `from` are done with and none of
/// them ended it: the first of the others that is for the invocation is to be executed, and where
/// there is none the invocation is allowed.
pub open spec fn advance(
    config: HookConfigView,
    invocation: HookInvocationView,
    from: int,
) -> HookStepView
    decreases config.handlers.len() - from,
{
    if from < 0 || from >= config.handlers.len() {
        HookStepView::Done(HookOutcomeView::Allow)
    } else if applies(config, invocation, from) {
        HookStepView::Execute(HookRunView { config, invocation, index: from })
    } else {
        advance(config, invocation, from + 1)
    }
}

impl HookRunView {
    /// Whether a reply is a failure that changes nothing: one where the hooks are not asked to
    /// decide.
    pub open spec fn passes_over(self, reply: HookReplyView) -> bool {
        reply is Err && !self.invocation.event.decides()
    }

    /// The step after the handler replied. A block ends the invocation; so does a failure where
    /// the hooks are asked to decide, and elsewhere a failure changes nothing.
    pub open spec fn resume(self, reply: HookReplyView) -> HookStepView {
        match reply {
            Ok(HookOutcomeView::Allow) => advance(self.config, self.invocation, self.index + 1),
            Ok(HookOutcomeView::Block { reason }) => HookStepView::Done(
                HookOutcomeView::Block { reason },
            ),
            Err(error) => if self.invocation.event.decides() {
                HookStepView::Done(
                    HookOutcomeView::Block { reason: "Hook failed: "@ + error.message() },
                )
            } else {
                advance(self.config, self.invocation, self.index + 1)
            },
        }
    }
}

/// Finds the first handler from an index on that is for an invocation.
fn next_step<'a>(
    config: &'a HookConfig,
    invocation: &'a HookInvocation,
    from: usize,
) -> (step: HookStep<'a>)
    requires
        from <= config.handlers@.len(),
    ensures
        step@ == advance(config@, invocation@, from as int),
{
    let tool = match &invocation.tool {
        Some(tool) => Some(tool.as_str()),
        None => None,
    };
    let mut index: usize = from;
    while index < config.handlers.len()
        invariant
            from <= index <= config.handlers@.len(),
            crate::text::optional(tool) == invocation@.tool,
            advance(config@, invocation@, from as int) == advance(
                config@,
                invocation@,
                index as int,
            ),
        decreases config.handlers@.len() - index,
    {
        if config.handlers[index].matches(invocation.event, tool) {
            return HookStep::Execute(HookRun { config, invocation, index });
        }
        index += 1;
    }
    HookStep::Done(HookOutcome::Allow)
}

impl<'a> HookRun<'a> {
    /// The handler to be executed is one of the configuration's.
    #[verifier::type_invariant]
    spec fn well_formed(self) -> bool {
        self.index < self.config.handlers.len()
    }

    /// The handler that is to be executed.
    pub fn handler(&self) -> (handler: &'a HookHandler)
        ensures
            0 <= self@.index < self@.config.handlers.len(),
            handler@ == self@.config.handlers[self@.index],
    {
        proof {
            use_type_invariant(self);
        }
        &self.config.handlers[self.index]
    }

    /// The invocation that the handler is to be executed for.
    pub fn invocation(&self) -> (invocation: &'a HookInvocation)
        ensures
            invocation@ == self@.invocation,
    {
        self.invocation
    }

    /// How long the handler may take.
    pub fn timeout_ms(&self) -> (timeout_ms: u64)
        ensures
            timeout_ms == self@.config.timeout_ms,
    {
        self.config.timeout_ms
    }

    /// Whether a reply is a failure that changes nothing and is only to be noted.
    pub fn passes_over(&self, reply: &HookReply) -> (passes: bool)
        ensures
            passes == self@.passes_over(crate::outcome::reply_view(*reply)),
            passes == (reply is Err && self@.invocation.event != HookEvent::BeforeTool),
    {
        match reply {
            Ok(_) => false,
            Err(_) => !self.invocation.event.is_decision_event(),
        }
    }

    /// Goes on after the handler replied.
    pub fn resume(self, reply: HookReply) -> (step: HookStep<'a>)
        ensures
            step@ == self@.resume(crate::outcome::reply_view(reply)),
            reply matches Ok(HookOutcome::Block { reason }) ==> step == HookStep::Done(
                HookOutcome::Block { reason },
            ),
            reply matches Err(error) ==> self@.invocation.event == HookEvent::BeforeTool ==> (
            step matches HookStep::Done(HookOutcome::Block { reason }) && reason@
                == "Hook failed: "@ + error@.message()),
            reply == Ok::<HookOutcome, crate::outcome::HookError>(HookOutcome::Allow) || (
            reply is Err && self@.invocation.event != HookEvent::BeforeTool) ==> match step {
                HookStep::Done(outcome) => outcome == HookOutcome::Allow && forall|j: int|
                    #![trigger self@.config.handlers[j]]
                    self@.index + 1 <= j < self@.config.handlers.len() ==> !(
                    self@.config.handlers[j].event == self@.invocation.event && (
                    self@.config.handlers[j].tool is None
                        || self@.config.handlers[j].tool == Some("*"@)
                        || self@.config.handlers[j].tool == self@.invocation.tool)),
                HookStep::Execute(next) => {
                    &&& next@.config == self@.config
                    &&& next@.invocation == self@.invocation
                    &&& self@.index + 1 <= next@.index < self@.config.handlers.len()
                    &&& (self@.config.handlers[next@.index].event == self@.invocation.event && (
                    self@.config.handlers[next@.index].tool is None
                        || self@.config.handlers[next@.index].tool == Some("*"@)
                        || self@.config.handlers[next@.index].tool == self@.invocation.tool))
                    &&& forall|j: int|
                        #![trigger self@.config.handlers[j]]
                        self@.index + 1 <= j < next@.index ==> !(
                        self@.config.handlers[j].event == self@.invocation.event && (
                        self@.config.handlers[j].tool is None
                            || self@.config.handlers[j].tool == Some("*"@)
                            || self@.config.handlers[j].tool == self@.invocation.tool))
                },
            },
    {
        proof {
            use_type_invariant(&self);
            crate::laws::steps_stand_at_the_first_match(
                self@.config,
                self@.invocation,
                self@.index + 1,
            );
        }
        match reply {
            Ok(HookOutcome::Allow) => next_step(self.config, self.invocation, self.index + 1),
            Ok(HookOutcome::Block { reason }) => HookStep::Done(HookOutcome::Block { reason }),
            Err(error) => {
                if self.invocation.event.is_decision_event() {
                    HookStep::Done(
                        HookOutcome::Block {
                            reason: "Hook failed: ".to_owned().concat(error.message().as_str()),
                        },
                    )
                } else {
                    next_step(self.config, self.invocation, self.index + 1)
                }
            },
        }
    }
}

/// A step's view says what it holds.
pub proof fn steps_say_their_fields<'a>(step: HookStep<'a>)
    ensures
        step matches HookStep::Execute(run) ==> step@ == HookStepView::Execute(run@),
        step matches HookStep::Done(outcome) ==> step@ == HookStepView::Done(outcome@),
{
}

/// A block ends an invocation with its reason unchanged, and a failure before a tool runs ends it
/// with a block that tells the failure. Every other reply leads to where an answer to allow leads.
pub proof fn replies_end_or_lead_on(
    run: HookRunView,
    reason: Seq<char>,
    error: crate::outcome::HookErrorView,
)
    ensures
        run.resume(Ok(HookOutcomeView::Block { reason })) == HookStepView::Done(
            HookOutcomeView::Block { reason },
        ),
        run.invocation.event == HookEvent::BeforeTool ==> run.resume(Err(error))
            == HookStepView::Done(
            HookOutcomeView::Block { reason: "Hook failed: "@ + error.message() },
        ),
        run.invocation.event != HookEvent::BeforeTool ==> run.resume(Err(error)) == run.resume(
            Ok(HookOutcomeView::Allow),
        ),
        run.resume(Ok(HookOutcomeView::Allow)) == advance(
            run.config,
            run.invocation,
            run.index + 1,
        ),
{
}

} // verus!
