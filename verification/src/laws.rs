//! What holds of whole invocations, whatever the outside world answers.

use crate::config::HookConfigView;
use crate::config::HookHandlerView;
use crate::invocation::HookInvocationView;
use crate::manager::HookRunView;
use crate::manager::HookStepView;
use crate::outcome::HookDecisionView;
use crate::outcome::HookErrorView;
use crate::outcome::HookOutcomeView;
use crate::outcome::HookReplyView;
use crate::shell::ShellStepView;
use crate::shell::WaitReplyView;
use vstd::prelude::*;

verus! {

/// How far a step is from the end of its invocation.
pub open spec fn distance(step: HookStepView) -> nat {
    match step {
        HookStepView::Done(_) => 0,
        HookStepView::Execute(run) => if run.index < run.config.handlers.len() {
            (run.config.handlers.len() - run.index + 1) as nat
        } else {
            1
        },
    }
}

/// Where an invocation stands once the handlers below an index are done with: at a handler that is
/// for it, and at none that is passed over.
pub proof fn advance_finds_the_next(config: HookConfigView, invocation: HookInvocationView, from: int)
    requires
        0 <= from,
    ensures
        match crate::manager::advance(config, invocation, from) {
            HookStepView::Done(outcome) => outcome == HookOutcomeView::Allow && forall|j: int|
                from <= j < config.handlers.len() ==> !#[trigger] crate::manager::applies(
                    config,
                    invocation,
                    j,
                ),
            HookStepView::Execute(run) => run.config == config && run.invocation == invocation
                && from <= run.index < config.handlers.len() && crate::manager::applies(
                config,
                invocation,
                run.index,
            ) && forall|j: int|
                from <= j < run.index ==> !#[trigger] crate::manager::applies(
                    config,
                    invocation,
                    j,
                ),
        },
    decreases config.handlers.len() - from,
{
    if from < config.handlers.len() && !crate::manager::applies(config, invocation, from) {
        advance_finds_the_next(config, invocation, from + 1);
    }
}

/// The handler that an invocation stands at, once those below an index are done with, is the first
/// of the others that waits for the event and that has no tool, or `*`, or the tool that the
/// invocation concerns; where there is none, the invocation is allowed.
pub proof fn steps_stand_at_the_first_match(
    config: HookConfigView,
    invocation: HookInvocationView,
    from: int,
)
    requires
        0 <= from,
    ensures
        match crate::manager::advance(config, invocation, from) {
            HookStepView::Done(outcome) => outcome == HookOutcomeView::Allow && forall|j: int|
                #![trigger config.handlers[j]]
                from <= j < config.handlers.len() ==> !(
                config.handlers[j].event == invocation.event && (config.handlers[j].tool is None
                    || config.handlers[j].tool == Some("*"@)
                    || config.handlers[j].tool == invocation.tool)),
            HookStepView::Execute(run) => {
                &&& run.config == config
                &&& run.invocation == invocation
                &&& from <= run.index < config.handlers.len()
                &&& (config.handlers[run.index].event == invocation.event && (
                config.handlers[run.index].tool is None
                    || config.handlers[run.index].tool == Some("*"@)
                    || config.handlers[run.index].tool == invocation.tool))
                &&& forall|j: int|
                    #![trigger config.handlers[j]]
                    from <= j < run.index ==> !(
                    config.handlers[j].event == invocation.event && (config.handlers[j].tool is None
                        || config.handlers[j].tool == Some("*"@)
                        || config.handlers[j].tool == invocation.tool))
            },
        },
    decreases config.handlers.len() - from,
{
    if from < config.handlers.len() && !crate::manager::applies(config, invocation, from) {
        steps_stand_at_the_first_match(config, invocation, from + 1);
    }
}

/// What an invocation comes to: the handlers that were executed, in order, and the outcome.
pub struct Course {
    pub executed: Seq<int>,
    pub outcome: HookOutcomeView,
}

/// The course that an invocation takes from a step on, where `replies` gives the reply of the
/// handler at each index.
pub open spec fn course(step: HookStepView, replies: spec_fn(int) -> HookReplyView) -> Course
    decreases distance(step),
{
    match step {
        HookStepView::Done(outcome) => Course { executed: Seq::empty(), outcome },
        HookStepView::Execute(run) => {
            proof {
                if run.index >= -1 {
                    advance_finds_the_next(run.config, run.invocation, run.index + 1);
                }
            }
            let rest = course(run.resume(replies(run.index)), replies);
            Course { executed: seq![run.index] + rest.executed, outcome: rest.outcome }
        },
    }
}

/// Whether a handler's reply ends an invocation.
pub open spec fn stops(invocation: HookInvocationView, reply: HookReplyView) -> bool {
    match reply {
        Ok(HookOutcomeView::Allow) => false,
        Ok(HookOutcomeView::Block { .. }) => true,
        Err(_) => invocation.event.decides(),
    }
}

/// The outcome of an invocation that a handler's reply ends.
pub open spec fn verdict(reply: HookReplyView) -> HookOutcomeView {
    match reply {
        Ok(outcome) => outcome,
        Err(error) => HookOutcomeView::Block { reason: "Hook failed: "@ + error.message() },
    }
}

/// The course of a whole invocation.
pub open spec fn invocation_course(
    config: HookConfigView,
    invocation: HookInvocationView,
    replies: spec_fn(int) -> HookReplyView,
) -> Course {
    course(crate::manager::advance(config, invocation, 0), replies)
}

/// Whether the handler at an index is there and is for an invocation.
pub open spec fn concerned(
    config: HookConfigView,
    invocation: HookInvocationView,
    index: int,
) -> bool {
    0 <= index < config.handlers.len() && crate::manager::applies(config, invocation, index)
}

/// What holds of a sequence with one more element in front.
proof fn contains_in_front(first: int, rest: Seq<int>)
    ensures
        forall|j: int| #[trigger]
            (seq![first] + rest).contains(j) <==> (j == first || rest.contains(j)),
{
    let whole = seq![first] + rest;
    assert forall|j: int| #[trigger] whole.contains(j) <==> (j == first || rest.contains(j)) by {
        if whole.contains(j) {
            let k = choose|k: int| 0 <= k < whole.len() && whole[k] == j;
            if k > 0 {
                assert(rest[k - 1] == j);
            }
        }
        if j == first {
            assert(whole[0] == j);
        }
        if rest.contains(j) {
            let k = choose|k: int| 0 <= k < rest.len() && rest[k] == j;
            assert(whole[k + 1] == j);
        }
    }
}

/// The course from an index on where no handler's reply ends the invocation.
proof fn course_without_stop(
    config: HookConfigView,
    invocation: HookInvocationView,
    replies: spec_fn(int) -> HookReplyView,
    from: int,
)
    requires
        0 <= from,
        forall|j: int|
            from <= j && #[trigger] concerned(config, invocation, j) ==> !stops(
                invocation,
                replies(j),
            ),
    ensures
        ({
            let c = course(crate::manager::advance(config, invocation, from), replies);
            &&& c.outcome == HookOutcomeView::Allow
            &&& forall|j: int| #[trigger]
                c.executed.contains(j) <==> (from <= j && concerned(config, invocation, j))
        }),
    decreases config.handlers.len() - from,
{
    let step = crate::manager::advance(config, invocation, from);
    advance_finds_the_next(config, invocation, from);
    match step {
        HookStepView::Done(_) => {
            assert forall|j: int| from <= j implies !concerned(config, invocation, j) by {
                if j < config.handlers.len() {
                    assert(!crate::manager::applies(config, invocation, j));
                }
            }
        },
        HookStepView::Execute(run) => {
            assert(concerned(config, invocation, run.index));
            assert(!stops(invocation, replies(run.index)));
            course_without_stop(config, invocation, replies, run.index + 1);
            let rest = course(crate::manager::advance(config, invocation, run.index + 1), replies);
            contains_in_front(run.index, rest.executed);
        },
    }
}

/// The course from an index on up to the first handler whose reply ends the invocation.
proof fn course_to_stop(
    config: HookConfigView,
    invocation: HookInvocationView,
    replies: spec_fn(int) -> HookReplyView,
    from: int,
    stop: int,
)
    requires
        0 <= from <= stop,
        concerned(config, invocation, stop),
        stops(invocation, replies(stop)),
        forall|j: int|
            from <= j < stop && #[trigger] concerned(config, invocation, j) ==> !stops(
                invocation,
                replies(j),
            ),
    ensures
        ({
            let c = course(crate::manager::advance(config, invocation, from), replies);
            &&& c.outcome == verdict(replies(stop))
            &&& c.executed.len() > 0
            &&& c.executed.last() == stop
            &&& forall|j: int| #[trigger]
                c.executed.contains(j) <==> (from <= j <= stop && concerned(config, invocation, j))
        }),
    decreases config.handlers.len() - from,
{
    let step = crate::manager::advance(config, invocation, from);
    advance_finds_the_next(config, invocation, from);
    assert(crate::manager::applies(config, invocation, stop));
    let run = step->Execute_0;
    assert(run.index <= stop);
    assert(concerned(config, invocation, run.index));
    let rest = course(run.resume(replies(run.index)), replies);
    contains_in_front(run.index, rest.executed);
    if run.index < stop {
        assert(!stops(invocation, replies(run.index)));
        course_to_stop(config, invocation, replies, run.index + 1, stop);
    }
    assert forall|j: int| from <= j < run.index implies !concerned(config, invocation, j) by {
        assert(!crate::manager::applies(config, invocation, j));
    }
}

/// Finds the first handler from an index on whose reply ends the invocation.
proof fn first_stop(
    config: HookConfigView,
    invocation: HookInvocationView,
    replies: spec_fn(int) -> HookReplyView,
    from: int,
) -> (stop: int)
    requires
        0 <= from,
        exists|j: int|
            from <= j && #[trigger] concerned(config, invocation, j) && stops(
                invocation,
                replies(j),
            ),
    ensures
        from <= stop,
        concerned(config, invocation, stop),
        stops(invocation, replies(stop)),
        forall|j: int|
            from <= j < stop && #[trigger] concerned(config, invocation, j) ==> !stops(
                invocation,
                replies(j),
            ),
    decreases config.handlers.len() - from,
{
    if concerned(config, invocation, from) && stops(invocation, replies(from)) {
        from
    } else {
        first_stop(config, invocation, replies, from + 1)
    }
}

/// The handlers that are executed from an index on are executed in the order of the configuration,
/// and each is for the invocation.
proof fn course_in_order(
    config: HookConfigView,
    invocation: HookInvocationView,
    replies: spec_fn(int) -> HookReplyView,
    from: int,
)
    requires
        0 <= from,
    ensures
        ({
            let executed = course(
                crate::manager::advance(config, invocation, from),
                replies,
            ).executed;
            &&& forall|k: int|
                0 <= k < executed.len() ==> from <= #[trigger] executed[k] && concerned(
                    config,
                    invocation,
                    executed[k],
                )
            &&& forall|k: int, l: int|
                0 <= k < l < executed.len() ==> #[trigger] executed[k] < #[trigger] executed[l]
            &&& executed.len() == 0 || executed.len() <= config.handlers.len() - from
        }),
    decreases config.handlers.len() - from,
{
    let step = crate::manager::advance(config, invocation, from);
    advance_finds_the_next(config, invocation, from);
    if let HookStepView::Execute(run) = step {
        assert(concerned(config, invocation, run.index));
        let next = run.resume(replies(run.index));
        let rest = course(next, replies).executed;
        if !stops(invocation, replies(run.index)) {
            course_in_order(config, invocation, replies, run.index + 1);
        }
        let executed = seq![run.index] + rest;
        assert(course(step, replies).executed == executed);
        assert forall|k: int| 0 <= k < executed.len() implies from <= #[trigger] executed[k]
            && concerned(config, invocation, executed[k]) by {
            if k > 0 {
                assert(executed[k] == rest[k - 1]);
            }
        }
        assert forall|k: int, l: int| 0 <= k < l < executed.len() implies #[trigger] executed[k]
            < #[trigger] executed[l] by {
            assert(executed[l] == rest[l - 1]);
            if k > 0 {
                assert(executed[k] == rest[k - 1]);
            }
        }
    }
}

/// Handlers are executed in the order of the configuration, none twice, and only those that are
/// for the invocation.
pub proof fn handlers_run_in_order(
    config: HookConfigView,
    invocation: HookInvocationView,
    replies: spec_fn(int) -> HookReplyView,
)
    ensures
        forall|k: int|
            0 <= k < invocation_course(config, invocation, replies).executed.len() ==> concerned(
                config,
                invocation,
                #[trigger] invocation_course(config, invocation, replies).executed[k],
            ),
        forall|k: int, l: int|
            0 <= k < l < invocation_course(config, invocation, replies).executed.len()
                ==> #[trigger] invocation_course(config, invocation, replies).executed[k]
                < #[trigger] invocation_course(config, invocation, replies).executed[l],
        invocation_course(config, invocation, replies).executed.len() <= config.handlers.len(),
{
    course_in_order(config, invocation, replies, 0);
}

/// The first handler whose reply ends an invocation settles its outcome: every handler before it
/// that is for the invocation was executed, and none after it is.
pub proof fn first_stop_settles_the_outcome(
    config: HookConfigView,
    invocation: HookInvocationView,
    replies: spec_fn(int) -> HookReplyView,
    stop: int,
)
    requires
        concerned(config, invocation, stop),
        stops(invocation, replies(stop)),
        forall|j: int|
            j < stop && #[trigger] concerned(config, invocation, j) ==> !stops(
                invocation,
                replies(j),
            ),
    ensures
        invocation_course(config, invocation, replies).outcome == verdict(replies(stop)),
        invocation_course(config, invocation, replies).executed.len() > 0,
        invocation_course(config, invocation, replies).executed.last() == stop,
        forall|j: int| #[trigger]
            invocation_course(config, invocation, replies).executed.contains(j) <==> (j <= stop
                && concerned(config, invocation, j)),
{
    course_to_stop(config, invocation, replies, 0, stop);
}

/// A handler is for an invocation if and only if it waits for the event and has no tool, or `*`, or
/// the tool that the invocation concerns. That holds at every event.
pub proof fn concerned_means_event_and_tool(
    config: HookConfigView,
    invocation: HookInvocationView,
    index: int,
)
    ensures
        concerned(config, invocation, index) <==> 0 <= index < config.handlers.len()
            && (
            config.handlers[index].event == invocation.event && (config.handlers[index].tool is None
            || config.handlers[index].tool == Some("*"@)
            || config.handlers[index].tool == invocation.tool)),
{
}

/// Only handlers that wait for the event and that have no tool, or `*`, or the tool that the
/// invocation concerns are executed.
pub proof fn only_matching_handlers_run(
    config: HookConfigView,
    invocation: HookInvocationView,
    replies: spec_fn(int) -> HookReplyView,
    index: int,
)
    requires
        invocation_course(config, invocation, replies).executed.contains(index),
    ensures
        0 <= index < config.handlers.len(),
        config.handlers[index].event == invocation.event,
        config.handlers[index].tool is None || config.handlers[index].tool == Some("*"@)
            || config.handlers[index].tool == invocation.tool,
{
    handlers_run_in_order(config, invocation, replies);
    let executed = invocation_course(config, invocation, replies).executed;
    let k = choose|k: int| 0 <= k < executed.len() && executed[k] == index;
    assert(concerned(config, invocation, executed[k]));
}

/// Where no handler asks to block and, before a tool runs, none fails, every handler that waits for
/// the event and that has no tool, or `*`, or the tool that the invocation concerns is executed, and
/// the outcome is to allow.
pub proof fn all_matching_handlers_run(
    config: HookConfigView,
    invocation: HookInvocationView,
    replies: spec_fn(int) -> HookReplyView,
    index: int,
)
    requires
        forall|j: int|
            0 <= j < config.handlers.len() && config.handlers[j].event == invocation.event && (
            config.handlers[j].tool is None || config.handlers[j].tool == Some("*"@)
                || config.handlers[j].tool == invocation.tool) ==> match #[trigger] replies(j) {
                Ok(outcome) => outcome is Allow,
                Err(_) => invocation.event != crate::event::HookEvent::BeforeTool,
            },
    ensures
        invocation_course(config, invocation, replies).outcome == HookOutcomeView::Allow,
        0 <= index < config.handlers.len() && config.handlers[index].event == invocation.event && (
        config.handlers[index].tool is None || config.handlers[index].tool == Some("*"@)
            || config.handlers[index].tool == invocation.tool) ==> invocation_course(
            config,
            invocation,
            replies,
        ).executed.contains(index),
{
    assert forall|j: int| #[trigger] concerned(config, invocation, j) implies !stops(
        invocation,
        replies(j),
    ) by {
        concerned_means_event_and_tool(config, invocation, j);
        assert(replies(j) is Ok ==> replies(j)->Ok_0 is Allow);
    }
    without_a_stop_all_run(config, invocation, replies);
    concerned_means_event_and_tool(config, invocation, index);
}

/// A reply ends an invocation if and only if it is a block, or a failure before a tool runs; the
/// outcome is then that block, or one that tells the failure.
pub proof fn stopping_means_blocking(invocation: HookInvocationView, reply: HookReplyView)
    ensures
        stops(invocation, reply) <==> match reply {
            Ok(outcome) => outcome is Block,
            Err(_) => invocation.event == crate::event::HookEvent::BeforeTool,
        },
        stops(invocation, reply) ==> match reply {
            Ok(outcome) => verdict(reply) == outcome,
            Err(error) => verdict(reply) == (HookOutcomeView::Block {
                reason: "Hook failed: "@ + error.message(),
            }),
        },
{
}

/// A course is made of steps: at the end it is over with the outcome, and before that it executes
/// the handler that it stands at and goes on with what the reply leads to.
pub proof fn courses_follow_the_steps(
    run: HookRunView,
    outcome: HookOutcomeView,
    replies: spec_fn(int) -> HookReplyView,
)
    ensures
        course(HookStepView::Done(outcome), replies).outcome == outcome,
        course(HookStepView::Done(outcome), replies).executed == Seq::<int>::empty(),
        course(HookStepView::Execute(run), replies).outcome == course(
            run.resume(replies(run.index)),
            replies,
        ).outcome,
        course(HookStepView::Execute(run), replies).executed == seq![run.index] + course(
            run.resume(replies(run.index)),
            replies,
        ).executed,
{
}

/// Where no reply ends an invocation, every handler that is for it is executed and the outcome is
/// to allow.
pub proof fn without_a_stop_all_run(
    config: HookConfigView,
    invocation: HookInvocationView,
    replies: spec_fn(int) -> HookReplyView,
)
    requires
        forall|j: int| #[trigger]
            concerned(config, invocation, j) ==> !stops(invocation, replies(j)),
    ensures
        invocation_course(config, invocation, replies).outcome == HookOutcomeView::Allow,
        forall|j: int| #[trigger]
            invocation_course(config, invocation, replies).executed.contains(j) <==> concerned(
                config,
                invocation,
                j,
            ),
{
    course_without_stop(config, invocation, replies, 0);
}

/// Replies in which every failure is replaced by an answer to allow.
pub open spec fn failures_allowed(
    replies: spec_fn(int) -> HookReplyView,
) -> spec_fn(int) -> HookReplyView {
    |i: int|
        match replies(i) {
            Ok(outcome) => Ok(outcome),
            Err(_) => Ok(HookOutcomeView::Allow),
        }
}

/// Replies in which every failure is replaced by an answer to block that gives it as the reason.
pub open spec fn failures_blocked(
    replies: spec_fn(int) -> HookReplyView,
) -> spec_fn(int) -> HookReplyView {
    |i: int| Ok(verdict(replies(i)))
}

/// The course from an index on where failures are replaced by what they count as.
proof fn course_with_failures_replaced(
    config: HookConfigView,
    invocation: HookInvocationView,
    replies: spec_fn(int) -> HookReplyView,
    from: int,
)
    requires
        0 <= from,
    ensures
        !invocation.event.decides() ==> course(
            crate::manager::advance(config, invocation, from),
            failures_allowed(replies),
        ) == course(crate::manager::advance(config, invocation, from), replies),
        invocation.event.decides() ==> course(
            crate::manager::advance(config, invocation, from),
            failures_blocked(replies),
        ) == course(crate::manager::advance(config, invocation, from), replies),
    decreases config.handlers.len() - from,
{
    advance_finds_the_next(config, invocation, from);
    if let HookStepView::Execute(run) = crate::manager::advance(config, invocation, from) {
        course_with_failures_replaced(config, invocation, replies, run.index + 1);
        reveal_with_fuel(course, 2);
        let reply = replies(run.index);
        if invocation.event.decides() {
            assert(run.resume(failures_blocked(replies)(run.index)) == run.resume(reply));
        } else {
            assert(run.resume(failures_allowed(replies)(run.index)) == run.resume(reply));
        }
    }
}

/// At an event at which hooks are not asked to decide, a failure counts as an answer to allow: the
/// same handlers are executed and the outcome is the same, whatever the other hooks reply.
pub proof fn observers_failures_count_as_allowing(
    config: HookConfigView,
    invocation: HookInvocationView,
    replies: spec_fn(int) -> HookReplyView,
)
    requires
        !invocation.event.decides(),
    ensures
        invocation_course(config, invocation, replies) == invocation_course(
            config,
            invocation,
            failures_allowed(replies),
        ),
{
    course_with_failures_replaced(config, invocation, replies, 0);
}

/// At an event at which hooks are asked to decide, a failure counts as an answer to block with the
/// failure as the reason: the same handlers are executed and the outcome is the same, whatever the
/// other hooks reply.
pub proof fn deciders_failures_count_as_blocking(
    config: HookConfigView,
    invocation: HookInvocationView,
    replies: spec_fn(int) -> HookReplyView,
)
    requires
        invocation.event.decides(),
    ensures
        invocation_course(config, invocation, replies) == invocation_course(
            config,
            invocation,
            failures_blocked(replies),
        ),
{
    course_with_failures_replaced(config, invocation, replies, 0);
}

/// A failure that is passed over leads to the same step as an answer to allow, and no other reply
/// is passed over.
pub proof fn passed_over_means_allowed(run: HookRunView, reply: HookReplyView)
    ensures
        run.passes_over(reply) ==> run.resume(reply) == run.resume(Ok(HookOutcomeView::Allow)),
        run.passes_over(reply) <==> reply is Err && !stops(run.invocation, reply),
{
}

/// At an event at which hooks are not asked to decide, a hook that fails neither blocks nor keeps
/// the other hooks from running: as long as none of them asks to block, all of them run and the
/// outcome is to allow.
pub proof fn observers_go_on_after_errors(
    config: HookConfigView,
    invocation: HookInvocationView,
    replies: spec_fn(int) -> HookReplyView,
)
    requires
        !invocation.event.decides(),
        forall|j: int| #[trigger]
            concerned(config, invocation, j) ==> (replies(j) == Ok::<_, HookErrorView>(
                HookOutcomeView::Allow,
            ) || replies(j) is Err),
    ensures
        invocation_course(config, invocation, replies).outcome == HookOutcomeView::Allow,
        forall|j: int| #[trigger]
            invocation_course(config, invocation, replies).executed.contains(j) <==> concerned(
                config,
                invocation,
                j,
            ),
{
    without_a_stop_all_run(config, invocation, replies);
}

/// At an event at which hooks are asked to decide, the outcome is to allow if and only if every hook that is
/// for the invocation answers to allow: a failure counts as a block.
pub proof fn a_tool_runs_only_if_every_hook_allows(
    config: HookConfigView,
    invocation: HookInvocationView,
    replies: spec_fn(int) -> HookReplyView,
)
    requires
        invocation.event.decides(),
    ensures
        invocation_course(config, invocation, replies).outcome == HookOutcomeView::Allow <==> (
        forall|j: int| #[trigger]
            concerned(config, invocation, j) ==> replies(j) == Ok::<_, HookErrorView>(
                HookOutcomeView::Allow,
            )),
{
    if forall|j: int| #[trigger]
        concerned(config, invocation, j) ==> replies(j) == Ok::<_, HookErrorView>(
            HookOutcomeView::Allow,
        ) {
        without_a_stop_all_run(config, invocation, replies);
    } else {
        let stop = first_stop(config, invocation, replies, 0);
        course_to_stop(config, invocation, replies, 0, stop);
    }
}

/// An invocation that no handler is for executes nothing and is allowed.
pub proof fn unconcerned_invocations_are_allowed(
    config: HookConfigView,
    invocation: HookInvocationView,
    replies: spec_fn(int) -> HookReplyView,
)
    requires
        forall|j: int| !#[trigger] concerned(config, invocation, j),
    ensures
        invocation_course(config, invocation, replies).executed.len() == 0,
        invocation_course(config, invocation, replies).outcome == HookOutcomeView::Allow,
{
    without_a_stop_all_run(config, invocation, replies);
    let executed = invocation_course(config, invocation, replies).executed;
    if executed.len() > 0 {
        assert(executed.contains(executed[0]));
    }
}

/// What the outside world answers at each stage of running a shell command.
pub struct ShellAnswers {
    pub spawn: Result<bool, Seq<char>>,
    pub write: Result<(), Seq<char>>,
    pub wait: WaitReplyView,
    /// What a parser makes of each text.
    pub parse: spec_fn(Seq<char>) -> Result<HookDecisionView, Seq<char>>,
}

/// How many stages may still follow a step.
pub open spec fn stages_left(step: ShellStepView) -> nat {
    match step {
        ShellStepView::Spawn { .. } => 4,
        ShellStepView::Write { .. } => 3,
        ShellStepView::Wait { .. } => 2,
        ShellStepView::Parse { .. } => 1,
        ShellStepView::Done(_) => 0,
    }
}

/// What a shell command comes to from a step on.
pub open spec fn shell_reply(step: ShellStepView, answers: ShellAnswers) -> HookReplyView
    decreases stages_left(step),
{
    match step {
        ShellStepView::Spawn { input, event, timeout_ms, .. } => shell_reply(
            crate::shell::after_spawn(input, event, timeout_ms, answers.spawn),
            answers,
        ),
        ShellStepView::Write { event, timeout_ms, .. } => shell_reply(
            crate::shell::after_write(event, timeout_ms, answers.write),
            answers,
        ),
        ShellStepView::Wait { event, timeout_ms } => shell_reply(
            crate::shell::after_wait(event, timeout_ms, answers.wait),
            answers,
        ),
        ShellStepView::Parse { text } => shell_reply(
            crate::shell::after_parse((answers.parse)(text)),
            answers,
        ),
        ShellStepView::Done(reply) => reply,
    }
}

/// What a handler's shell command comes to for an invocation.
pub open spec fn command_reply(
    handler: HookHandlerView,
    invocation: HookInvocationView,
    timeout_ms: u128,
    answers: ShellAnswers,
) -> HookReplyView {
    shell_reply(crate::shell::first_step(handler, invocation, timeout_ms), answers)
}

/// Whether a command was started and given its input.
pub open spec fn launched(invocation: HookInvocationView, answers: ShellAnswers) -> bool {
    &&& invocation.json() is Ok
    &&& match answers.spawn {
        Ok(open) => open ==> answers.write is Ok,
        Err(_) => false,
    }
}

/// Whether a command was started, given its input, and ended well and in time.
pub open spec fn completed(invocation: HookInvocationView, answers: ShellAnswers) -> bool {
    &&& launched(invocation, answers)
    &&& answers.wait matches WaitReplyView::Finished(output) && output.success
}

/// The text that a command answers with: what it wrote, without white space at the ends.
pub open spec fn answer_text(answers: ShellAnswers) -> Seq<char>
    recommends
        answers.wait is Finished,
{
    crate::text::trim(crate::text::decoded(answers.wait->Finished_0.stdout))
}

/// A shell command reads its invocation: where the invocation has a document, the handler's
/// command is run by `sh -c` in the invocation's directory, and what is written to its standard
/// input is that document in UTF-8.
pub proof fn commands_read_their_invocation(
    handler: HookHandlerView,
    invocation: HookInvocationView,
    timeout_ms: u128,
)
    requires
        invocation.json() is Ok,
    ensures
        match crate::shell::first_step(handler, invocation, timeout_ms) {
            ShellStepView::Spawn { command, input, event, timeout_ms } => {
                &&& command.program == "sh"@
                &&& command.args == seq!["-c"@, handler.command]
                &&& command.cwd == invocation.cwd
                &&& match crate::shell::after_spawn(input, event, timeout_ms, Ok(true)) {
                    ShellStepView::Write { input, .. } => vstd::utf8::valid_utf8(input)
                        && vstd::utf8::decode_utf8(input) == invocation.json()->Ok_0,
                    _ => false,
                }
            },
            _ => false,
        },
{
    vstd::utf8::encode_utf8_valid_utf8(invocation.json()->Ok_0);
    vstd::utf8::encode_utf8_decode_utf8(invocation.json()->Ok_0);
}

/// What a shell command writes in UTF-8 is its answer as it stands, without white space at the
/// ends. Where the command is to decide and completes, what a parser makes of that text is what the
/// command comes to.
pub proof fn utf8_answers_are_parsed_as_written(
    handler: HookHandlerView,
    invocation: HookInvocationView,
    timeout_ms: u128,
    answers: ShellAnswers,
    written: Seq<char>,
)
    requires
        invocation.event.decides(),
        completed(invocation, answers),
        answers.wait->Finished_0.stdout == vstd::utf8::encode_utf8(written),
    ensures
        answer_text(answers) == crate::text::trim(written),
        command_reply(handler, invocation, timeout_ms, answers) == match (answers.parse)(
            crate::text::trim(written),
        ) {
            Ok(decision) => Ok::<HookOutcomeView, HookErrorView>(decision.outcome()),
            Err(cause) => Err(HookErrorView::InvalidJson(cause)),
        },
{
    reveal_with_fuel(shell_reply, 5);
    vstd::utf8::encode_utf8_valid_utf8(written);
    vstd::utf8::encode_utf8_decode_utf8(written);
}

/// Where a shell command is to decide, it gives an outcome if and only if it completes and its
/// answer can be parsed, and then the outcome is the one that it answered with; in every other
/// case it is an error.
pub proof fn deciding_command_needs_an_answer(
    handler: HookHandlerView,
    invocation: HookInvocationView,
    timeout_ms: u128,
    answers: ShellAnswers,
)
    requires
        invocation.event.decides(),
    ensures
        match command_reply(handler, invocation, timeout_ms, answers) {
            Ok(outcome) => completed(invocation, answers) && match (answers.parse)(
                answer_text(answers),
            ) {
                Ok(decision) => outcome == decision.outcome(),
                Err(_) => false,
            },
            Err(_) => !(completed(invocation, answers) && (answers.parse)(
                answer_text(answers),
            ) is Ok),
        },
{
    reveal_with_fuel(shell_reply, 5);
}

/// Where a shell command is not asked to decide, it never blocks: it allows if and only if it completes,
/// whatever it wrote on its standard output.
pub proof fn observing_command_never_blocks(
    handler: HookHandlerView,
    invocation: HookInvocationView,
    timeout_ms: u128,
    answers: ShellAnswers,
)
    requires
        !invocation.event.decides(),
    ensures
        match command_reply(handler, invocation, timeout_ms, answers) {
            Ok(outcome) => completed(invocation, answers) && outcome == HookOutcomeView::Allow,
            Err(_) => !completed(invocation, answers),
        },
{
    reveal_with_fuel(shell_reply, 5);
}

/// A command that does not end in time is reported with the timeout that it was given.
pub proof fn timeouts_are_reported(
    handler: HookHandlerView,
    invocation: HookInvocationView,
    timeout_ms: u64,
    answers: ShellAnswers,
)
    requires
        launched(invocation, answers),
        answers.wait is TimedOut,
    ensures
        command_reply(handler, invocation, timeout_ms as u128, answers) == Err::<
            HookOutcomeView,
            _,
        >(HookErrorView::Timeout { timeout_ms }),
{
    reveal_with_fuel(shell_reply, 5);
}

/// A command that ends badly is reported with its exit code and what it wrote on its standard
/// error, whatever event it ran at and whatever it wrote on its standard output.
pub proof fn bad_ends_are_reported(
    handler: HookHandlerView,
    invocation: HookInvocationView,
    timeout_ms: u128,
    answers: ShellAnswers,
)
    requires
        launched(invocation, answers),
        answers.wait is Finished,
        !answers.wait->Finished_0.success,
    ensures
        command_reply(handler, invocation, timeout_ms, answers) == Err::<HookOutcomeView, _>(
            HookErrorView::Status {
                status: crate::shell::status_text(answers.wait->Finished_0.code),
                stderr: crate::text::trim(crate::text::decoded(answers.wait->Finished_0.stderr)),
            },
        ),
{
    reveal_with_fuel(shell_reply, 5);
}

/// The replies of shell commands, where `answers` gives the outside world's answers for the
/// handler at each index.
pub open spec fn command_replies(
    config: HookConfigView,
    invocation: HookInvocationView,
    answers: spec_fn(int) -> ShellAnswers,
) -> spec_fn(int) -> HookReplyView {
    |i: int|
        command_reply(config.handlers[i], invocation, config.timeout_ms as u128, answers(i))
}

/// Shell commands that are not asked to decide have no say in a run: all that are for the invocation run, and
/// the outcome is to allow.
pub proof fn observing_commands_have_no_say(
    config: HookConfigView,
    invocation: HookInvocationView,
    answers: spec_fn(int) -> ShellAnswers,
)
    requires
        !invocation.event.decides(),
    ensures
        invocation_course(
            config,
            invocation,
            command_replies(config, invocation, answers),
        ).outcome == HookOutcomeView::Allow,
        forall|j: int| #[trigger]
            invocation_course(
                config,
                invocation,
                command_replies(config, invocation, answers),
            ).executed.contains(j) <==> concerned(config, invocation, j),
{
    let replies = command_replies(config, invocation, answers);
    assert forall|j: int| #[trigger] concerned(config, invocation, j) implies !stops(
        invocation,
        replies(j),
    ) by {
        observing_command_never_blocks(
            config.handlers[j],
            invocation,
            config.timeout_ms as u128,
            answers(j),
        );
    }
    without_a_stop_all_run(config, invocation, replies);
}

/// Before a tool runs, every shell command that is for the invocation has to complete and to
/// answer that it allows; otherwise the tool is blocked.
pub proof fn a_tool_runs_only_if_every_command_allows(
    config: HookConfigView,
    invocation: HookInvocationView,
    answers: spec_fn(int) -> ShellAnswers,
)
    requires
        invocation.event.decides(),
    ensures
        invocation_course(
            config,
            invocation,
            command_replies(config, invocation, answers),
        ).outcome == HookOutcomeView::Allow <==> (forall|j: int| #[trigger]
            concerned(config, invocation, j) ==> completed(invocation, answers(j)) && (answers(
                j,
            ).parse)(answer_text(answers(j))) == Ok::<_, Seq<char>>(HookDecisionView::Allow)),
{
    let replies = command_replies(config, invocation, answers);
    a_tool_runs_only_if_every_hook_allows(config, invocation, replies);
    assert forall|j: int| #[trigger] concerned(config, invocation, j) implies (replies(j) == Ok::<
        _,
        HookErrorView,
    >(HookOutcomeView::Allow)) == (completed(invocation, answers(j)) && (answers(j).parse)(
        answer_text(answers(j)),
    ) == Ok::<_, Seq<char>>(HookDecisionView::Allow)) by {
        deciding_command_needs_an_answer(
            config.handlers[j],
            invocation,
            config.timeout_ms as u128,
            answers(j),
        );
    }
}

/// What a shell command comes to is settled by what the outside world answers, in this order: that
/// the working directory has a text, that the process is started, that its input is written, that
/// it ends in time, that it ends well, and, before a tool runs, that what it wrote on its standard
/// output, decoded and without white space at the ends, can be parsed. The first of these that
/// fails is reported with its cause. Nothing else that the invocation or the handler says matters.
pub proof fn commands_come_to_what_the_world_answers(
    handler: HookHandlerView,
    invocation: HookInvocationView,
    timeout_ms: u128,
    answers: ShellAnswers,
)
    ensures
        command_reply(handler, invocation, timeout_ms, answers) == if crate::json::path_text(
            invocation.cwd,
        ) is None {
            Err(HookErrorView::InvalidJson("path contains invalid UTF-8 characters"@))
        } else if answers.spawn is Err {
            Err(HookErrorView::Spawn(answers.spawn->Err_0))
        } else if answers.spawn->Ok_0 && answers.write is Err {
            Err(HookErrorView::Spawn(answers.write->Err_0))
        } else {
            match answers.wait {
                WaitReplyView::TimedOut => Err(
                    HookErrorView::Timeout {
                        timeout_ms: (timeout_ms % 0x1_0000_0000_0000_0000) as u64,
                    },
                ),
                WaitReplyView::Failed(cause) => Err(HookErrorView::Spawn(cause)),
                WaitReplyView::Finished(output) => if !output.success {
                    Err(
                        HookErrorView::Status {
                            status: match output.code {
                                Some(code) => crate::text::signed_decimal(code as int),
                                None => "signal"@,
                            },
                            stderr: crate::text::trim(crate::text::decoded(output.stderr)),
                        },
                    )
                } else if invocation.event != crate::event::HookEvent::BeforeTool {
                    Ok(HookOutcomeView::Allow)
                } else {
                    match (answers.parse)(
                        crate::text::trim(crate::text::decoded(output.stdout)),
                    ) {
                        Ok(HookDecisionView::Allow) => Ok(HookOutcomeView::Allow),
                        Ok(HookDecisionView::Block { reason }) => Ok(
                            HookOutcomeView::Block { reason },
                        ),
                        Err(cause) => Err(HookErrorView::InvalidJson(cause)),
                    }
                },
            }
        },
{
    reveal_with_fuel(shell_reply, 5);
}

/// Before a tool runs, a command that ends well is answered for by what it wrote: white space around
/// a text that begins and ends with none does not matter, and the text reaches the parser in full.
pub proof fn answers_reach_the_parser_in_full(
    handler: HookHandlerView,
    invocation: HookInvocationView,
    timeout_ms: u128,
    answers: ShellAnswers,
    front: Seq<char>,
    answer: Seq<char>,
    back: Seq<char>,
)
    requires
        invocation.event == crate::event::HookEvent::BeforeTool,
        crate::json::path_text(invocation.cwd) is Some,
        answers.spawn == Ok::<bool, Seq<char>>(true),
        answers.write is Ok,
        answers.wait matches WaitReplyView::Finished(output) && output.success && output.stdout
            == vstd::utf8::encode_utf8(front + answer + back),
        forall|i: int| 0 <= i < front.len() ==> crate::text::white_space(#[trigger] front[i]),
        forall|i: int| 0 <= i < back.len() ==> crate::text::white_space(#[trigger] back[i]),
        answer.len() > 0 ==> !crate::text::white_space(answer.first())
            && !crate::text::white_space(answer.last()),
    ensures
        command_reply(handler, invocation, timeout_ms, answers) == match (answers.parse)(answer) {
            Ok(HookDecisionView::Allow) => Ok::<HookOutcomeView, HookErrorView>(
                HookOutcomeView::Allow,
            ),
            Ok(HookDecisionView::Block { reason }) => Ok(HookOutcomeView::Block { reason }),
            Err(cause) => Err(HookErrorView::InvalidJson(cause)),
        },
{
    commands_come_to_what_the_world_answers(handler, invocation, timeout_ms, answers);
    crate::text::utf8_is_decoded_as_encoded(front + answer + back, Seq::empty());
    crate::text::trimming_is_unique(front, answer, back);
}

/// A command is launched if and only if the working directory has a text, the process was started
/// and, where its standard input is open, the input was written; it completes if and only if it also
/// ended in time and well.
pub proof fn completing_means_ending_well(invocation: HookInvocationView, answers: ShellAnswers)
    ensures
        launched(invocation, answers) <==> crate::json::path_text(invocation.cwd) is Some
            && answers.spawn is Ok && (answers.spawn->Ok_0 ==> answers.write is Ok),
        completed(invocation, answers) <==> launched(invocation, answers) && answers.wait is Finished
            && answers.wait->Finished_0.success,
        answers.wait is Finished ==> answer_text(answers) == crate::text::trim(
            crate::text::decoded(answers.wait->Finished_0.stdout),
        ),
{
}

} // verus!
