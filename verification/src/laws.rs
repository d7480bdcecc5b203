//! What holds of every call.

use crate::model::{
    answers, failure, interpret, invocation_of, password_call, passwordless_call,
    passwordless_listing, result_after, step_after, AttemptModel, ErrorModel, InvocationModel,
    MethodModel, OutcomeModel, StepModel,
};
use vstd::prelude::*;

verus! {

/// After methods that all failed, the outcome that ends the call gives its
/// result, and not before.
pub proof fn lemma_result_after_failures(
    attempt: AttemptModel,
    failed: Seq<OutcomeModel>,
    last: OutcomeModel,
)
    requires
        attempt.wf(),
        attempt.index + failed.len() < attempt.methods.len(),
        forall|j: int|
            0 <= j < failed.len() ==> interpret(
                attempt.methods[attempt.index + j],
                #[trigger] failed[j],
            ) is Err,
        step_after(AttemptModel { index: attempt.index + failed.len(), ..attempt }, last) is Done,
    ensures
        result_after(StepModel::Run(attempt), failed) is None,
        result_after(StepModel::Run(attempt), failed.push(last)) == Some(
            step_after(
                AttemptModel { index: attempt.index + failed.len(), ..attempt },
                last,
            )->Done_0,
        ),
    decreases failed.len(),
{
    reveal_with_fuel(result_after, 2);
    if failed.len() > 0 {
        let next = attempt.advanced();
        assert(failed.push(last).skip(1) =~= failed.skip(1).push(last));
        assert forall|j: int| 0 <= j < failed.skip(1).len() implies interpret(
            next.methods[next.index + j],
            #[trigger] failed.skip(1)[j],
        ) is Err by {}
        lemma_result_after_failures(next, failed.skip(1), last);
    }
}

/// The methods of a call are fixed, and they are tried one by one in their
/// order: a step either ends the call or moves on to the very next method.
pub proof fn law_methods_in_order(attempt: AttemptModel, outcome: OutcomeModel)
    requires
        attempt.wf(),
    ensures
        step_after(attempt, outcome) matches StepModel::Run(next) ==> {
            &&& next.wf()
            &&& next.methods == attempt.methods
            &&& next.summary == attempt.summary
            &&& next.index == attempt.index + 1
            &&& interpret(attempt.method(), outcome) is Err
        },
{
}

/// A call never waits for more processes than it has methods left: once
/// that many have ended, whatever their outcomes, the call is over.
pub proof fn law_call_ends(attempt: AttemptModel, outcomes: Seq<OutcomeModel>)
    requires
        attempt.wf(),
        outcomes.len() >= attempt.remaining(),
    ensures
        result_after(StepModel::Run(attempt), outcomes) is Some,
    decreases attempt.remaining(),
{
    reveal_with_fuel(result_after, 2);
    match step_after(attempt, outcomes[0]) {
        StepModel::Done(_) => {},
        StepModel::Run(next) => {
            law_call_ends(next, outcomes.skip(1));
        },
    }
}

/// The first method that succeeds decides: the call returns its listing,
/// and neither a later method nor a later outcome changes that.
pub proof fn law_first_success_wins(attempt: AttemptModel, outcomes: Seq<OutcomeModel>, winner: int)
    requires
        attempt.wf(),
        0 <= winner < outcomes.len(),
        attempt.index + winner < attempt.methods.len(),
        forall|j: int|
            0 <= j < winner ==> interpret(
                #[trigger] attempt.methods[attempt.index + j],
                outcomes[j],
            ) is Err,
        interpret(attempt.methods[attempt.index + winner], outcomes[winner]) is Ok,
    ensures
        result_after(StepModel::Run(attempt), outcomes) == Some(
            interpret(attempt.methods[attempt.index + winner], outcomes[winner]),
        ),
    decreases winner,
{
    reveal_with_fuel(result_after, 2);
    if winner > 0 {
        let next = attempt.advanced();
        let later = outcomes.skip(1);
        assert(interpret(attempt.methods[attempt.index + 0int], outcomes[0]) is Err);
        assert forall|j: int| 0 <= j < winner - 1 implies interpret(
            #[trigger] next.methods[next.index + j],
            later[j],
        ) is Err by {
            assert(interpret(attempt.methods[attempt.index + (j + 1)], outcomes[j + 1]) is Err);
        }
        law_first_success_wins(next, later, winner - 1);
    }
}

/// Where every method fails, the call fails: under its summary's name where
/// it has one, and else with the error of its last method.
pub proof fn law_all_methods_failed(attempt: AttemptModel, outcomes: Seq<OutcomeModel>)
    requires
        attempt.wf(),
        outcomes.len() >= attempt.remaining(),
        forall|j: int|
            0 <= j < attempt.remaining() ==> interpret(
                #[trigger] attempt.methods[attempt.index + j],
                outcomes[j],
            ) is Err,
    ensures
        result_after(StepModel::Run(attempt), outcomes) matches Some(Err(error)) && error
            == attempt.final_error(
            interpret(attempt.methods.last(), outcomes[attempt.remaining() - 1])->Err_0,
        ),
    decreases attempt.remaining(),
{
    reveal_with_fuel(result_after, 2);
    assert(interpret(attempt.methods[attempt.index + 0int], outcomes[0]) is Err);
    if attempt.remaining() > 1 {
        let next = attempt.advanced();
        let later = outcomes.skip(1);
        assert forall|j: int| 0 <= j < next.remaining() implies interpret(
            #[trigger] next.methods[next.index + j],
            later[j],
        ) is Err by {
            assert(interpret(attempt.methods[attempt.index + (j + 1)], outcomes[j + 1]) is Err);
        }
        law_all_methods_failed(next, later);
    }
}

/// The listing without a password, whatever becomes of its process: the
/// lines that the agent's process wrote where it succeeded, and else the
/// failure of elevation through polkit. In particular a missing agent
/// gives that failure after one process, with nothing more to wait for.
pub proof fn law_passwordless_listing(outcome: OutcomeModel)
    ensures
        result_after(StepModel::Run(passwordless_call()), seq![outcome]) == Some(
            passwordless_listing(outcome),
        ),
        interpret(MethodModel::Pkexec, OutcomeModel::SpawnFailed) == failure(
            ErrorModel::ElevationToolUnavailable,
        ),
        passwordless_listing(OutcomeModel::SpawnFailed) == failure(
            ErrorModel::ElevationFailed("polkit"@),
        ),
{
    let step = step_after(passwordless_call(), outcome);
    assert(result_after(step, seq![outcome].skip(1)) == Some(step->Done_0));
}

/// The listing with a password, whatever becomes of its process: what the
/// end of that one process means, and nothing else. A refused password is
/// a denied permission; it is not tried again and not reported under
/// another name.
pub proof fn law_password_listing(password: Seq<char>, outcome: OutcomeModel)
    ensures
        result_after(StepModel::Run(password_call(password)), seq![outcome]) == Some(
            interpret(MethodModel::Sudo { password }, outcome),
        ),
        outcome matches OutcomeModel::Exited { success: false, .. } ==> interpret(
            MethodModel::Sudo { password },
            outcome,
        ) == failure(ErrorModel::PermissionDenied),
{
    let step = step_after(password_call(password), outcome);
    assert(result_after(step, seq![outcome].skip(1)) == Some(step->Done_0));
}

/// Calls with different passwords start different processes, so a backend
/// can tell them apart.
pub proof fn law_passwords_tell_invocations_apart(first: Seq<char>, second: Seq<char>)
    requires
        first != second,
    ensures
        invocation_of(MethodModel::Sudo { password: first }) != invocation_of(
            MethodModel::Sudo { password: second },
        ),
{
    let a = first.push('\n');
    let b = second.push('\n');
    if a == b {
        assert(a.drop_last() =~= first);
        assert(b.drop_last() =~= second);
    }
}

/// Two listings with passwords share nothing. Against a backend that
/// answers each invocation in one way, each call returns what the backend
/// gave to its own process, whatever the other call's password is and
/// whatever the backend gave to that one.
pub proof fn law_password_calls_are_separate(
    backend: spec_fn(InvocationModel) -> OutcomeModel,
    first: Seq<char>,
    second: Seq<char>,
)
    ensures
        result_after(
            StepModel::Run(password_call(first)),
            answers(backend, password_call(first)),
        ) == Some(
            interpret(
                MethodModel::Sudo { password: first },
                backend(invocation_of(MethodModel::Sudo { password: first })),
            ),
        ),
        result_after(
            StepModel::Run(password_call(second)),
            answers(backend, password_call(second)),
        ) == Some(
            interpret(
                MethodModel::Sudo { password: second },
                backend(invocation_of(MethodModel::Sudo { password: second })),
            ),
        ),
{
    let one = backend(invocation_of(MethodModel::Sudo { password: first }));
    let two = backend(invocation_of(MethodModel::Sudo { password: second }));
    assert(answers(backend, password_call(first)) =~= seq![one]);
    assert(answers(backend, password_call(second)) =~= seq![two]);
    law_password_listing(first, one);
    law_password_listing(second, two);
}

} // verus!
