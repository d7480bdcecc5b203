//! A call, from its first process to its result.
//!
//! A call tries its methods in order, one process at a time. Whoever runs
//! the call starts the process that it asks for and reports how the process
//! ended; the call then either ends with a result or asks for the next
//! process.

use crate::laws::{law_password_listing, law_passwordless_listing, lemma_result_after_failures};
use crate::method::{
    listing_view, methods_view, text_view, ElevationError, Invocation, Listing, LsRootMethod,
    ProcessOutcome,
};
use crate::model::{
    interpret, invocation_of, password_call, passwordless_call, passwordless_listing,
    result_after, step_after, AttemptModel, MethodModel, OutcomeModel, StepModel,
};
use vstd::prelude::*;

verus! {

/// A call that waits for the process of one of its methods.
#[derive(Debug, PartialEq, Eq)]
pub struct Attempt {
    methods: Vec<LsRootMethod>,
    index: usize,
    summary: Option<String>,
}

impl View for Attempt {
    type V = AttemptModel;

    closed spec fn view(&self) -> AttemptModel {
        AttemptModel {
            methods: methods_view(self.methods@),
            index: self.index as nat,
            summary: text_view(self.summary),
        }
    }
}

/// Where a call stands after a process has ended.
#[derive(Debug, PartialEq, Eq)]
pub enum Step {
    /// Another process is to be started.
    Run(Attempt),
    /// The call is over.
    Done(Listing),
}

impl View for Step {
    type V = StepModel;

    open spec fn view(&self) -> StepModel {
        match self {
            Step::Run(attempt) => StepModel::Run(attempt@),
            Step::Done(listing) => StepModel::Done(listing_view(*listing)),
        }
    }
}

impl Attempt {
    /// The awaited method is one of the call's methods.
    #[verifier::type_invariant]
    spec fn in_range(self) -> bool {
        self.index < self.methods.len()
    }

    /// A call that tries `methods` in their order, or nothing where there
    /// is no method to try. With a `summary` the failure of every method is
    /// reported under that name; without one, as the last method failed.
    pub fn new(methods: Vec<LsRootMethod>, summary: Option<String>) -> (attempt: Option<Attempt>)
        ensures
            attempt is Some <==> methods@.len() > 0,
            attempt matches Some(call) ==> call@ == (AttemptModel {
                methods: methods_view(methods@),
                index: 0,
                summary: text_view(summary),
            }),
    {
        if methods.len() == 0 {
            None
        } else {
            Some(Attempt { methods, index: 0, summary })
        }
    }

    /// The call that lists `/root` without a password, before its first
    /// process.
    pub fn passwordless() -> (attempt: Attempt)
        ensures
            attempt@ == passwordless_call(),
    {
        let mut methods: Vec<LsRootMethod> = Vec::new();
        methods.push(LsRootMethod::Pkexec);
        let attempt = Attempt { methods, index: 0, summary: Some("polkit".to_owned()) };
        assert(attempt@.methods =~= passwordless_call().methods);
        attempt
    }

    /// The call that lists `/root` with `password`, before its first
    /// process. The password is taken as it is.
    pub fn with_password(password: String) -> (attempt: Attempt)
        ensures
            attempt@ == password_call(password@),
    {
        let mut methods: Vec<LsRootMethod> = Vec::new();
        methods.push(LsRootMethod::Sudo { password });
        let attempt = Attempt { methods, index: 0, summary: None };
        assert(attempt@.methods =~= password_call(password@).methods);
        attempt
    }

    /// The process to start now.
    pub fn invocation(&self) -> (invocation: Invocation)
        ensures
            self@.wf(),
            invocation@ == invocation_of(self@.method()),
    {
        proof {
            use_type_invariant(self);
        }
        self.methods[self.index].invocation()
    }

    /// Takes in how the process ended, and says where the call stands.
    pub fn finish(self, outcome: ProcessOutcome) -> (step: Step)
        ensures
            self@.wf(),
            step@ == step_after(self@, outcome@),
    {
        proof {
            use_type_invariant(&self);
        }
        let Attempt { methods, index, summary } = self;
        match methods[index].interpret(outcome) {
            Ok(lines) => Step::Done(Ok(lines)),
            Err(error) => {
                if index + 1 < methods.len() {
                    let next = Attempt { methods, index: index + 1, summary };
                    Step::Run(next)
                } else {
                    match summary {
                        Some(name) => Step::Done(Err(ElevationError::ElevationFailed(name))),
                        None => Step::Done(Err(error)),
                    }
                }
            },
        }
    }
}

/// `outcome` is a way in which `runner` may answer when it is handed the
/// process of `method`.
pub open spec fn may_answer<R: Fn(Invocation) -> ProcessOutcome>(
    runner: R,
    method: MethodModel,
    outcome: OutcomeModel,
) -> bool {
    exists|invocation: Invocation, end: ProcessOutcome|
        invocation@ == invocation_of(method) && end@ == outcome && call_ensures(
            runner,
            (invocation,),
            end,
        )
}

/// `runner` can be handed the process of every method that `attempt` has
/// left.
pub open spec fn can_run<R: Fn(Invocation) -> ProcessOutcome>(
    runner: R,
    attempt: AttemptModel,
) -> bool {
    forall|invocation: Invocation, j: int|
        0 <= j < attempt.remaining() && invocation@ == invocation_of(
            #[trigger] attempt.methods[attempt.index + j],
        ) ==> #[trigger] call_requires(runner, (invocation,))
}

/// `outcomes` are what `runner` answered to the processes of `attempt`, one
/// method after the other, up to the one that ended the call.
pub open spec fn is_trace<R: Fn(Invocation) -> ProcessOutcome>(
    runner: R,
    attempt: AttemptModel,
    outcomes: Seq<OutcomeModel>,
) -> bool {
    &&& 0 < outcomes.len() <= attempt.remaining()
    &&& forall|j: int|
        0 <= j < outcomes.len() ==> may_answer(
            runner,
            attempt.methods[attempt.index + j],
            #[trigger] outcomes[j],
        )
    &&& result_after(StepModel::Run(attempt), outcomes.drop_last()) is None
}

impl Attempt {
    /// Runs the call to its end. `runner` starts a process, waits for it
    /// and reports how it ended; it is handed one process at a time, in the
    /// order of the methods, and none once the call is over.
    pub fn complete<R: Fn(Invocation) -> ProcessOutcome>(self, runner: R) -> (listing: Listing)
        requires
            can_run(runner, self@),
        ensures
            exists|outcomes: Seq<OutcomeModel>|
                is_trace(runner, self@, outcomes) && #[trigger] result_after(
                    StepModel::Run(self@),
                    outcomes,
                ) == Some(listing_view(listing)),
    {
        proof {
            use_type_invariant(&self);
        }
        let ghost start = self@;
        let ghost mut outcomes: Seq<OutcomeModel> = Seq::empty();
        let mut attempt = self;
        loop
            invariant
                start == self@,
                can_run(runner, start),
                start.index + outcomes.len() < start.methods.len(),
                attempt@ == (AttemptModel { index: start.index + outcomes.len(), ..start }),
                forall|j: int|
                    0 <= j < outcomes.len() ==> may_answer(
                        runner,
                        start.methods[start.index + j],
                        #[trigger] outcomes[j],
                    ),
                forall|j: int|
                    0 <= j < outcomes.len() ==> interpret(
                        start.methods[start.index + j],
                        #[trigger] outcomes[j],
                    ) is Err,
            decreases attempt@.remaining(),
        {
            proof {
                use_type_invariant(&attempt);
            }
            let outcome = runner(attempt.invocation());
            let ghost failed = outcomes;
            proof {
                outcomes = failed.push(outcome@);
            }
            match attempt.finish(outcome) {
                Step::Done(listing) => {
                    proof {
                        lemma_result_after_failures(start, failed, outcome@);
                        assert(outcomes.drop_last() =~= failed);
                    }
                    return listing;
                },
                Step::Run(next) => {
                    attempt = next;
                },
            }
        }
    }
}

/// Lists `/root` without a password. `runner` starts the process of the
/// authorization agent, waits for it and reports how it ended.
///
/// The listing is the output of the agent's process, line by line, where
/// that process succeeded; any failure is reported as the failure of
/// elevation through polkit.
pub fn ls_with_polkit<R: Fn(Invocation) -> ProcessOutcome>(runner: R) -> (listing: Listing)
    requires
        can_run(runner, passwordless_call()),
    ensures
        exists|outcome: OutcomeModel|
            #[trigger] may_answer(runner, MethodModel::Pkexec, outcome) && listing_view(listing)
                == passwordless_listing(outcome),
{
    let listing = Attempt::passwordless().complete(runner);
    proof {
        let outcomes = choose|outcomes: Seq<OutcomeModel>|
            is_trace(runner, passwordless_call(), outcomes) && #[trigger] result_after(
                StepModel::Run(passwordless_call()),
                outcomes,
            ) == Some(listing_view(listing));
        assert(outcomes =~= seq![outcomes[0]]);
        law_passwordless_listing(outcomes[0]);
    }
    listing
}

/// Lists `/root` with `password`, which is taken as it is. `runner` starts
/// the process of `sudo`, feeds it, waits for it and reports how it ended.
///
/// The listing is the output of that process, line by line, where it
/// succeeded; where it failed, the password was refused.
pub fn ls_with_sudo<R: Fn(Invocation) -> ProcessOutcome>(
    password: String,
    runner: R,
) -> (listing: Listing)
    requires
        can_run(runner, password_call(password@)),
    ensures
        exists|outcome: OutcomeModel|
            #[trigger] may_answer(runner, MethodModel::Sudo { password: password@ }, outcome)
                && listing_view(listing) == interpret(
                MethodModel::Sudo { password: password@ },
                outcome,
            ),
{
    let ghost call = password_call(password@);
    let listing = Attempt::with_password(password).complete(runner);
    proof {
        let outcomes = choose|outcomes: Seq<OutcomeModel>|
            is_trace(runner, call, outcomes) && #[trigger] result_after(
                StepModel::Run(call),
                outcomes,
            ) == Some(listing_view(listing));
        assert(outcomes =~= seq![outcomes[0]]);
        law_password_listing(password@, outcomes[0]);
    }
    listing
}

} // verus!
