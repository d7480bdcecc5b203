//! The mathematical model: which process a method starts, what the end of
//! that process means, and how a call goes from one method to the next.

use crate::lines::lines_of;
use vstd::prelude::*;
use vstd::utf8::{decode_utf8, valid_utf8};

verus! {

/// A way of running the listing with the privileges it needs.
pub enum MethodModel {
    /// Ask the authorization agent, which prompts the user.
    Pkexec,
    /// Hand a password to `sudo`.
    Sudo { password: Seq<char> },
}

/// A process to start: the program, its arguments, and what to write to
/// its standard input before closing it.
pub struct InvocationModel {
    pub program: Seq<char>,
    pub args: Seq<Seq<char>>,
    pub stdin: Option<Seq<char>>,
}

/// How a process ended.
pub enum OutcomeModel {
    /// The program could not be started at all.
    SpawnFailed,
    /// The program ran to its end, with or without success, and wrote
    /// `stdout` to its standard output.
    Exited { success: bool, stdout: Seq<u8> },
}

/// Why a call gave no listing.
pub enum ErrorModel {
    ElevationToolUnavailable,
    PermissionDenied,
    ElevationFailed(Seq<char>),
    Unrecoverable,
}

/// What a call returns: the lines of the listing, or the reason for none.
pub type ListingModel = Result<Seq<Seq<char>>, ErrorModel>;

/// A call that gave no listing, for the reason `error`.
pub open spec fn failure(error: ErrorModel) -> ListingModel {
    Err(error)
}

/// The listing that every method runs: the long format of `/root`, hidden
/// entries included.
pub open spec fn listing_command() -> Seq<Seq<char>> {
    seq!["ls"@, "-la"@, "/root"@]
}

/// The process that a method starts.
///
/// The password reaches `sudo` on its standard input, followed by the line
/// feed that ends it, and the listing comes back on the standard output of
/// the process itself. So no call shares anything with another: no shell
/// sees the password, and no file holds the listing.
pub open spec fn invocation_of(method: MethodModel) -> InvocationModel {
    match method {
        MethodModel::Pkexec => InvocationModel {
            program: "pkexec"@,
            args: listing_command(),
            stdin: None,
        },
        MethodModel::Sudo { password } => InvocationModel {
            program: "sudo"@,
            args: seq!["-S"@] + listing_command(),
            stdin: Some(password.push('\n')),
        },
    }
}

/// The error of a method whose program could not be started. Without
/// `pkexec` there is no authorization agent to ask; for `sudo` nothing more
/// can be said than that the call cannot go on.
pub open spec fn spawn_failure(method: MethodModel) -> ErrorModel {
    match method {
        MethodModel::Pkexec => ErrorModel::ElevationToolUnavailable,
        MethodModel::Sudo { .. } => ErrorModel::Unrecoverable,
    }
}

/// What the end of a method's process means.
///
/// A process that ran without success was refused: the user declined, or
/// the password was missing or wrong. One that succeeded gives the lines of
/// its output, which must be UTF-8 to be text at all.
pub open spec fn interpret(method: MethodModel, outcome: OutcomeModel) -> ListingModel {
    match outcome {
        OutcomeModel::SpawnFailed => failure(spawn_failure(method)),
        OutcomeModel::Exited { success, stdout } => {
            if !success {
                failure(ErrorModel::PermissionDenied)
            } else if valid_utf8(stdout) {
                Ok(lines_of(decode_utf8(stdout)))
            } else {
                failure(ErrorModel::Unrecoverable)
            }
        },
    }
}

/// A call that waits for the process of one of its methods.
pub struct AttemptModel {
    /// The methods of the call, in the order in which they are tried.
    pub methods: Seq<MethodModel>,
    /// The position of the method whose process is awaited.
    pub index: nat,
    /// The name under which the failure of every method is reported. A
    /// call without one reports the failure of its last method as it is.
    pub summary: Option<Seq<char>>,
}

impl AttemptModel {
    /// The awaited method is one of the call's methods.
    pub open spec fn wf(self) -> bool {
        self.index < self.methods.len()
    }

    /// The method whose process is awaited.
    pub open spec fn method(self) -> MethodModel {
        self.methods[self.index as int]
    }

    /// How many methods are still to be tried, the awaited one included.
    pub open spec fn remaining(self) -> nat {
        (self.methods.len() - self.index) as nat
    }

    /// The same call once the awaited method has failed and another is
    /// left to try.
    pub open spec fn advanced(self) -> AttemptModel {
        AttemptModel { index: self.index + 1, ..self }
    }

    /// The error of the call once its last method has failed with `last`.
    pub open spec fn final_error(self, last: ErrorModel) -> ErrorModel {
        match self.summary {
            Some(name) => ErrorModel::ElevationFailed(name),
            None => last,
        }
    }
}

/// Where a call stands after a process has ended.
pub enum StepModel {
    /// Another process is to be started.
    Run(AttemptModel),
    /// The call is over.
    Done(ListingModel),
}

/// Where a call stands once the process it waited for has ended as
/// `outcome` says. The first method that succeeds ends the call with its
/// listing; a failure moves on to the next method, and the failure of the
/// last one ends the call.
pub open spec fn step_after(attempt: AttemptModel, outcome: OutcomeModel) -> StepModel {
    match interpret(attempt.method(), outcome) {
        Ok(lines) => StepModel::Done(Ok(lines)),
        Err(error) => {
            if attempt.remaining() > 1 {
                StepModel::Run(attempt.advanced())
            } else {
                StepModel::Done(failure(attempt.final_error(error)))
            }
        },
    }
}

/// The call that lists without a password: the authorization agent is its
/// only method, and its failure is reported under the name of the agent's
/// framework.
pub open spec fn passwordless_call() -> AttemptModel {
    AttemptModel { methods: seq![MethodModel::Pkexec], index: 0, summary: Some("polkit"@) }
}

/// The call that lists with a password: `sudo` with that password is its
/// only method, and its failure is reported as it is.
pub open spec fn password_call(password: Seq<char>) -> AttemptModel {
    AttemptModel { methods: seq![MethodModel::Sudo { password }], index: 0, summary: None }
}

/// What the listing without a password returns where the agent's process
/// ended as `outcome` says.
pub open spec fn passwordless_listing(outcome: OutcomeModel) -> ListingModel {
    match interpret(MethodModel::Pkexec, outcome) {
        Ok(lines) => Ok(lines),
        Err(_) => failure(ErrorModel::ElevationFailed("polkit"@)),
    }
}

/// The result of a call whose processes end, one after the other, as
/// `outcomes` say, or nothing where the call is not over after them. A call
/// that is over asks for no further process, so outcomes beyond its end
/// count for nothing.
pub open spec fn result_after(step: StepModel, outcomes: Seq<OutcomeModel>) -> Option<ListingModel>
    decreases outcomes.len(),
{
    match step {
        StepModel::Done(listing) => Some(listing),
        StepModel::Run(attempt) => {
            if outcomes.len() == 0 {
                None
            } else {
                result_after(step_after(attempt, outcomes[0]), outcomes.skip(1))
            }
        },
    }
}

/// The outcomes that a backend gives to the processes of a call, where the
/// backend answers each invocation in one way.
pub open spec fn answers(
    backend: spec_fn(InvocationModel) -> OutcomeModel,
    attempt: AttemptModel,
) -> Seq<OutcomeModel> {
    Seq::new(
        attempt.remaining(),
        |j: int| backend(invocation_of(attempt.methods[attempt.index + j])),
    )
}

} // verus!
