//! The methods of elevation, the processes they ask for, and the reading of
//! how those processes ended.

use crate::lines::{lines_view, split_lines};
use crate::model::{
    interpret, invocation_of, ErrorModel, InvocationModel, ListingModel, MethodModel, OutcomeModel,
};
use crate::text::{push_char, string_from_utf8};
use vstd::prelude::*;
use vstd::utf8::{encode_utf8_decode_utf8, encode_utf8_valid_utf8};

verus! {

/// A way of running the listing with the privileges it needs.
#[derive(Debug, PartialEq, Eq)]
pub enum LsRootMethod {
    /// Ask the authorization agent, which prompts the user.
    Pkexec,
    /// Hand `password` to `sudo`. The password is taken as it is, untrimmed;
    /// the empty one is as good as any other, and is simply refused later.
    Sudo { password: String },
}

impl View for LsRootMethod {
    type V = MethodModel;

    open spec fn view(&self) -> MethodModel {
        match self {
            LsRootMethod::Pkexec => MethodModel::Pkexec,
            LsRootMethod::Sudo { password } => MethodModel::Sudo { password: password@ },
        }
    }
}

/// The characters of a text that may be absent.
pub open spec fn text_view(text: Option<String>) -> Option<Seq<char>> {
    match text {
        Some(text) => Some(text@),
        None => None,
    }
}

/// The methods of a list, each as the model sees it.
pub open spec fn methods_view(methods: Seq<LsRootMethod>) -> Seq<MethodModel> {
    methods.map_values(|method: LsRootMethod| method@)
}

/// A process to start: the program, its arguments, and what to write to
/// its standard input before closing it.
#[derive(Debug, PartialEq, Eq)]
pub struct Invocation {
    pub program: String,
    pub args: Vec<String>,
    pub stdin: Option<String>,
}

impl View for Invocation {
    type V = InvocationModel;

    open spec fn view(&self) -> InvocationModel {
        InvocationModel {
            program: self.program@,
            args: lines_view(self.args@),
            stdin: text_view(self.stdin),
        }
    }
}

/// How a process ended.
#[derive(Debug, PartialEq, Eq)]
pub enum ProcessOutcome {
    /// The program could not be started at all.
    SpawnFailed,
    /// The program ran to its end, with or without success, and wrote
    /// `stdout` to its standard output.
    Exited { success: bool, stdout: Vec<u8> },
}

impl View for ProcessOutcome {
    type V = OutcomeModel;

    open spec fn view(&self) -> OutcomeModel {
        match self {
            ProcessOutcome::SpawnFailed => OutcomeModel::SpawnFailed,
            ProcessOutcome::Exited { success, stdout } => OutcomeModel::Exited {
                success: *success,
                stdout: stdout@,
            },
        }
    }
}

/// Why a call gave no listing.
#[derive(Debug, PartialEq, Eq)]
pub enum ElevationError {
    /// The authorization agent is not installed or cannot be run.
    ElevationToolUnavailable,
    /// Elevation was tried and refused: the prompt was declined, or the
    /// password was missing or wrong.
    PermissionDenied,
    /// Every method of the named kind of call failed.
    ElevationFailed(String),
    /// The call could not go on: the program that takes the password could
    /// not be started, or a process that succeeded wrote no text.
    Unrecoverable,
}

impl View for ElevationError {
    type V = ErrorModel;

    open spec fn view(&self) -> ErrorModel {
        match self {
            ElevationError::ElevationToolUnavailable => ErrorModel::ElevationToolUnavailable,
            ElevationError::PermissionDenied => ErrorModel::PermissionDenied,
            ElevationError::ElevationFailed(what) => ErrorModel::ElevationFailed(what@),
            ElevationError::Unrecoverable => ErrorModel::Unrecoverable,
        }
    }
}

/// What a call returns: the lines of the listing, or the reason for none.
pub type Listing = Result<Vec<String>, ElevationError>;

/// What a call returns, as the model sees it.
pub open spec fn listing_view(listing: Listing) -> ListingModel {
    match listing {
        Ok(lines) => Ok(lines_view(lines@)),
        Err(error) => Err(error@),
    }
}

/// Appends the listing that every method runs to the arguments of a
/// program.
fn with_listing_command(args: Vec<String>) -> (extended: Vec<String>)
    ensures
        lines_view(extended@) == lines_view(args@) + crate::model::listing_command(),
{
    let mut extended = args;
    extended.push("ls".to_owned());
    extended.push("-la".to_owned());
    extended.push("/root".to_owned());
    extended
}

impl LsRootMethod {
    /// The process that this method starts.
    pub fn invocation(&self) -> (invocation: Invocation)
        ensures
            invocation@ == invocation_of(self@),
    {
        match self {
            LsRootMethod::Pkexec => {
                let args = with_listing_command(Vec::new());
                Invocation { program: "pkexec".to_owned(), args, stdin: None }
            },
            LsRootMethod::Sudo { password } => {
                let mut options: Vec<String> = Vec::new();
                options.push("-S".to_owned());
                assert(lines_view(options@) =~= seq!["-S"@]);
                let args = with_listing_command(options);
                let mut stdin = password.clone();
                push_char(&mut stdin, '\n');
                Invocation { program: "sudo".to_owned(), args, stdin: Some(stdin) }
            },
        }
    }

    /// Reads how the process of this method ended: the lines of the
    /// listing, or the reason for which there is none.
    pub fn interpret(&self, outcome: ProcessOutcome) -> (listing: Listing)
        ensures
            listing_view(listing) == interpret(self@, outcome@),
    {
        match outcome {
            ProcessOutcome::SpawnFailed => match self {
                LsRootMethod::Pkexec => Err(ElevationError::ElevationToolUnavailable),
                LsRootMethod::Sudo { .. } => Err(ElevationError::Unrecoverable),
            },
            ProcessOutcome::Exited { success, stdout } => {
                if !success {
                    Err(ElevationError::PermissionDenied)
                } else {
                    match string_from_utf8(stdout) {
                        Some(text) => {
                            proof {
                                encode_utf8_valid_utf8(text@);
                                encode_utf8_decode_utf8(text@);
                            }
                            Ok(split_lines(text.as_str()))
                        },
                        None => Err(ElevationError::Unrecoverable),
                    }
                }
            },
        }
    }
}

} // verus!
