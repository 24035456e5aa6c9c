//! The command dispatcher: from a validated command selection to the action
//! a run performs.

use vstd::prelude::*;
use crate::errors::Error;
use crate::logging::{init, verbosity_error_message, LoggerHandle};
use crate::openapi::{emitted_document_text, generate_openapi};

verus! {

/// The parameters of the serve mode: the bind address and the OAuth
/// credentials handed to the service collaborator.
pub struct ServeParams {
    pub bind: String,
    pub github_client_id: String,
    pub github_client_secret: String,
}

/// The parameters of the specification-emitting mode: the output file, or
/// none for the standard output stream.
pub struct OpenapiParams {
    pub output: Option<String>,
}

/// The validated command selection: exactly one of the two operating modes.
pub enum Command {
    Serve(ServeParams),
    Openapi(OpenapiParams),
}

/// What a run is to perform after dispatch: hand the service collaborator
/// its parameters, or emit the already-serialized specification document to
/// a file or to the standard output stream.
pub enum Action {
    Serve { bind: String, github_client_id: String, github_client_secret: String },
    WriteFile { path: String, contents: String },
    PrintStdout { contents: String },
}

/// The document bytes an action emits, if it emits any.
pub open spec fn action_contents(a: Action) -> Option<Seq<char>> {
    match a {
        Action::Serve { .. } => None,
        Action::WriteFile { contents, .. } => Some(contents@),
        Action::PrintStdout { contents } => Some(contents@),
    }
}

/// The dispatcher's result: the logger handle owned for the run, and the
/// action the run performs.
pub struct CliPlan {
    pub logger: LoggerHandle,
    pub action: Action,
}

/// Whether a plan's action carries out the given command: the serve action
/// hands on exactly the bind address and credentials that were selected, and
/// the specification document goes to exactly the selected destination.
pub open spec fn action_carries_out(command: Command, action: Action) -> bool {
    match command {
        Command::Serve(p) => action matches Action::Serve {
            bind,
            github_client_id,
            github_client_secret,
        } && bind@ == p.bind@ && github_client_id@ == p.github_client_id@
            && github_client_secret@ == p.github_client_secret@,
        Command::Openapi(p) => {
            &&& action_contents(action) == Some(emitted_document_text())
            &&& p.output matches Some(path) ==> (action matches Action::WriteFile {
                path: out_path,
                ..
            } && out_path@ == path@)
            &&& p.output is None ==> action is PrintStdout
        },
    }
}

/// Do the actual work of a run: initialize logging from the verbosity count,
/// then branch on the command.
///
/// The serve branch yields the action that invokes the external service
/// collaborator with the selected parameters; the specification branch
/// generates the document and yields the action that emits it. A verbosity
/// count above three fails before any other work, and no logger is produced.
pub fn cli(verbose: u8, command: Command) -> (r: Result<CliPlan, Error>)
    ensures
        verbose <= 3 ==> r is Ok,
        verbose > 3 ==> (r matches Err(e) && e matches Error::Config { message } && message@
            == verbosity_error_message()),
        r matches Ok(plan) ==> action_carries_out(command, plan.action),
{
    let logger = match init(verbose) {
        Ok(l) => l,
        Err(e) => {
            return Err(e);
        },
    };
    match command {
        Command::Serve(p) => Ok(
            CliPlan {
                logger,
                action: Action::Serve {
                    bind: p.bind,
                    github_client_id: p.github_client_id,
                    github_client_secret: p.github_client_secret,
                },
            },
        ),
        Command::Openapi(p) => Ok(CliPlan { logger, action: generate_openapi(&p) }),
    }
}

/// The document bytes do not depend on the chosen destination: any two
/// emitting actions that a run can generate carry the same contents.
pub proof fn lemma_contents_destination_independent(a1: Action, a2: Action)
    requires
        action_contents(a1) == Some(emitted_document_text()),
        action_contents(a2) == Some(emitted_document_text()),
    ensures
        action_contents(a1) == action_contents(a2),
{
}

} // verus!
