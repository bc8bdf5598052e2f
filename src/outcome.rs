//! Turning what an external command did into the adapter's normalised result.
use vstd::prelude::*;
use crate::dispatch::{Operation, PrintJobOptions};
use crate::parse::{
    job_views, jobs_of_lines, parse_jobs, parse_printers, printer_tokens, without_han, JobRecord,
    PrinterRecord,
};
use crate::error::AdapterError;
use crate::platform::PlatformKind;
use crate::text::{contains, contains_text, lines, trim, trimmed};

verus! {

/// What running one planned command gave: its exit status and captured
/// streams, decoded as text, or why it could not be started.
#[derive(Clone, Debug)]
pub enum CommandOutcome {
    Finished { success: bool, stdout: String, stderr: String },
    NotStarted { reason: String },
}

/// A listing or state change's normalised result.
#[derive(Clone, Debug)]
pub enum Payload {
    Printers(Vec<PrinterRecord>),
    Jobs(Vec<JobRecord>),
    Text(String),
}

pub open spec fn is_unix_like(k: PlatformKind) -> bool {
    k == PlatformKind::MacLike || k == PlatformKind::Unknown
}

/// The failure that an unsuccessful command reports, if it was one.
pub open spec fn command_failure(o: CommandOutcome) -> Option<Seq<char>> {
    match o {
        CommandOutcome::Finished { success, stderr, .. } => if success {
            None
        } else {
            Some(stderr@)
        },
        CommandOutcome::NotStarted { reason } => Some(reason@),
    }
}

/// The normalised result of a listing or job operation `op` on adapter
/// `kind`, from what its command did. A command that failed or did not start
/// gives `ExternalCommandFailed` with its diagnostic text (the legacy
/// adapter's job listing trims its error output, as it does its output). On
/// the Unix-like
/// adapter printer and job listings are parsed into records; the Windows
/// adapters' commands already print normalised text, which is passed on
/// (trimmed, for the legacy adapter's job listing).
pub fn interpret(kind: PlatformKind, op: Operation, outcome: CommandOutcome) -> (r: Result<
    Payload,
    AdapterError,
>)
    requires
        op != Operation::Print,
    ensures
        match command_failure(outcome) {
            Some(d) => r matches Err(AdapterError::ExternalCommandFailed(e)) && e@ == if kind
                == PlatformKind::WindowsLegacy && op == Operation::ListJobs
                && outcome is Finished {
                trimmed(d)
            } else {
                d
            },
            None => {
                let out = outcome->Finished_stdout@;
                if is_unix_like(kind) && op == Operation::ListPrinters {
                    r matches Ok(Payload::Printers(ps)) && ps@.len() == printer_tokens(out).len()
                        && forall|i: int|
                        0 <= i < ps@.len() ==> ps@[i].id@ == without_han(printer_tokens(out)[i])
                            && ps@[i].name@ == without_han(printer_tokens(out)[i])
                } else if is_unix_like(kind) && op == Operation::ListJobs {
                    r matches Ok(Payload::Jobs(js)) && job_views(js@) == jobs_of_lines(lines(out))
                } else if kind == PlatformKind::WindowsLegacy && op == Operation::ListJobs {
                    r matches Ok(Payload::Text(t)) && t@ == trimmed(out)
                } else {
                    r matches Ok(Payload::Text(t)) && t@ == out
                }
            },
        },
{
    match outcome {
        CommandOutcome::NotStarted { reason } => Err(AdapterError::ExternalCommandFailed(reason)),
        CommandOutcome::Finished { success, stdout, stderr } => {
            if !success {
                if kind == PlatformKind::WindowsLegacy && op == Operation::ListJobs {
                    Err(AdapterError::ExternalCommandFailed(trim(stderr.as_str())))
                } else {
                    Err(AdapterError::ExternalCommandFailed(stderr))
                }
            } else if (kind == PlatformKind::MacLike || kind == PlatformKind::Unknown) && op
                == Operation::ListPrinters {
                Ok(Payload::Printers(parse_printers(stdout.as_str())))
            } else if (kind == PlatformKind::MacLike || kind == PlatformKind::Unknown) && op
                == Operation::ListJobs {
                Ok(Payload::Jobs(parse_jobs(stdout.as_str())))
            } else if kind == PlatformKind::WindowsLegacy && op == Operation::ListJobs {
                Ok(Payload::Text(trim(stdout.as_str())))
            } else {
                Ok(Payload::Text(stdout))
            }
        },
    }
}

/// What follows a print command.
#[derive(Debug)]
pub enum PrintStep {
    /// The print succeeded and the source file is to be deleted, once.
    Delete { path: String },
    /// The operation is over with this result.
    Done(Result<String, AdapterError>),
}

pub open spec fn print_success_text(k: PlatformKind) -> Seq<char> {
    match k {
        PlatformKind::WindowsModern => "Windows-打印成功"@,
        PlatformKind::WindowsLegacy => "Windows7-打印成功"@,
        _ => "MacOS-打印成功"@,
    }
}

fn print_success_message(kind: PlatformKind) -> (r: String)
    ensures
        r@ == print_success_text(kind),
{
    match kind {
        PlatformKind::WindowsModern => String::from_str("Windows-打印成功"),
        PlatformKind::WindowsLegacy => String::from_str("Windows7-打印成功"),
        _ => String::from_str("MacOS-打印成功"),
    }
}

/// The step after a print command: a failed print ends with
/// `ExternalCommandFailed` and no deletion; a successful one asks for the
/// deletion of exactly the printed file when the options say so, and
/// otherwise ends with the adapter's success message.
pub fn after_print(kind: PlatformKind, options: &PrintJobOptions, outcome: CommandOutcome) -> (r:
    PrintStep)
    ensures
        match command_failure(outcome) {
            Some(d) => r matches PrintStep::Done(Err(AdapterError::ExternalCommandFailed(e)))
                && e@ == d,
            None => if options.remove_after_print {
                r matches PrintStep::Delete { path } && path@ == options.path@
            } else {
                r matches PrintStep::Done(Ok(m)) && m@ == print_success_text(kind)
            },
        },
{
    match outcome {
        CommandOutcome::NotStarted { reason } => PrintStep::Done(
            Err(AdapterError::ExternalCommandFailed(reason)),
        ),
        CommandOutcome::Finished { success, stderr, .. } => {
            if !success {
                PrintStep::Done(Err(AdapterError::ExternalCommandFailed(stderr)))
            } else if options.remove_after_print {
                PrintStep::Delete { path: options.path.clone() }
            } else {
                PrintStep::Done(Ok(print_success_message(kind)))
            }
        },
    }
}

/// The result of a print whose source file deletion was attempted: the print
/// stands; a failed deletion is reported on its own as
/// `PostOperationCleanupFailed`.
pub fn after_delete(kind: PlatformKind, deleted: Result<(), String>) -> (r: Result<
    String,
    AdapterError,
>)
    ensures
        match deleted {
            Ok(_) => r matches Ok(m) && m@ == print_success_text(kind),
            Err(e) => r matches Err(AdapterError::PostOperationCleanupFailed(d)) && d@ == e@,
        },
{
    match deleted {
        Ok(_) => Ok(print_success_message(kind)),
        Err(e) => Err(AdapterError::PostOperationCleanupFailed(e)),
    }
}

/// The well-known security identifier of the local Administrators group.
pub open spec fn admin_sid() -> Seq<char> {
    "S-1-5-32-544"@
}

pub open spec fn admin_confirmed(o: CommandOutcome) -> bool {
    match o {
        CommandOutcome::Finished { stdout, .. } => contains_text(stdout@, admin_sid()),
        CommandOutcome::NotStarted { .. } => false,
    }
}

/// The verdict of the administrators check from what `whoami /groups` did:
/// the user is an administrator only where the command ran and its output
/// names the Administrators group; otherwise the operation is refused.
pub fn admin_verdict(outcome: &CommandOutcome) -> (r: Result<(), AdapterError>)
    ensures
        admin_confirmed(*outcome) ==> r is Ok,
        !admin_confirmed(*outcome) ==> r matches Err(AdapterError::PrivilegesRequired),
{
    let ok = match outcome {
        CommandOutcome::Finished { stdout, .. } => contains(stdout.as_str(), "S-1-5-32-544"),
        CommandOutcome::NotStarted { .. } => false,
    };
    if ok {
        Ok(())
    } else {
        Err(AdapterError::PrivilegesRequired)
    }
}

} // verus!
