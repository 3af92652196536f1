//! The closed set of failures the pipeline can report, and the exact
//! message each one renders to.

use vstd::prelude::*;

use crate::numfmt::{i32_to_decimal, spec_idec};

verus! {

/// Why a tool's executable could not be resolved.
#[derive(Debug)]
pub enum ToolLookupFailure {
    /// The toolchain-root resolver itself failed; carries its message.
    Resolver { detail: String },
    /// The resolver produced a path, but nothing exists there.
    Missing { path: String },
}

/// Every way one pipeline run can fail.
#[derive(Debug)]
pub enum PipelineError {
    /// No binaries were named on the command line.
    Usage,
    /// The working directory holds no profile fragments.
    NoInputFiles,
    /// An external tool's executable could not be found.
    ToolResolution { tool: String, failure: ToolLookupFailure },
    /// A tool was found but could not be started.
    ProcessLaunch { command: String, detail: String },
    /// A tool ran and exited with a non-zero status code.
    ProcessExit { command: String, code: i32 },
    /// A tool was terminated without an exit status.
    ProcessSignaled { command: String },
    /// Reading the directory, writing the output file, or deleting a
    /// file failed.
    FileIo { detail: String },
}

/// A rendered error: nothing but its message.
pub struct StringError {
    pub message: String,
}

impl StringError {
    /// Wraps a finished message.
    pub fn new(message: String) -> (r: Self)
        ensures
            r.message == message,
    {
        StringError { message }
    }
}

/// The message of an exit-status failure: the full reconstructed command
/// line between quotes, then the decimal status code.
pub open spec fn spec_exit_message(command: Seq<char>, code: int) -> Seq<char> {
    "Command \""@ + command + "\" exited with status code: "@ + spec_idec(code)
}

/// The message of each failure, exactly as it reaches the user.
pub open spec fn spec_message(e: PipelineError) -> Seq<char> {
    match e {
        PipelineError::Usage => "No binary files specified"@,
        PipelineError::NoInputFiles => "No .profraw files found in CWD"@,
        PipelineError::ToolResolution { tool, failure } => match failure {
            ToolLookupFailure::Resolver { detail } => "Failed to find tool: "@ + tool@ + "\n"@
                + detail@,
            ToolLookupFailure::Missing { path } => "Could not find tool: "@ + tool@ + "\nat: "@
                + path@ + "\nConsider `rustup component add llvm-tools-preview`"@,
        },
        PipelineError::ProcessLaunch { command, detail } => "Failed to execute: "@ + command@
            + "\n"@ + detail@,
        PipelineError::ProcessExit { command, code } => spec_exit_message(command@, code as int),
        PipelineError::ProcessSignaled { command } => "Failed to execute command: \""@ + command@
            + "\""@,
        PipelineError::FileIo { detail } => detail@,
    }
}

impl PipelineError {
    /// Renders the failure to the one message the user sees.
    pub fn render(&self) -> (r: StringError)
        ensures
            r.message@ == spec_message(*self),
    {
        match self {
            PipelineError::Usage => StringError::new("No binary files specified".to_owned()),
            PipelineError::NoInputFiles => StringError::new(
                "No .profraw files found in CWD".to_owned(),
            ),
            PipelineError::ToolResolution { tool, failure } => match failure {
                ToolLookupFailure::Resolver { detail } => StringError::new(
                    "Failed to find tool: ".to_owned().concat(tool.as_str()).concat("\n").concat(
                        detail.as_str(),
                    ),
                ),
                ToolLookupFailure::Missing { path } => StringError::new(
                    "Could not find tool: ".to_owned().concat(tool.as_str()).concat(
                        "\nat: ",
                    ).concat(path.as_str()).concat(
                        "\nConsider `rustup component add llvm-tools-preview`",
                    ),
                ),
            },
            PipelineError::ProcessLaunch { command, detail } => StringError::new(
                "Failed to execute: ".to_owned().concat(command.as_str()).concat("\n").concat(
                    detail.as_str(),
                ),
            ),
            PipelineError::ProcessExit { command, code } => {
                let digits = i32_to_decimal(*code);
                StringError::new(
                    "Command \"".to_owned().concat(command.as_str()).concat(
                        "\" exited with status code: ",
                    ).concat(digits.as_str()),
                )
            },
            PipelineError::ProcessSignaled { command } => StringError::new(
                "Failed to execute command: \"".to_owned().concat(command.as_str()).concat("\""),
            ),
            PipelineError::FileIo { detail } => StringError::new(detail.clone()),
        }
    }
}

/// One sequence occurs inside another, as a contiguous run.
pub open spec fn spec_contains_seq(hay: Seq<char>, needle: Seq<char>) -> bool {
    exists|i: int|
        0 <= i && i + needle.len() <= hay.len() && #[trigger] hay.subrange(i, i + needle.len())
            == needle
}

/// An exit-status failure's message always shows the full command line
/// and the decimal exit code, whatever they are.
pub proof fn lemma_exit_message_shows_command(command: Seq<char>, code: int)
    ensures
        spec_contains_seq(spec_exit_message(command, code), command),
        spec_contains_seq(spec_exit_message(command, code), spec_idec(code)),
{
    let head = "Command \""@;
    let mid = "\" exited with status code: "@;
    let m = spec_exit_message(command, code);
    let i = head.len() as int;
    assert(m.subrange(i, i + command.len()) =~= command);
    let j = head.len() as int + command.len() as int + mid.len() as int;
    assert(m.subrange(j, j + spec_idec(code).len() as int) =~= spec_idec(code));
}

} // verus!
