//! Descriptions of the external commands the pipeline runs: the merge
//! invocation, the command-line display used in error messages, and the
//! interpretation of a finished process's exit status.

use vstd::prelude::*;

use crate::config::{profdata_file, spec_profdata_file};
use crate::errors::{PipelineError, ToolLookupFailure};
use crate::numfmt::{spec_udec, u64_to_decimal};

verus! {

/// One external command, fully described before it runs: which tool,
/// which arguments, and whether its standard output must be captured
/// into memory rather than passed through to the terminal.
pub struct ToolInvocation {
    /// The tool's short name, resolved to an executable by the caller.
    pub tool: String,
    /// The ordered argument list.
    pub args: Vec<String>,
    /// True when standard output is captured for later use.
    pub capture: bool,
}

/// The parts joined with the separator between each adjacent pair.
pub open spec fn spec_join(parts: Seq<Seq<char>>, sep: Seq<char>) -> Seq<char>
    decreases parts.len(),
{
    if parts.len() == 0 {
        Seq::empty()
    } else if parts.len() == 1 {
        parts[0]
    } else {
        spec_join(parts.drop_last(), sep) + sep + parts.last()
    }
}

/// Joins the parts with the separator between each adjacent pair.
pub fn join_with(parts: &Vec<String>, sep: &str) -> (r: String)
    ensures
        r@ == spec_join(parts.deep_view(), sep@),
{
    let mut r = String::new();
    let mut i: usize = 0;
    while i < parts.len()
        invariant
            i <= parts.len(),
            r@ == spec_join(parts.deep_view().take(i as int), sep@),
        decreases parts.len() - i,
    {
        let ghost prev = r@;
        if i > 0 {
            r.append(sep);
        }
        r.append(parts[i].as_str());
        proof {
            let dv = parts.deep_view();
            assert(dv.take(i + 1).drop_last() =~= dv.take(i as int));
            assert(dv.take(i + 1).last() == dv[i as int]);
            if i == 0 {
                assert(r@ =~= spec_join(dv.take(1), sep@));
            }
        }
        i += 1;
    }
    proof {
        assert(parts.deep_view().take(parts@.len() as int) =~= parts.deep_view());
    }
    r
}

/// The command line as the error messages reconstruct it: the tool's
/// short name, a space, then the arguments joined by spaces.
pub open spec fn spec_command_display(tool: Seq<char>, args: Seq<Seq<char>>) -> Seq<char> {
    tool + " "@ + spec_join(args, " "@)
}

/// Reconstructs the command line of an invocation for display.
pub fn command_display(inv: &ToolInvocation) -> (r: String)
    ensures
        r@ == spec_command_display(inv.tool@, inv.args.deep_view()),
{
    inv.tool.clone().concat(" ").concat(join_with(&inv.args, " ").as_str())
}

/// The merge tool's argument list: the sparse-merge mode, every fragment
/// in discovery order, then the output pair naming the database file.
pub open spec fn spec_merge_args(fragments: Seq<Seq<char>>) -> Seq<Seq<char>> {
    seq!["merge"@, "-sparse"@] + fragments + seq!["-o"@, spec_profdata_file()]
}

/// Builds the merge invocation for the discovered fragments. Its output
/// passes through to the terminal: nothing is captured.
pub fn merge_invocation(fragments: &Vec<String>) -> (inv: ToolInvocation)
    requires
        fragments@.len() >= 1,
    ensures
        inv.tool@ == "profdata"@,
        inv.args.deep_view() == spec_merge_args(fragments.deep_view()),
        !inv.capture,
{
    let mut args: Vec<String> = Vec::new();
    args.push("merge".to_owned());
    args.push("-sparse".to_owned());
    let mut i: usize = 0;
    proof {
        assert(args.deep_view() =~= seq!["merge"@, "-sparse"@] + fragments.deep_view().take(0));
    }
    while i < fragments.len()
        invariant
            i <= fragments.len(),
            args.deep_view() == seq!["merge"@, "-sparse"@] + fragments.deep_view().take(i as int),
        decreases fragments.len() - i,
    {
        let ghost prev = args.deep_view();
        let x = fragments[i].clone();
        proof {
            assert(x == fragments@[i as int]);
        }
        args.push(x);
        proof {
            assert(args.deep_view() =~= prev.push(fragments@[i as int].deep_view()));
            assert(fragments.deep_view()[i as int] == fragments@[i as int].deep_view());
            assert(fragments.deep_view().take(i + 1) =~= fragments.deep_view().take(i as int).push(
                fragments.deep_view()[i as int],
            ));
            assert(args.deep_view() =~= seq!["merge"@, "-sparse"@] + fragments.deep_view().take(
                i + 1,
            ));
        }
        i += 1;
    }
    args.push("-o".to_owned());
    args.push(profdata_file());
    proof {
        assert(fragments.deep_view().take(fragments@.len() as int) =~= fragments.deep_view());
        assert(args.deep_view() =~= spec_merge_args(fragments.deep_view()));
    }
    ToolInvocation { tool: "profdata".to_owned(), args, capture: false }
}

/// The status line announced before the merge runs: the single file and
/// its destination, or the count of files being merged.
pub open spec fn spec_merge_message(fragments: Seq<Seq<char>>) -> Seq<char> {
    if fragments.len() == 1 {
        "Converting "@ + fragments[0] + " file to "@ + spec_profdata_file()
    } else {
        "Merging "@ + spec_udec(fragments.len()) + " .profraw files into "@ + spec_profdata_file()
    }
}

/// Builds the merge stage's status line.
pub fn merge_status_message(fragments: &Vec<String>) -> (r: String)
    requires
        fragments@.len() >= 1,
    ensures
        r@ == spec_merge_message(fragments.deep_view()),
{
    if fragments.len() == 1 {
        "Converting ".to_owned().concat(fragments[0].as_str()).concat(" file to ").concat(
            profdata_file().as_str(),
        )
    } else {
        let count = u64_to_decimal(fragments.len() as u64);
        "Merging ".to_owned().concat(count.as_str()).concat(" .profraw files into ").concat(
            profdata_file().as_str(),
        )
    }
}

/// The file name of a tool's executable under the toolchain's binary
/// directory: the tool's short name with the platform prefix and suffix.
pub fn tool_file_name(tool: &str, exe_suffix: &str) -> (r: String)
    ensures
        r@ == "llvm-"@ + tool@ + exe_suffix@,
{
    "llvm-".to_owned().concat(tool).concat(exe_suffix)
}

/// What became of a launched process: it exited with a status code, or
/// it was terminated without one.
pub enum ExitKind {
    /// The process exited; carries its status code.
    Exited(i32),
    /// The process was terminated by a signal and has no status code.
    Signaled,
}

/// Decides the outcome of one tool resolution: the resolver's answer and
/// whether the resolved executable is present on disk become either the
/// usable path or the exact resolution error.
pub fn resolve_decision(tool: String, lookup: Result<String, String>, present: bool) -> (r: Result<
    String,
    PipelineError,
>)
    ensures
        lookup matches Ok(p) ==> ({
            &&& present ==> r == Ok::<String, PipelineError>(p)
            &&& !present ==> ({
                &&& r matches Err(
                    PipelineError::ToolResolution {
                        tool: t,
                        failure: ToolLookupFailure::Missing { path },
                    },
                )
                &&& t == tool
                &&& path == p
            })
        }),
        lookup matches Err(d) ==> ({
            &&& r matches Err(
                PipelineError::ToolResolution {
                    tool: t,
                    failure: ToolLookupFailure::Resolver { detail },
                },
            )
            &&& t == tool
            &&& detail == d
        }),
{
    match lookup {
        Ok(p) => {
            if present {
                Ok(p)
            } else {
                Err(
                    PipelineError::ToolResolution {
                        tool,
                        failure: ToolLookupFailure::Missing { path: p },
                    },
                )
            }
        },
        Err(d) => Err(
            PipelineError::ToolResolution {
                tool,
                failure: ToolLookupFailure::Resolver { detail: d },
            },
        ),
    }
}

/// Decides the outcome of one finished tool run. A zero exit status
/// returns whatever was captured (nothing, in pass-through mode); a
/// non-zero status or a terminated process becomes the exact error,
/// carrying the reconstructed command line.
pub fn interpret_exit(command: String, exit: &ExitKind, captured: Option<Vec<u8>>) -> (r: Result<
    Option<Vec<u8>>,
    PipelineError,
>)
    ensures
        *exit == ExitKind::Exited(0i32) ==> r == Ok::<Option<Vec<u8>>, PipelineError>(captured),
        *exit matches ExitKind::Exited(code) ==> (code != 0 ==> ({
            &&& r matches Err(PipelineError::ProcessExit { command: c, code: k })
            &&& c == command
            &&& k == code
        })),
        *exit is Signaled ==> ({
            &&& r matches Err(PipelineError::ProcessSignaled { command: c })
            &&& c == command
        }),
{
    match exit {
        ExitKind::Exited(code) => {
            if *code == 0 {
                Ok(captured)
            } else {
                Err(PipelineError::ProcessExit { command, code: *code })
            }
        },
        ExitKind::Signaled => Err(PipelineError::ProcessSignaled { command }),
    }
}

} // verus!
