//! The report stage: from the configuration to the exact report-tool
//! invocation, the resolved output location, and the status line.

use vstd::prelude::*;

use crate::config::{
    builtin_ignore_patterns, profdata_file, spec_builtin_ignore_patterns, spec_default_html_dir,
    spec_default_lcov_file, spec_profdata_file, Config, OutputFormat,
};
use crate::invocation::ToolInvocation;

verus! {

/// Everything the report stage decides before anything runs: the
/// invocation, where the rendering ends up, and the announcement.
pub struct ReportPlan {
    /// The report-tool command to run.
    pub invocation: ToolInvocation,
    /// The resolved output location: the directory for the HTML
    /// rendering, the file for the LCOV export, nothing for the
    /// terminal table.
    pub output_path: Option<String>,
    /// The status line announced before the tool runs.
    pub message: String,
}

/// The report tool's sub-command word for each rendering.
pub open spec fn spec_mode_word(f: OutputFormat) -> Seq<char> {
    match f {
        OutputFormat::Html => "show"@,
        OutputFormat::Report => "report"@,
        OutputFormat::Lcov => "export"@,
    }
}

/// One exclusion pattern as the report tool takes it.
pub open spec fn spec_ignore_arg(p: Seq<char>) -> Seq<char> {
    "--ignore-filename-regex="@ + p
}

/// Each pattern as the report tool takes it, in order.
pub open spec fn spec_ignore_args_of(patterns: Seq<Seq<char>>) -> Seq<Seq<char>> {
    patterns.map_values(|p: Seq<char>| spec_ignore_arg(p))
}

/// Where the rendering ends up: the override when one was given, else
/// the fixed default; nothing for the terminal table.
pub open spec fn spec_resolved_output_path(
    f: OutputFormat,
    override_path: Option<Seq<char>>,
) -> Option<Seq<char>> {
    match f {
        OutputFormat::Html => match override_path {
            Some(p) => Some(p),
            None => Some(spec_default_html_dir()),
        },
        OutputFormat::Report => None,
        OutputFormat::Lcov => match override_path {
            Some(p) => Some(p),
            None => Some(spec_default_lcov_file()),
        },
    }
}

/// The full argument list of the report invocation: the sub-command, the
/// demangler, the profile database, the built-in exclusion patterns then
/// the user's, the binaries, and the rendering's own trailing arguments.
pub open spec fn spec_report_args(
    f: OutputFormat,
    user_patterns: Seq<Seq<char>>,
    binaries: Seq<Seq<char>>,
    out: Option<Seq<char>>,
) -> Seq<Seq<char>> {
    let prefix = seq![
        spec_mode_word(f),
        "-Xdemangler=rustfilt"@,
        "-instr-profile="@ + spec_profdata_file(),
    ] + spec_ignore_args_of(spec_builtin_ignore_patterns() + user_patterns) + binaries;
    match f {
        OutputFormat::Html => prefix + seq!["-format=html"@, "-o"@, out->0],
        OutputFormat::Report => prefix,
        OutputFormat::Lcov => prefix + seq!["-format=lcov"@],
    }
}

/// The status line announced before the report tool runs.
pub open spec fn spec_report_message(f: OutputFormat, out: Option<Seq<char>>) -> Seq<char> {
    match f {
        OutputFormat::Html => "Writing HTML coverage to "@ + out->0,
        OutputFormat::Report => "Generating coverage report"@,
        OutputFormat::Lcov => "Exporting coverage data to "@ + out->0,
    }
}

/// The two built-in exclusion patterns stand in every report
/// invocation's argument list, right after the fixed three-argument
/// head, whatever the user supplied; the user's patterns follow them.
pub proof fn lemma_builtin_patterns_always_present(
    f: OutputFormat,
    user_patterns: Seq<Seq<char>>,
    binaries: Seq<Seq<char>>,
    out: Option<Seq<char>>,
)
    ensures
        ({
            let args = spec_report_args(f, user_patterns, binaries, out);
            &&& args[3] == spec_ignore_arg("\\.cargo/registry"@)
            &&& args[4] == spec_ignore_arg("library/std"@)
            &&& forall|j: int|
                0 <= j < user_patterns.len() ==> args[5 + j] == spec_ignore_arg(user_patterns[j])
        }),
{
    let all = spec_builtin_ignore_patterns() + user_patterns;
    let mapped = spec_ignore_args_of(all);
    assert(all[0] == "\\.cargo/registry"@);
    assert(all[1] == "library/std"@);
    assert(forall|j: int| 0 <= j < user_patterns.len() ==> all[2 + j] == user_patterns[j]);
    assert(forall|j: int| 0 <= j < all.len() ==> #[trigger] mapped[j] == spec_ignore_arg(all[j]));
}

/// The HTML rendering captures nothing; instead the resolved output
/// directory is named in the invocation itself, as its last argument.
pub proof fn lemma_html_names_output_dir(
    user_patterns: Seq<Seq<char>>,
    binaries: Seq<Seq<char>>,
    out: Seq<char>,
)
    ensures
        spec_report_args(OutputFormat::Html, user_patterns, binaries, Some(out)).last() == out,
{
}

/// Appends one exclusion-pattern argument per pattern, in order.
fn push_ignore_args(args: &mut Vec<String>, patterns: &Vec<String>)
    ensures
        final(args).deep_view() == old(args).deep_view() + spec_ignore_args_of(
            patterns.deep_view(),
        ),
{
    let ghost base = args.deep_view();
    let mut i: usize = 0;
    proof {
        assert(args.deep_view() =~= base + spec_ignore_args_of(patterns.deep_view().take(0)));
    }
    while i < patterns.len()
        invariant
            i <= patterns.len(),
            args.deep_view() == base + spec_ignore_args_of(patterns.deep_view().take(i as int)),
        decreases patterns.len() - i,
    {
        let ghost prev = args.deep_view();
        let x = "--ignore-filename-regex=".to_owned().concat(patterns[i].as_str());
        proof {
            assert(x@ == spec_ignore_arg(patterns.deep_view()[i as int]));
        }
        args.push(x);
        proof {
            let dv = patterns.deep_view();
            assert(args.deep_view() =~= prev.push(spec_ignore_arg(dv[i as int])));
            assert(dv.take(i + 1) =~= dv.take(i as int).push(dv[i as int]));
            assert(spec_ignore_args_of(dv.take(i + 1)) =~= spec_ignore_args_of(
                dv.take(i as int),
            ).push(spec_ignore_arg(dv[i as int])));
            assert(args.deep_view() =~= base + spec_ignore_args_of(dv.take(i + 1)));
        }
        i += 1;
    }
    proof {
        assert(patterns.deep_view().take(patterns@.len() as int) =~= patterns.deep_view());
    }
}

/// Appends a copy of every given string, in order.
fn push_all(args: &mut Vec<String>, extra: &Vec<String>)
    ensures
        final(args).deep_view() == old(args).deep_view() + extra.deep_view(),
{
    let ghost base = args.deep_view();
    let mut i: usize = 0;
    proof {
        assert(args.deep_view() =~= base + extra.deep_view().take(0));
    }
    while i < extra.len()
        invariant
            i <= extra.len(),
            args.deep_view() == base + extra.deep_view().take(i as int),
        decreases extra.len() - i,
    {
        let ghost prev = args.deep_view();
        let x = extra[i].clone();
        proof {
            assert(x == extra@[i as int]);
        }
        args.push(x);
        proof {
            let dv = extra.deep_view();
            assert(args.deep_view() =~= prev.push(dv[i as int]));
            assert(dv.take(i + 1) =~= dv.take(i as int).push(dv[i as int]));
            assert(args.deep_view() =~= base + dv.take(i + 1));
        }
        i += 1;
    }
    proof {
        assert(extra.deep_view().take(extra@.len() as int) =~= extra.deep_view());
    }
}

/// Builds the whole report stage from the configuration: the invocation
/// with its exact argument list, the resolved output location, whether
/// standard output is captured (only for the LCOV export), and the
/// status line.
pub fn report_plan(config: &Config) -> (plan: ReportPlan)
    ensures
        plan.invocation.tool@ == "cov"@,
        plan.output_path.deep_view() == spec_resolved_output_path(
            config.output_format,
            config.output_path.deep_view(),
        ),
        plan.invocation.args.deep_view() == spec_report_args(
            config.output_format,
            config.ignore_filename_regex.deep_view(),
            config.binaries.deep_view(),
            plan.output_path.deep_view(),
        ),
        plan.invocation.capture == (config.output_format is Lcov),
        plan.message@ == spec_report_message(config.output_format, plan.output_path.deep_view()),
{
    let mut args: Vec<String> = Vec::new();
    let mode = match config.output_format {
        OutputFormat::Html => "show".to_owned(),
        OutputFormat::Report => "report".to_owned(),
        OutputFormat::Lcov => "export".to_owned(),
    };
    proof {
        assert(mode@ == spec_mode_word(config.output_format));
    }
    args.push(mode);
    args.push("-Xdemangler=rustfilt".to_owned());
    args.push("-instr-profile=".to_owned().concat(profdata_file().as_str()));
    let builtin = builtin_ignore_patterns();
    push_ignore_args(&mut args, &builtin);
    push_ignore_args(&mut args, &config.ignore_filename_regex);
    proof {
        assert(spec_ignore_args_of(
            spec_builtin_ignore_patterns() + config.ignore_filename_regex.deep_view(),
        ) =~= spec_ignore_args_of(spec_builtin_ignore_patterns()) + spec_ignore_args_of(
            config.ignore_filename_regex.deep_view(),
        ));
    }
    push_all(&mut args, &config.binaries);
    let ghost prefix = seq![
        spec_mode_word(config.output_format),
        "-Xdemangler=rustfilt"@,
        "-instr-profile="@ + spec_profdata_file(),
    ] + spec_ignore_args_of(
        spec_builtin_ignore_patterns() + config.ignore_filename_regex.deep_view(),
    ) + config.binaries.deep_view();
    proof {
        assert(args.deep_view() =~= prefix);
    }
    match config.output_format {
        OutputFormat::Html => {
            let path = match &config.output_path {
                Some(p) => p.clone(),
                None => "htmlcov/rust".to_owned(),
            };
            let message = "Writing HTML coverage to ".to_owned().concat(path.as_str());
            args.push("-format=html".to_owned());
            args.push("-o".to_owned());
            args.push(path.clone());
            let plan = ReportPlan {
                invocation: ToolInvocation { tool: "cov".to_owned(), args, capture: false },
                output_path: Some(path),
                message,
            };
            proof {
                assert(plan.invocation.args.deep_view() =~= spec_report_args(
                    config.output_format,
                    config.ignore_filename_regex.deep_view(),
                    config.binaries.deep_view(),
                    plan.output_path.deep_view(),
                ));
            }
            plan
        },
        OutputFormat::Report => {
            let plan = ReportPlan {
                invocation: ToolInvocation { tool: "cov".to_owned(), args, capture: false },
                output_path: None,
                message: "Generating coverage report".to_owned(),
            };
            proof {
                assert(plan.invocation.args.deep_view() =~= spec_report_args(
                    config.output_format,
                    config.ignore_filename_regex.deep_view(),
                    config.binaries.deep_view(),
                    plan.output_path.deep_view(),
                ));
            }
            plan
        },
        OutputFormat::Lcov => {
            let path = match &config.output_path {
                Some(p) => p.clone(),
                None => "rust_coverage.lcov".to_owned(),
            };
            let message = "Exporting coverage data to ".to_owned().concat(path.as_str());
            args.push("-format=lcov".to_owned());
            let plan = ReportPlan {
                invocation: ToolInvocation { tool: "cov".to_owned(), args, capture: true },
                output_path: Some(path),
                message,
            };
            proof {
                assert(plan.invocation.args.deep_view() =~= spec_report_args(
                    config.output_format,
                    config.ignore_filename_regex.deep_view(),
                    config.binaries.deep_view(),
                    plan.output_path.deep_view(),
                ));
            }
            plan
        },
    }
}

} // verus!
