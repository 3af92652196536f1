use coverage_prepare::cleanup::CleanupRun;
use coverage_prepare::config::{Config, OutputFormat};
use coverage_prepare::errors::PipelineError;
use coverage_prepare::pipeline::{CleanupDecision, Pipeline, Stage};

fn lcov_config(no_delete: bool) -> Config {
    Config {
        output_format: OutputFormat::Lcov,
        binaries: vec!["target/debug/app".to_string()],
        output_path: None,
        ignore_filename_regex: vec![],
        no_delete,
    }
}

#[test]
fn empty_binaries_is_usage_error_before_any_scan() {
    let config = Config {
        output_format: OutputFormat::Report,
        binaries: vec![],
        output_path: None,
        ignore_filename_regex: vec![],
        no_delete: false,
    };
    match Pipeline::new(config) {
        Err(PipelineError::Usage) => {}
        _ => panic!("expected the usage error"),
    }
}

#[test]
fn usage_error_message() {
    let e = PipelineError::Usage;
    assert_eq!(e.render().message, "No binary files specified");
}

#[test]
fn zero_fragments_fails_without_any_invocation() {
    let mut p = Pipeline::new(lcov_config(false)).unwrap();
    match p.scanned(vec![]) {
        Err(PipelineError::NoInputFiles) => {}
        _ => panic!("expected the no-input-files error"),
    }
    assert!(matches!(p.stage, Stage::Failed));
    assert_eq!(
        PipelineError::NoInputFiles.render().message,
        "No .profraw files found in CWD"
    );
}

#[test]
fn merge_invocation_lists_fragments_in_discovery_order() {
    let mut p = Pipeline::new(lcov_config(false)).unwrap();
    let fragments = vec![
        "./b.profraw".to_string(),
        "./a.profraw".to_string(),
        "./c.profraw".to_string(),
    ];
    let (inv, message) = p.scanned(fragments).unwrap();
    assert_eq!(inv.tool, "profdata");
    assert!(!inv.capture);
    assert_eq!(
        inv.args,
        vec![
            "merge",
            "-sparse",
            "./b.profraw",
            "./a.profraw",
            "./c.profraw",
            "-o",
            "rust_coverage.profdata",
        ]
    );
    assert_eq!(message, "Merging 3 .profraw files into rust_coverage.profdata");
}

#[test]
fn single_fragment_announces_a_conversion() {
    let mut p = Pipeline::new(lcov_config(false)).unwrap();
    let (_, message) = p.scanned(vec!["only.profraw".to_string()]).unwrap();
    assert_eq!(
        message,
        "Converting only.profraw file to rust_coverage.profdata"
    );
}

#[test]
fn merge_failure_ends_the_run_before_any_report() {
    let mut p = Pipeline::new(lcov_config(false)).unwrap();
    p.scanned(vec!["a.profraw".to_string()]).unwrap();
    let failure = PipelineError::ProcessExit {
        command: "profdata merge".to_string(),
        code: 2,
    };
    match p.merge_finished(Err(failure)) {
        Err(PipelineError::ProcessExit { command, code }) => {
            assert_eq!(command, "profdata merge");
            assert_eq!(code, 2);
        }
        _ => panic!("expected the merge failure back"),
    }
    assert!(matches!(p.stage, Stage::Failed));
}

#[test]
fn lcov_mode_captures_and_resolves_the_default_file() {
    let mut p = Pipeline::new(lcov_config(false)).unwrap();
    p.scanned(vec!["a.profraw".to_string()]).unwrap();
    let plan = p.merge_finished(Ok(())).unwrap();
    assert_eq!(plan.invocation.tool, "cov");
    assert!(plan.invocation.capture);
    assert_eq!(plan.output_path.as_deref(), Some("rust_coverage.lcov"));
    assert_eq!(
        plan.invocation.args,
        vec![
            "export",
            "-Xdemangler=rustfilt",
            "-instr-profile=rust_coverage.profdata",
            "--ignore-filename-regex=\\.cargo/registry",
            "--ignore-filename-regex=library/std",
            "target/debug/app",
            "-format=lcov",
        ]
    );
    assert_eq!(plan.message, "Exporting coverage data to rust_coverage.lcov");
}

#[test]
fn lcov_mode_honours_the_output_override() {
    let mut config = lcov_config(false);
    config.output_path = Some("out/cov.lcov".to_string());
    let mut p = Pipeline::new(config).unwrap();
    p.scanned(vec!["a.profraw".to_string()]).unwrap();
    let plan = p.merge_finished(Ok(())).unwrap();
    assert_eq!(plan.output_path.as_deref(), Some("out/cov.lcov"));
    assert_eq!(plan.message, "Exporting coverage data to out/cov.lcov");
}

#[test]
fn html_mode_captures_nothing_and_names_the_directory() {
    let config = Config {
        output_format: OutputFormat::Html,
        binaries: vec!["bin1".to_string(), "bin2".to_string()],
        output_path: None,
        ignore_filename_regex: vec![],
        no_delete: false,
    };
    let mut p = Pipeline::new(config).unwrap();
    p.scanned(vec!["a.profraw".to_string()]).unwrap();
    let plan = p.merge_finished(Ok(())).unwrap();
    assert!(!plan.invocation.capture);
    assert_eq!(plan.output_path.as_deref(), Some("htmlcov/rust"));
    assert_eq!(plan.invocation.args.last().map(String::as_str), Some("htmlcov/rust"));
    assert_eq!(
        plan.invocation.args,
        vec![
            "show",
            "-Xdemangler=rustfilt",
            "-instr-profile=rust_coverage.profdata",
            "--ignore-filename-regex=\\.cargo/registry",
            "--ignore-filename-regex=library/std",
            "bin1",
            "bin2",
            "-format=html",
            "-o",
            "htmlcov/rust",
        ]
    );
    assert_eq!(plan.message, "Writing HTML coverage to htmlcov/rust");
}

#[test]
fn report_mode_resolves_no_output_path() {
    let config = Config {
        output_format: OutputFormat::Report,
        binaries: vec!["bin".to_string()],
        output_path: Some("ignored".to_string()),
        ignore_filename_regex: vec![],
        no_delete: false,
    };
    let mut p = Pipeline::new(config).unwrap();
    p.scanned(vec!["a.profraw".to_string()]).unwrap();
    let plan = p.merge_finished(Ok(())).unwrap();
    assert!(!plan.invocation.capture);
    assert_eq!(plan.output_path, None);
    assert_eq!(plan.invocation.args[0], "report");
    assert_eq!(plan.message, "Generating coverage report");
}

#[test]
fn builtin_exclusions_precede_user_patterns() {
    let config = Config {
        output_format: OutputFormat::Report,
        binaries: vec!["bin".to_string()],
        output_path: None,
        ignore_filename_regex: vec!["tests/".to_string(), "examples/".to_string()],
        no_delete: false,
    };
    let mut p = Pipeline::new(config).unwrap();
    p.scanned(vec!["a.profraw".to_string()]).unwrap();
    let plan = p.merge_finished(Ok(())).unwrap();
    assert_eq!(plan.invocation.args[3], "--ignore-filename-regex=\\.cargo/registry");
    assert_eq!(plan.invocation.args[4], "--ignore-filename-regex=library/std");
    assert_eq!(plan.invocation.args[5], "--ignore-filename-regex=tests/");
    assert_eq!(plan.invocation.args[6], "--ignore-filename-regex=examples/");
}

#[test]
fn report_failure_skips_cleanup() {
    let mut p = Pipeline::new(lcov_config(false)).unwrap();
    p.scanned(vec!["a.profraw".to_string()]).unwrap();
    p.merge_finished(Ok(())).unwrap();
    let failure = PipelineError::ProcessSignaled {
        command: "cov export".to_string(),
    };
    assert!(p.report_finished(Err(failure)).is_err());
    assert!(matches!(p.stage, Stage::Failed));
}

#[test]
fn no_delete_only_announces() {
    let mut p = Pipeline::new(lcov_config(true)).unwrap();
    p.scanned(vec!["a.profraw".to_string(), "b.profraw".to_string()])
        .unwrap();
    p.merge_finished(Ok(())).unwrap();
    match p.report_finished(Ok(())).unwrap() {
        CleanupDecision::Announce { message } => {
            assert_eq!(
                message,
                "--no-delete set, not deleting a.profraw, b.profraw, rust_coverage.profdata"
            );
        }
        CleanupDecision::Delete { .. } => panic!("nothing may be deleted under --no-delete"),
    }
}

#[test]
fn deletion_walks_fragments_then_database() {
    let mut p = Pipeline::new(lcov_config(false)).unwrap();
    p.scanned(vec!["a.profraw".to_string(), "b.profraw".to_string()])
        .unwrap();
    p.merge_finished(Ok(())).unwrap();
    let (mut run, message) = match p.report_finished(Ok(())).unwrap() {
        CleanupDecision::Delete { run, message } => (run, message),
        CleanupDecision::Announce { .. } => panic!("deletion was not suppressed"),
    };
    assert_eq!(message, "Deleting 3 coverage files");
    assert_eq!(run.next_file().map(String::as_str), Some("a.profraw"));
    run.advance();
    assert_eq!(run.next_file().map(String::as_str), Some("b.profraw"));
    run.advance();
    assert_eq!(run.next_file().map(String::as_str), Some("rust_coverage.profdata"));
    run.advance();
    assert_eq!(run.next_file(), None);
    p.cleanup_finished(Ok(())).unwrap();
    assert!(matches!(p.stage, Stage::Done));
}

#[test]
fn a_failed_deletion_leaves_the_rest_unissued() {
    let run_files = vec![
        "a.profraw".to_string(),
        "b.profraw".to_string(),
        "c.profraw".to_string(),
    ];
    let mut run = CleanupRun::new(run_files);
    run.advance();
    // the second deletion fails: the walk stops here
    assert_eq!(run.next, 1);
    assert_eq!(run.next_file().map(String::as_str), Some("b.profraw"));
    assert_eq!(
        run.files[run.next..].to_vec(),
        vec!["b.profraw", "c.profraw", "rust_coverage.profdata"]
    );
}
