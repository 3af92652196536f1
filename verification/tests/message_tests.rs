use coverage_prepare::errors::{PipelineError, StringError};
use coverage_prepare::invocation::{
    command_display, interpret_exit, join_with, merge_invocation, resolve_decision,
    tool_file_name, ExitKind,
};
use coverage_prepare::numfmt::{i32_to_decimal, u64_to_decimal};
use coverage_prepare::pipeline::is_fragment_extension;

#[test]
fn decimal_rendering_is_exact() {
    assert_eq!(u64_to_decimal(0), "0");
    assert_eq!(u64_to_decimal(7), "7");
    assert_eq!(u64_to_decimal(10), "10");
    assert_eq!(u64_to_decimal(90210), "90210");
    assert_eq!(u64_to_decimal(u64::MAX), "18446744073709551615");
    assert_eq!(i32_to_decimal(0), "0");
    assert_eq!(i32_to_decimal(-1), "-1");
    assert_eq!(i32_to_decimal(137), "137");
    assert_eq!(i32_to_decimal(i32::MIN), "-2147483648");
}

#[test]
fn command_display_joins_tool_and_arguments() {
    let inv = merge_invocation(&vec!["x.profraw".to_string()]);
    assert_eq!(
        command_display(&inv),
        "profdata merge -sparse x.profraw -o rust_coverage.profdata"
    );
}

#[test]
fn join_keeps_separators_between_parts_only() {
    assert_eq!(join_with(&vec![], ", "), "");
    assert_eq!(join_with(&vec!["a".to_string()], ", "), "a");
    assert_eq!(
        join_with(&vec!["a".to_string(), "b".to_string(), "c".to_string()], ", "),
        "a, b, c"
    );
}

#[test]
fn nonzero_exit_names_the_command_and_the_code() {
    let r = interpret_exit(
        "cov export bin".to_string(),
        &ExitKind::Exited(3),
        None,
    );
    match r {
        Err(e @ PipelineError::ProcessExit { .. }) => {
            assert_eq!(
                e.render().message,
                "Command \"cov export bin\" exited with status code: 3"
            );
        }
        _ => panic!("expected the exit-status error"),
    }
}

#[test]
fn zero_exit_returns_the_captured_bytes_unchanged() {
    let bytes = vec![0u8, 159, 146, 150];
    let r = interpret_exit(
        "cov export bin".to_string(),
        &ExitKind::Exited(0),
        Some(bytes.clone()),
    );
    assert_eq!(r.unwrap(), Some(bytes));
}

#[test]
fn a_signaled_process_is_its_own_error() {
    let r = interpret_exit("cov report bin".to_string(), &ExitKind::Signaled, None);
    match r {
        Err(e @ PipelineError::ProcessSignaled { .. }) => {
            assert_eq!(
                e.render().message,
                "Failed to execute command: \"cov report bin\""
            );
        }
        _ => panic!("expected the signaled error"),
    }
}

#[test]
fn launch_failure_message() {
    let e = PipelineError::ProcessLaunch {
        command: "profdata merge".to_string(),
        detail: "permission denied".to_string(),
    };
    assert_eq!(
        e.render().message,
        "Failed to execute: profdata merge\npermission denied"
    );
}

#[test]
fn resolver_failure_message() {
    let r = resolve_decision(
        "profdata".to_string(),
        Err("rustc not found".to_string()),
        false,
    );
    match r {
        Err(e @ PipelineError::ToolResolution { .. }) => {
            assert_eq!(
                e.render().message,
                "Failed to find tool: profdata\nrustc not found"
            );
        }
        _ => panic!("expected the resolution error"),
    }
}

#[test]
fn missing_tool_message_suggests_the_component() {
    let r = resolve_decision(
        "cov".to_string(),
        Ok("/toolchain/bin/llvm-cov".to_string()),
        false,
    );
    match r {
        Err(e @ PipelineError::ToolResolution { .. }) => {
            assert_eq!(
                e.render().message,
                "Could not find tool: cov\nat: /toolchain/bin/llvm-cov\nConsider `rustup component add llvm-tools-preview`"
            );
        }
        _ => panic!("expected the resolution error"),
    }
}

#[test]
fn a_present_tool_resolves_to_its_path() {
    let r = resolve_decision(
        "cov".to_string(),
        Ok("/toolchain/bin/llvm-cov".to_string()),
        true,
    );
    assert_eq!(r.unwrap(), "/toolchain/bin/llvm-cov");
}

#[test]
fn tool_file_names_carry_prefix_and_suffix() {
    assert_eq!(tool_file_name("profdata", ""), "llvm-profdata");
    assert_eq!(tool_file_name("cov", ".exe"), "llvm-cov.exe");
}

#[test]
fn file_io_message_is_the_detail_itself() {
    let e = PipelineError::FileIo {
        detail: "No such file or directory (os error 2)".to_string(),
    };
    assert_eq!(e.render().message, "No such file or directory (os error 2)");
}

#[test]
fn string_error_keeps_its_message() {
    let e = StringError::new("anything".to_string());
    assert_eq!(e.message, "anything");
}

#[test]
fn only_the_profraw_extension_is_a_fragment() {
    assert!(is_fragment_extension(&Some("profraw".to_string())));
    assert!(!is_fragment_extension(&Some("profdata".to_string())));
    assert!(!is_fragment_extension(&Some("PROFRAW".to_string())));
    assert!(!is_fragment_extension(&None));
}
