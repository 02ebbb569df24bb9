use atomc_core::cli::{ApplyArgs, LogFormat, OutputFormat, PlanArgs, ServeArgs};
use std::path::PathBuf;

fn plan_args(on: bool, off: bool) -> PlanArgs {
    PlanArgs {
        repo: None,
        diff_file: None,
        diff_mode: None,
        include_untracked: on,
        no_include_untracked: off,
        format: OutputFormat::Json,
        log_diff: on,
        no_log_diff: off,
        model: None,
        dry_run: false,
        timeout: None,
    }
}

#[test]
fn plan_flag_pairs() {
    assert_eq!(plan_args(false, false).include_untracked_override(), None);
    assert_eq!(plan_args(true, false).include_untracked_override(), Some(true));
    assert_eq!(plan_args(false, true).include_untracked_override(), Some(false));
    assert_eq!(plan_args(true, true).log_diff_override(), Some(false));
    assert_eq!(plan_args(true, false).log_diff_override(), Some(true));
}

#[test]
fn apply_and_serve_flag_pairs() {
    let apply = ApplyArgs {
        repo: PathBuf::from("repo"),
        diff_file: None,
        diff_mode: None,
        include_untracked: true,
        no_include_untracked: false,
        format: OutputFormat::Human,
        log_diff: false,
        no_log_diff: true,
        model: None,
        execute: true,
        cleanup_on_error: false,
        timeout: Some(5),
    };
    assert_eq!(apply.include_untracked_override(), Some(true));
    assert_eq!(apply.log_diff_override(), Some(false));
    let serve = ServeArgs {
        host: "127.0.0.1".to_string(),
        port: 49152,
        model: None,
        log_format: LogFormat::Text,
        request_timeout: 60,
        log_diff: false,
        no_log_diff: false,
    };
    assert_eq!(serve.log_diff_override(), None);
}
