use atomc_core::config::{
    parse_bool, parse_diff_mode, parse_runtime, parse_u32, parse_u64, ConfigError, Runtime,
};
use atomc_core::types::DiffMode;

fn is_invalid(e: &ConfigError, key: &str, value: &str) -> bool {
    matches!(e, ConfigError::InvalidEnv { key: k, value: v } if k == key && v == value)
}

#[test]
fn runtime_names() {
    assert_eq!(parse_runtime("K", "ollama").unwrap(), Runtime::Ollama);
    assert_eq!(parse_runtime("K", "llama.cpp").unwrap(), Runtime::LlamaCpp);
    assert_eq!(parse_runtime("K", "llama_cpp").unwrap(), Runtime::LlamaCpp);
    assert_eq!(parse_runtime("K", "llamacpp").unwrap(), Runtime::LlamaCpp);
    assert!(is_invalid(&parse_runtime("K", "Ollama").unwrap_err(), "K", "Ollama"));
}

#[test]
fn diff_mode_names() {
    assert_eq!(parse_diff_mode("K", "worktree").unwrap(), DiffMode::Worktree);
    assert_eq!(parse_diff_mode("K", "staged").unwrap(), DiffMode::Staged);
    assert_eq!(parse_diff_mode("K", "all").unwrap(), DiffMode::All);
    assert!(parse_diff_mode("K", "everything").is_err());
}

#[test]
fn booleans_ignore_ascii_case() {
    for v in ["true", "TRUE", "1", "Yes", "y"] {
        assert!(parse_bool("K", v).unwrap(), "{}", v);
    }
    for v in ["false", "False", "0", "NO", "n"] {
        assert!(!parse_bool("K", v).unwrap(), "{}", v);
    }
    assert!(is_invalid(&parse_bool("K", "maybe").unwrap_err(), "K", "maybe"));
}

#[test]
fn resolve_config_rejects_invalid_env_values() {
    let error = parse_u32("LOCAL_COMMIT_MAX_TOKENS", "nope").unwrap_err();
    assert!(is_invalid(&error, "LOCAL_COMMIT_MAX_TOKENS", "nope"));
}

#[test]
fn unsigned_numbers() {
    assert_eq!(parse_u32("K", "2048").unwrap(), 2048);
    assert_eq!(parse_u32("K", "+7").unwrap(), 7);
    assert_eq!(parse_u32("K", "4294967295").unwrap(), u32::MAX);
    assert!(parse_u32("K", "4294967296").is_err());
    assert!(parse_u32("K", "").is_err());
    assert!(parse_u32("K", "+").is_err());
    assert!(parse_u32("K", "-1").is_err());
    assert!(parse_u32("K", "1 2").is_err());
    assert_eq!(parse_u64("K", "18446744073709551615").unwrap(), u64::MAX);
    assert!(parse_u64("K", "18446744073709551616").is_err());
    assert_eq!(parse_u64("K", "2000000").unwrap(), 2_000_000);
}
