use confres::cli::{bootstrap_conf_path, build_cli_candidate};
use confres::errors::ParseIssue;
use confres::schema::{Config, Mode};

fn args_of(tokens: &[&str]) -> Vec<String> {
    tokens.iter().map(|t| t.to_string()).collect()
}

#[test]
fn full_single_invocation_parses() {
    let args = args_of(&[
        "--input",
        "*.csv",
        "--model",
        "m.bin",
        "--batch-size",
        "512",
        "single",
        "--datetime",
        "2024-01-01-00-00-00",
    ]);
    let c = build_cli_candidate(&args).unwrap();
    assert_eq!(
        c,
        Config {
            inputs: vec!["*.csv".to_string()],
            model_path: "m.bin".to_string(),
            output_path: None,
            batch_size: 512,
            mode: Mode::Single {
                datetime: "2024-01-01-00-00-00".to_string(),
                absolute: false,
            },
        }
    );
}

#[test]
fn repeated_input_accumulates_in_order() {
    let args = args_of(&[
        "--input",
        "a.csv",
        "--input",
        "b.csv",
        "--model",
        "m.bin",
        "single",
        "--datetime",
        "2024-01-01-00-00-00",
    ]);
    let c = build_cli_candidate(&args).unwrap();
    assert_eq!(c.inputs, vec!["a.csv".to_string(), "b.csv".to_string()]);
    assert_eq!(c.batch_size, 1024);
}

#[test]
fn window_with_absolute_and_output() {
    let args = args_of(&[
        "--input",
        "*.csv",
        "--model",
        "m.bin",
        "--output",
        "out.txt",
        "window",
        "--datetime-start",
        "2024-06-30-12-00-00",
        "--duration",
        "4h",
        "--absolute",
    ]);
    let c = build_cli_candidate(&args).unwrap();
    assert_eq!(c.output_path, Some("out.txt".to_string()));
    assert_eq!(
        c.mode,
        Mode::Window {
            datetime_start: "2024-06-30-12-00-00".to_string(),
            duration: "4h".to_string(),
            absolute: true,
        }
    );
}

#[test]
fn window_transformed_rejects_absolute() {
    let args = args_of(&[
        "--input",
        "*.csv",
        "--model",
        "m.bin",
        "window-transformed",
        "--datetime-start",
        "2024-06-30-12-00-00",
        "--duration",
        "30m",
        "--absolute",
    ]);
    let e = build_cli_candidate(&args).unwrap_err();
    assert_eq!(e, ParseIssue::UnknownFlag("--absolute".to_string()));
}

#[test]
fn window_transformed_parses() {
    let args = args_of(&[
        "--input",
        "*.csv",
        "--model",
        "m.bin",
        "window-transformed",
        "--datetime-start",
        "2024-06-30-12-00-00",
        "--duration",
        "30m",
    ]);
    let c = build_cli_candidate(&args).unwrap();
    assert_eq!(
        c.mode,
        Mode::WindowTransformed {
            datetime_start: "2024-06-30-12-00-00".to_string(),
            duration: "30m".to_string(),
        }
    );
}

#[test]
fn missing_model_is_reported() {
    let args = args_of(&["--input", "*.csv", "single", "--datetime", "2024-01-01-00-00-00"]);
    let e = build_cli_candidate(&args).unwrap_err();
    assert_eq!(e, ParseIssue::MissingFlag("--model".to_string()));
}

#[test]
fn missing_input_is_reported() {
    let args = args_of(&["--model", "m.bin", "single", "--datetime", "2024-01-01-00-00-00"]);
    let e = build_cli_candidate(&args).unwrap_err();
    assert_eq!(e, ParseIssue::MissingFlag("--input".to_string()));
}

#[test]
fn missing_subcommand_is_reported() {
    let args = args_of(&["--input", "*.csv", "--model", "m.bin"]);
    let e = build_cli_candidate(&args).unwrap_err();
    assert_eq!(e, ParseIssue::MissingSubcommand);
}

#[test]
fn unknown_subcommand_is_reported() {
    let args = args_of(&["--input", "*.csv", "--model", "m.bin", "frobnicate"]);
    let e = build_cli_candidate(&args).unwrap_err();
    assert_eq!(e, ParseIssue::UnknownSubcommand("frobnicate".to_string()));
}

#[test]
fn unknown_flag_is_reported() {
    let args = args_of(&["--frobnicate", "x"]);
    let e = build_cli_candidate(&args).unwrap_err();
    assert_eq!(e, ParseIssue::UnknownFlag("--frobnicate".to_string()));
}

#[test]
fn duplicate_model_is_reported() {
    let args = args_of(&["--model", "a.bin", "--model", "b.bin"]);
    let e = build_cli_candidate(&args).unwrap_err();
    assert_eq!(e, ParseIssue::DuplicateFlag("--model".to_string()));
}

#[test]
fn flag_without_value_is_reported() {
    let args = args_of(&["--input", "*.csv", "--model"]);
    let e = build_cli_candidate(&args).unwrap_err();
    assert_eq!(e, ParseIssue::MissingFlagValue("--model".to_string()));
}

#[test]
fn zero_batch_size_is_rejected() {
    let args = args_of(&["--input", "a", "--model", "m", "--batch-size", "0", "single"]);
    let e = build_cli_candidate(&args).unwrap_err();
    assert_eq!(e, ParseIssue::InvalidBatchSize("0".to_string()));
}

#[test]
fn non_numeric_batch_size_is_rejected() {
    let args = args_of(&["--batch-size", "many"]);
    let e = build_cli_candidate(&args).unwrap_err();
    assert_eq!(e, ParseIssue::InvalidBatchSize("many".to_string()));
}

#[test]
fn oversized_batch_size_is_rejected() {
    let args = args_of(&["--batch-size", "99999999999999999999999999"]);
    let e = build_cli_candidate(&args).unwrap_err();
    assert_eq!(
        e,
        ParseIssue::InvalidBatchSize("99999999999999999999999999".to_string())
    );
}

#[test]
fn largest_batch_size_is_accepted() {
    let args = args_of(&[
        "--input",
        "a",
        "--model",
        "m",
        "--batch-size",
        "18446744073709551615",
        "single",
        "--datetime",
        "2024-01-01-00-00-00",
    ]);
    let c = build_cli_candidate(&args).unwrap();
    assert_eq!(c.batch_size, u64::MAX);
}

#[test]
fn malformed_datetime_is_rejected() {
    let args = args_of(&["--input", "a", "--model", "m", "single", "--datetime", "2024-01-01"]);
    let e = build_cli_candidate(&args).unwrap_err();
    assert_eq!(e, ParseIssue::InvalidDatetime("2024-01-01".to_string()));
}

#[test]
fn malformed_duration_is_rejected() {
    let args = args_of(&[
        "--input",
        "a",
        "--model",
        "m",
        "window",
        "--datetime-start",
        "2024-01-01-00-00-00",
        "--duration",
        "4x",
    ]);
    let e = build_cli_candidate(&args).unwrap_err();
    assert_eq!(e, ParseIssue::InvalidDuration("4x".to_string()));
}

#[test]
fn missing_duration_is_reported() {
    let args = args_of(&[
        "--input",
        "a",
        "--model",
        "m",
        "window",
        "--datetime-start",
        "2024-01-01-00-00-00",
    ]);
    let e = build_cli_candidate(&args).unwrap_err();
    assert_eq!(e, ParseIssue::MissingFlag("--duration".to_string()));
}

#[test]
fn conf_file_pair_is_tolerated_by_full_parse() {
    let args = args_of(&[
        "--conf-file",
        "cfg.toml",
        "--input",
        "*.csv",
        "--model",
        "m.bin",
        "single",
        "--datetime",
        "2024-01-01-00-00-00",
        "--conf-file",
        "other.toml",
    ]);
    let c = build_cli_candidate(&args).unwrap();
    assert_eq!(c.model_path, "m.bin".to_string());
}

#[test]
fn bootstrap_finds_path_among_other_flags() {
    let args = args_of(&["--input", "x", "--conf-file", "c.toml", "single"]);
    assert_eq!(bootstrap_conf_path(&args), Some("c.toml".to_string()));
}

#[test]
fn bootstrap_takes_first_occurrence() {
    let args = args_of(&["--conf-file", "a.toml", "--conf-file", "b.toml"]);
    assert_eq!(bootstrap_conf_path(&args), Some("a.toml".to_string()));
}

#[test]
fn bootstrap_without_flag_finds_nothing() {
    let args = args_of(&["--input", "x", "single"]);
    assert_eq!(bootstrap_conf_path(&args), None);
}

#[test]
fn bootstrap_trailing_flag_without_value_finds_nothing() {
    let args = args_of(&["--input", "x", "--conf-file"]);
    assert_eq!(bootstrap_conf_path(&args), None);
}
