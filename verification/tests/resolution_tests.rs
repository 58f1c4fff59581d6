use confres::errors::{render_aggregate, render_error, AggregateError, ConfigError, ParseIssue};
use confres::resolver::resolve;
use confres::schema::{Config, Mode};

fn args_of(tokens: &[&str]) -> Vec<String> {
    tokens.iter().map(|t| t.to_string()).collect()
}

const VALID_WINDOW_TOML: &str = "input = [\"w.csv\"]\nmodel = \"w.bin\"\n[command.window]\ndatetime_start = \"2024-06-30-12-00-00\"\nduration = \"4h\"\nabsolute = true\n";

#[test]
fn cli_candidate_wins_over_valid_file() {
    let args = args_of(&[
        "--conf-file",
        "cfg.toml",
        "--input",
        "*.csv",
        "--model",
        "m.bin",
        "single",
        "--datetime",
        "2024-01-01-00-00-00",
    ]);
    let file_read = Some(Ok(VALID_WINDOW_TOML.to_string()));
    let c = resolve(&args, &file_read).unwrap();
    assert_eq!(c.model_path, "m.bin".to_string());
    assert!(matches!(c.mode, Mode::Single { .. }));
}

#[test]
fn cli_candidate_wins_over_failed_file() {
    let args = args_of(&[
        "--conf-file",
        "cfg.toml",
        "--input",
        "*.csv",
        "--model",
        "m.bin",
        "single",
        "--datetime",
        "2024-01-01-00-00-00",
    ]);
    let file_read = Some(Err("no such file".to_string()));
    let c = resolve(&args, &file_read).unwrap();
    assert_eq!(c.model_path, "m.bin".to_string());
}

#[test]
fn missing_required_field_aggregates_two_causes() {
    let args = args_of(&["--input", "*.csv", "single", "--datetime", "2024-01-01-00-00-00"]);
    let e = resolve(&args, &None).unwrap_err();
    assert_eq!(
        e,
        AggregateError {
            causes: vec![
                ConfigError::ParseError(ParseIssue::MissingFlag("--model".to_string())),
                ConfigError::NoFileSpecified,
            ],
        }
    );
}

#[test]
fn resolution_is_idempotent() {
    let args = args_of(&["--conf-file", "cfg.toml"]);
    let file_read = Some(Ok(VALID_WINDOW_TOML.to_string()));
    let first = resolve(&args, &file_read);
    let second = resolve(&args, &file_read);
    assert_eq!(first, second);
    let args2 = args_of(&[
        "--input",
        "*.csv",
        "--model",
        "m.bin",
        "single",
        "--datetime",
        "2024-01-01-00-00-00",
    ]);
    assert_eq!(resolve(&args2, &None), resolve(&args2, &None));
}

#[test]
fn cross_variant_file_wins_unmodified_when_cli_fails() {
    // The command line names the `single` subcommand but is incomplete; the
    // file alone is complete and valid for `window`. The file's candidate
    // must come back untouched by any command-line flag.
    let args = args_of(&["--conf-file", "cfg.toml", "single"]);
    let file_read = Some(Ok(VALID_WINDOW_TOML.to_string()));
    let c = resolve(&args, &file_read).unwrap();
    assert_eq!(
        c,
        Config {
            inputs: vec!["w.csv".to_string()],
            model_path: "w.bin".to_string(),
            output_path: None,
            batch_size: 1024,
            mode: Mode::Window {
                datetime_start: "2024-06-30-12-00-00".to_string(),
                duration: "4h".to_string(),
                absolute: true,
            },
        }
    );
}

#[test]
fn unreadable_file_is_an_io_cause_not_a_parse_cause() {
    let args = args_of(&["--conf-file", "missing.toml"]);
    let file_read = Some(Err("No such file or directory".to_string()));
    let e = resolve(&args, &file_read).unwrap_err();
    assert_eq!(e.causes.len(), 2);
    assert_eq!(
        e.causes[1],
        ConfigError::IoError("No such file or directory".to_string())
    );
    assert!(matches!(e.causes[0], ConfigError::ParseError(_)));
}

#[test]
fn scenario_cli_only_single() {
    let args = args_of(&[
        "--input",
        "*.csv",
        "--model",
        "m.bin",
        "--batch-size",
        "512",
        "single",
        "--datetime",
        "2024-01-01-00-00-00",
    ]);
    let c = resolve(&args, &None).unwrap();
    assert_eq!(
        c,
        Config {
            inputs: vec!["*.csv".to_string()],
            model_path: "m.bin".to_string(),
            output_path: None,
            batch_size: 512,
            mode: Mode::Single {
                datetime: "2024-01-01-00-00-00".to_string(),
                absolute: false,
            },
        }
    );
}

#[test]
fn scenario_file_only_window_transformed() {
    let args = args_of(&["--conf-file", "cfg.toml"]);
    let text = "input = [\"t.csv\"]\nmodel = \"t.bin\"\n[command.window_transformed]\ndatetime_start = \"2024-06-30-12-00-00\"\nduration = \"30m\"\n";
    let file_read = Some(Ok(text.to_string()));
    let c = resolve(&args, &file_read).unwrap();
    assert_eq!(
        c,
        Config {
            inputs: vec!["t.csv".to_string()],
            model_path: "t.bin".to_string(),
            output_path: None,
            batch_size: 1024,
            mode: Mode::WindowTransformed {
                datetime_start: "2024-06-30-12-00-00".to_string(),
                duration: "30m".to_string(),
            },
        }
    );
}

#[test]
fn scenario_malformed_file_aggregates_two_parse_causes() {
    let args = args_of(&["--conf-file", "bad.toml"]);
    let file_read = Some(Ok("not = [ toml".to_string()));
    let e = resolve(&args, &file_read).unwrap_err();
    assert_eq!(e.causes.len(), 2);
    assert_eq!(
        e.causes[0],
        ConfigError::ParseError(ParseIssue::MissingSubcommand)
    );
    assert!(matches!(
        e.causes[1],
        ConfigError::ParseError(ParseIssue::TomlSyntax(_))
    ));
}

#[test]
fn render_names_the_io_cause() {
    let s = render_error(&ConfigError::IoError("No such file".to_string()));
    assert_eq!(s, "I/O error: No such file");
}

#[test]
fn render_aggregate_lists_causes_in_order_with_separator() {
    let agg = AggregateError {
        causes: vec![
            ConfigError::ParseError(ParseIssue::MissingSubcommand),
            ConfigError::NoFileSpecified,
        ],
    };
    let s = render_aggregate(&agg);
    assert_eq!(
        s,
        "Multiple errors occurred:\nCommand-line parsing error: missing subcommand\n---\nno configuration file specified"
    );
}

#[test]
fn render_names_a_missing_flag() {
    let s = render_error(&ConfigError::ParseError(ParseIssue::MissingFlag(
        "--model".to_string(),
    )));
    assert_eq!(s, "Command-line parsing error: missing required flag --model");
}
