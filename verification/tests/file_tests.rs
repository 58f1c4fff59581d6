use confres::errors::ParseIssue;
use confres::file::build_file_candidate;
use confres::schema::Mode;

#[test]
fn complete_single_file_parses() {
    let text = "input = [\"a.csv\", \"b.csv\"]\nmodel = \"m.bin\"\noutput = \"out.txt\"\nbatch_size = 256\n[command.single]\ndatetime = \"2024-01-01-00-00-00\"\nabsolute = true\n";
    let c = build_file_candidate(text).unwrap();
    assert_eq!(c.inputs, vec!["a.csv".to_string(), "b.csv".to_string()]);
    assert_eq!(c.model_path, "m.bin".to_string());
    assert_eq!(c.output_path, Some("out.txt".to_string()));
    assert_eq!(c.batch_size, 256);
    assert_eq!(
        c.mode,
        Mode::Single {
            datetime: "2024-01-01-00-00-00".to_string(),
            absolute: true,
        }
    );
}

#[test]
fn omitted_optional_fields_take_defaults() {
    let text = "input = [\"a.csv\"]\nmodel = \"m.bin\"\n[command.window]\ndatetime_start = \"2024-06-30-12-00-00\"\nduration = \"4h\"\n";
    let c = build_file_candidate(text).unwrap();
    assert_eq!(c.output_path, None);
    assert_eq!(c.batch_size, 1024);
    assert_eq!(
        c.mode,
        Mode::Window {
            datetime_start: "2024-06-30-12-00-00".to_string(),
            duration: "4h".to_string(),
            absolute: false,
        }
    );
}

#[test]
fn window_transformed_file_parses() {
    let text = "input = [\"a.csv\"]\nmodel = \"m.bin\"\n[command.window_transformed]\ndatetime_start = \"2024-06-30-12-00-00\"\nduration = \"30m\"\n";
    let c = build_file_candidate(text).unwrap();
    assert_eq!(
        c.mode,
        Mode::WindowTransformed {
            datetime_start: "2024-06-30-12-00-00".to_string(),
            duration: "30m".to_string(),
        }
    );
}

#[test]
fn malformed_toml_reports_syntax_error() {
    let e = build_file_candidate("not = [ toml").unwrap_err();
    assert!(matches!(e, ParseIssue::TomlSyntax(_)));
}

#[test]
fn missing_model_key_is_reported() {
    let text = "input = [\"a.csv\"]\n[command.single]\ndatetime = \"2024-01-01-00-00-00\"\n";
    let e = build_file_candidate(text).unwrap_err();
    assert_eq!(e, ParseIssue::MissingKey("model".to_string()));
}

#[test]
fn missing_input_key_is_reported() {
    let text = "model = \"m.bin\"\n";
    let e = build_file_candidate(text).unwrap_err();
    assert_eq!(e, ParseIssue::MissingKey("input".to_string()));
}

#[test]
fn empty_input_list_is_rejected() {
    let text = "input = []\nmodel = \"m.bin\"\n[command.single]\ndatetime = \"2024-01-01-00-00-00\"\n";
    let e = build_file_candidate(text).unwrap_err();
    assert_eq!(e, ParseIssue::InvalidValue("input".to_string()));
}

#[test]
fn non_array_input_is_rejected() {
    let text = "input = \"a.csv\"\nmodel = \"m.bin\"\n";
    let e = build_file_candidate(text).unwrap_err();
    assert_eq!(e, ParseIssue::WrongType("input".to_string()));
}

#[test]
fn non_string_input_element_is_rejected() {
    let text = "input = [\"a.csv\", 3]\nmodel = \"m.bin\"\n";
    let e = build_file_candidate(text).unwrap_err();
    assert_eq!(e, ParseIssue::WrongType("input".to_string()));
}

#[test]
fn zero_batch_size_in_file_is_rejected() {
    let text = "input = [\"a.csv\"]\nmodel = \"m.bin\"\nbatch_size = 0\n";
    let e = build_file_candidate(text).unwrap_err();
    assert_eq!(e, ParseIssue::InvalidValue("batch_size".to_string()));
}

#[test]
fn non_integer_batch_size_in_file_is_rejected() {
    let text = "input = [\"a.csv\"]\nmodel = \"m.bin\"\nbatch_size = \"many\"\n";
    let e = build_file_candidate(text).unwrap_err();
    assert_eq!(e, ParseIssue::WrongType("batch_size".to_string()));
}

#[test]
fn missing_command_table_is_reported() {
    let text = "input = [\"a.csv\"]\nmodel = \"m.bin\"\n";
    let e = build_file_candidate(text).unwrap_err();
    assert_eq!(e, ParseIssue::MissingKey("command".to_string()));
}

#[test]
fn empty_command_table_names_no_mode() {
    let text = "input = [\"a.csv\"]\nmodel = \"m.bin\"\ncommand = {}\n";
    let e = build_file_candidate(text).unwrap_err();
    assert_eq!(e, ParseIssue::NoModeGiven);
}

#[test]
fn two_mode_tables_are_ambiguous() {
    let text = "input = [\"a.csv\"]\nmodel = \"m.bin\"\n[command.single]\ndatetime = \"2024-01-01-00-00-00\"\n[command.window]\ndatetime_start = \"2024-01-01-00-00-00\"\nduration = \"4h\"\n";
    let e = build_file_candidate(text).unwrap_err();
    assert_eq!(e, ParseIssue::AmbiguousMode);
}

#[test]
fn invalid_datetime_in_file_is_rejected() {
    let text = "input = [\"a.csv\"]\nmodel = \"m.bin\"\n[command.single]\ndatetime = \"yesterday\"\n";
    let e = build_file_candidate(text).unwrap_err();
    assert_eq!(e, ParseIssue::InvalidDatetime("yesterday".to_string()));
}

#[test]
fn invalid_duration_in_file_is_rejected() {
    let text = "input = [\"a.csv\"]\nmodel = \"m.bin\"\n[command.window]\ndatetime_start = \"2024-01-01-00-00-00\"\nduration = \"h4\"\n";
    let e = build_file_candidate(text).unwrap_err();
    assert_eq!(e, ParseIssue::InvalidDuration("h4".to_string()));
}

#[test]
fn non_boolean_absolute_is_rejected() {
    let text = "input = [\"a.csv\"]\nmodel = \"m.bin\"\n[command.single]\ndatetime = \"2024-01-01-00-00-00\"\nabsolute = \"yes\"\n";
    let e = build_file_candidate(text).unwrap_err();
    assert_eq!(e, ParseIssue::WrongType("absolute".to_string()));
}

#[test]
fn missing_datetime_in_single_is_reported() {
    let text = "input = [\"a.csv\"]\nmodel = \"m.bin\"\ncommand = { single = {} }\n";
    let e = build_file_candidate(text).unwrap_err();
    assert_eq!(e, ParseIssue::MissingKey("datetime".to_string()));
}
