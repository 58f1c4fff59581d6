//! Structured diagnostics: the failure of one configuration source, and the
//! aggregate that reports every attempted source's cause in attempt order.

use vstd::prelude::*;

verus! {

/// One grammar or schema violation found while building a candidate.
#[derive(Debug, Clone, PartialEq)]
pub enum ParseIssue {
    /// A flag that takes a value stood last on the command line.
    MissingFlagValue(String),
    /// A token that looks like a flag but is not part of the grammar.
    UnknownFlag(String),
    /// A single-valued flag was given twice.
    DuplicateFlag(String),
    /// A required flag was never given.
    MissingFlag(String),
    /// The command line named no operation mode.
    MissingSubcommand,
    /// A token stood where an operation mode was expected.
    UnknownSubcommand(String),
    /// A stray token stood among a mode's flags.
    UnexpectedArgument(String),
    /// The batch size is not a decimal number between 1 and `u64::MAX`.
    InvalidBatchSize(String),
    /// A timestamp does not match the fixed pattern.
    InvalidDatetime(String),
    /// A time span does not match the span grammar.
    InvalidDuration(String),
    /// The file is not well-formed TOML; the payload is the parser's message.
    TomlSyntax(String),
    /// A required key is absent from the file.
    MissingKey(String),
    /// A key is present in the file with a value of the wrong type.
    WrongType(String),
    /// A key is present with a value outside its allowed range.
    InvalidValue(String),
    /// The file's mode table names none of the three variants.
    NoModeGiven,
    /// The file's mode table names more than one variant.
    AmbiguousMode,
}

/// The mathematical model of a [`ParseIssue`].
pub enum ParseIssueV {
    MissingFlagValue(Seq<char>),
    UnknownFlag(Seq<char>),
    DuplicateFlag(Seq<char>),
    MissingFlag(Seq<char>),
    MissingSubcommand,
    UnknownSubcommand(Seq<char>),
    UnexpectedArgument(Seq<char>),
    InvalidBatchSize(Seq<char>),
    InvalidDatetime(Seq<char>),
    InvalidDuration(Seq<char>),
    TomlSyntax(Seq<char>),
    MissingKey(Seq<char>),
    WrongType(Seq<char>),
    InvalidValue(Seq<char>),
    NoModeGiven,
    AmbiguousMode,
}

impl View for ParseIssue {
    type V = ParseIssueV;

    open spec fn view(&self) -> ParseIssueV {
        match self {
            ParseIssue::MissingFlagValue(s) => ParseIssueV::MissingFlagValue(s@),
            ParseIssue::UnknownFlag(s) => ParseIssueV::UnknownFlag(s@),
            ParseIssue::DuplicateFlag(s) => ParseIssueV::DuplicateFlag(s@),
            ParseIssue::MissingFlag(s) => ParseIssueV::MissingFlag(s@),
            ParseIssue::MissingSubcommand => ParseIssueV::MissingSubcommand,
            ParseIssue::UnknownSubcommand(s) => ParseIssueV::UnknownSubcommand(s@),
            ParseIssue::UnexpectedArgument(s) => ParseIssueV::UnexpectedArgument(s@),
            ParseIssue::InvalidBatchSize(s) => ParseIssueV::InvalidBatchSize(s@),
            ParseIssue::InvalidDatetime(s) => ParseIssueV::InvalidDatetime(s@),
            ParseIssue::InvalidDuration(s) => ParseIssueV::InvalidDuration(s@),
            ParseIssue::TomlSyntax(s) => ParseIssueV::TomlSyntax(s@),
            ParseIssue::MissingKey(s) => ParseIssueV::MissingKey(s@),
            ParseIssue::WrongType(s) => ParseIssueV::WrongType(s@),
            ParseIssue::InvalidValue(s) => ParseIssueV::InvalidValue(s@),
            ParseIssue::NoModeGiven => ParseIssueV::NoModeGiven,
            ParseIssue::AmbiguousMode => ParseIssueV::AmbiguousMode,
        }
    }
}

impl DeepView for ParseIssue {
    type V = ParseIssueV;

    open spec fn deep_view(&self) -> ParseIssueV {
        self.view()
    }
}

/// Why one source produced no candidate.
#[derive(Debug, Clone, PartialEq)]
pub enum ConfigError {
    /// The configuration file could not be read; the payload is the message
    /// of the underlying I/O failure.
    IoError(String),
    /// The source violated the grammar or the schema.
    ParseError(ParseIssue),
    /// No configuration file was named on the command line.
    NoFileSpecified,
}

/// The mathematical model of a [`ConfigError`].
pub enum ConfigErrorV {
    IoError(Seq<char>),
    ParseError(ParseIssueV),
    NoFileSpecified,
}

impl View for ConfigError {
    type V = ConfigErrorV;

    open spec fn view(&self) -> ConfigErrorV {
        match self {
            ConfigError::IoError(s) => ConfigErrorV::IoError(s@),
            ConfigError::ParseError(p) => ConfigErrorV::ParseError(p@),
            ConfigError::NoFileSpecified => ConfigErrorV::NoFileSpecified,
        }
    }
}

impl DeepView for ConfigError {
    type V = ConfigErrorV;

    open spec fn deep_view(&self) -> ConfigErrorV {
        self.view()
    }
}

/// The overall failure of a resolution: one cause per attempted source, in
/// attempt order (command line first, file second). No cause is dropped.
#[derive(Debug, Clone, PartialEq)]
pub struct AggregateError {
    pub causes: Vec<ConfigError>,
}

impl View for AggregateError {
    type V = Seq<ConfigErrorV>;

    open spec fn view(&self) -> Seq<ConfigErrorV> {
        self.causes.deep_view()
    }
}

pub open spec fn spec_render_issue(p: ParseIssueV) -> Seq<char> {
    match p {
        ParseIssueV::MissingFlagValue(s) => "Command-line parsing error: missing value for "@ + s,
        ParseIssueV::UnknownFlag(s) => "Command-line parsing error: unknown flag "@ + s,
        ParseIssueV::DuplicateFlag(s) => "Command-line parsing error: duplicate flag "@ + s,
        ParseIssueV::MissingFlag(s) => "Command-line parsing error: missing required flag "@ + s,
        ParseIssueV::MissingSubcommand => "Command-line parsing error: missing subcommand"@,
        ParseIssueV::UnknownSubcommand(s) => "Command-line parsing error: unknown subcommand "@
            + s,
        ParseIssueV::UnexpectedArgument(s) => "Command-line parsing error: unexpected argument "@
            + s,
        ParseIssueV::InvalidBatchSize(s) => "Command-line parsing error: invalid batch size "@ + s,
        ParseIssueV::InvalidDatetime(s) => "invalid datetime "@ + s,
        ParseIssueV::InvalidDuration(s) => "invalid duration "@ + s,
        ParseIssueV::TomlSyntax(s) => "TOML parsing error: "@ + s,
        ParseIssueV::MissingKey(s) => "TOML parsing error: missing key "@ + s,
        ParseIssueV::WrongType(s) => "TOML parsing error: wrong type for key "@ + s,
        ParseIssueV::InvalidValue(s) => "TOML parsing error: invalid value for key "@ + s,
        ParseIssueV::NoModeGiven => "TOML parsing error: no mode given"@,
        ParseIssueV::AmbiguousMode => "TOML parsing error: more than one mode given"@,
    }
}

pub open spec fn spec_render_error(e: ConfigErrorV) -> Seq<char> {
    match e {
        ConfigErrorV::IoError(s) => "I/O error: "@ + s,
        ConfigErrorV::ParseError(p) => spec_render_issue(p),
        ConfigErrorV::NoFileSpecified => "no configuration file specified"@,
    }
}

pub open spec fn spec_render_causes(cs: Seq<ConfigErrorV>, i: int) -> Seq<char>
    decreases cs.len() - i,
{
    if i < 0 || i >= cs.len() {
        Seq::empty()
    } else if i == cs.len() - 1 {
        spec_render_error(cs[i])
    } else {
        spec_render_error(cs[i]) + "\n---\n"@ + spec_render_causes(cs, i + 1)
    }
}

/// The human-readable report of an aggregate: every cause, in attempt order,
/// with a visual separator between causes.
pub open spec fn spec_render_aggregate(cs: Seq<ConfigErrorV>) -> Seq<char> {
    "Multiple errors occurred:\n"@ + spec_render_causes(cs, 0)
}

/// The text of one issue.
pub fn render_issue(p: &ParseIssue) -> (r: String)
    ensures
        r@ == spec_render_issue(p@),
{
    match p {
        ParseIssue::MissingFlagValue(s) => String::from_str(
            "Command-line parsing error: missing value for ",
        ).concat(s.as_str()),
        ParseIssue::UnknownFlag(s) => String::from_str(
            "Command-line parsing error: unknown flag ",
        ).concat(s.as_str()),
        ParseIssue::DuplicateFlag(s) => String::from_str(
            "Command-line parsing error: duplicate flag ",
        ).concat(s.as_str()),
        ParseIssue::MissingFlag(s) => String::from_str(
            "Command-line parsing error: missing required flag ",
        ).concat(s.as_str()),
        ParseIssue::MissingSubcommand => String::from_str(
            "Command-line parsing error: missing subcommand",
        ),
        ParseIssue::UnknownSubcommand(s) => String::from_str(
            "Command-line parsing error: unknown subcommand ",
        ).concat(s.as_str()),
        ParseIssue::UnexpectedArgument(s) => String::from_str(
            "Command-line parsing error: unexpected argument ",
        ).concat(s.as_str()),
        ParseIssue::InvalidBatchSize(s) => String::from_str(
            "Command-line parsing error: invalid batch size ",
        ).concat(s.as_str()),
        ParseIssue::InvalidDatetime(s) => String::from_str("invalid datetime ").concat(s.as_str()),
        ParseIssue::InvalidDuration(s) => String::from_str("invalid duration ").concat(s.as_str()),
        ParseIssue::TomlSyntax(s) => String::from_str("TOML parsing error: ").concat(s.as_str()),
        ParseIssue::MissingKey(s) => String::from_str("TOML parsing error: missing key ").concat(
            s.as_str(),
        ),
        ParseIssue::WrongType(s) => String::from_str(
            "TOML parsing error: wrong type for key ",
        ).concat(s.as_str()),
        ParseIssue::InvalidValue(s) => String::from_str(
            "TOML parsing error: invalid value for key ",
        ).concat(s.as_str()),
        ParseIssue::NoModeGiven => String::from_str("TOML parsing error: no mode given"),
        ParseIssue::AmbiguousMode => String::from_str(
            "TOML parsing error: more than one mode given",
        ),
    }
}

/// The text of one source's failure.
pub fn render_error(e: &ConfigError) -> (r: String)
    ensures
        r@ == spec_render_error(e@),
{
    match e {
        ConfigError::IoError(s) => String::from_str("I/O error: ").concat(s.as_str()),
        ConfigError::ParseError(p) => render_issue(p),
        ConfigError::NoFileSpecified => String::from_str("no configuration file specified"),
    }
}

fn render_causes_from(causes: &Vec<ConfigError>, i: usize) -> (r: String)
    requires
        i <= causes@.len(),
    ensures
        r@ == spec_render_causes(causes.deep_view(), i as int),
    decreases causes@.len() - i,
{
    if i >= causes.len() {
        String::new()
    } else {
        let head = render_error(&causes[i]);
        proof {
            assert(causes.deep_view()[i as int] == causes@[i as int]@);
        }
        if i + 1 == causes.len() {
            head
        } else {
            let tail = render_causes_from(causes, i + 1);
            head.concat("\n---\n").concat(tail.as_str())
        }
    }
}

/// The full report of an aggregate failure.
pub fn render_aggregate(e: &AggregateError) -> (r: String)
    ensures
        r@ == spec_render_aggregate(e@),
{
    String::from_str("Multiple errors occurred:\n").concat(
        render_causes_from(&e.causes, 0).as_str(),
    )
}

} // verus!
