//! The command-line source: a bootstrap pass that only extracts the
//! configuration-file path, and a candidate builder that parses the full
//! grammar — `--input <pattern>` (repeatable, required), `--model <path>`
//! (required), `--output <path>`, `--batch-size <uint>`, an ignored
//! `--conf-file <path>` pair, and one required subcommand: `single
//! --datetime <ts> [--absolute]`, `window --datetime-start <ts> --duration
//! <span> [--absolute]`, or `window-transformed --datetime-start <ts>
//! --duration <span>`. A flag's value is the token that follows it,
//! verbatim.

use vstd::prelude::*;

use crate::errors::{ParseIssue, ParseIssueV};
use crate::schema::{
    all_digits,
    check_datetime,
    check_duration,
    config_wf,
    digits_val,
    mode_wf,
    parse_u64,
    valid_batch,
    valid_datetime,
    valid_duration,
    Config,
    ConfigV,
    Mode,
    ModeV,
    DEFAULT_BATCH_SIZE,
};

verus! {

/// What the command line has said so far about the top-level fields; "unset"
/// is distinct from any concrete value.
#[derive(Debug, Clone, PartialEq)]
pub struct PartialConfig {
    pub inputs: Vec<String>,
    pub model: Option<String>,
    pub output: Option<String>,
    pub batch_size: Option<u64>,
}

/// The mathematical model of a [`PartialConfig`].
pub struct PartialConfigV {
    pub inputs: Seq<Seq<char>>,
    pub model: Option<Seq<char>>,
    pub output: Option<Seq<char>>,
    pub batch_size: Option<u64>,
}

impl View for PartialConfig {
    type V = PartialConfigV;

    open spec fn view(&self) -> PartialConfigV {
        PartialConfigV {
            inputs: self.inputs.deep_view(),
            model: self.model.deep_view(),
            output: self.output.deep_view(),
            batch_size: self.batch_size,
        }
    }
}

pub open spec fn empty_partial() -> PartialConfigV {
    PartialConfigV { inputs: Seq::empty(), model: None, output: None, batch_size: None }
}

/// What every accumulator the parser builds satisfies: a batch size, once
/// set, is positive.
pub open spec fn partial_ok(acc: PartialConfigV) -> bool {
    match acc.batch_size {
        Some(b) => b > 0,
        None => true,
    }
}

pub open spec fn issue_view(r: Result<Config, ParseIssue>) -> Result<ConfigV, ParseIssueV> {
    match r {
        Ok(c) => Ok(c@),
        Err(e) => Err(e@),
    }
}

/// Whether a token is flag-like: it begins with a dash.
pub open spec fn flag_like(t: Seq<char>) -> bool {
    t.len() >= 1 && t[0] == '-'
}

/// Completing a candidate once the mode is known: the required fields must
/// have been given; the batch size defaults to 1024.
pub open spec fn spec_finalize(acc: PartialConfigV, mode: ModeV) -> Result<ConfigV, ParseIssueV> {
    if acc.inputs.len() == 0 {
        Err(ParseIssueV::MissingFlag("--input"@))
    } else {
        match acc.model {
            None => Err(ParseIssueV::MissingFlag("--model"@)),
            Some(m) => Ok(
                ConfigV {
                    inputs: acc.inputs,
                    model_path: m,
                    output_path: acc.output,
                    batch_size: match acc.batch_size {
                        Some(b) => b,
                        None => DEFAULT_BATCH_SIZE,
                    },
                    mode: mode,
                },
            ),
        }
    }
}

/// The flags of the `single` subcommand, from position `i` on.
pub open spec fn spec_parse_single(
    args: Seq<Seq<char>>,
    i: int,
    acc: PartialConfigV,
    dt: Option<Seq<char>>,
    abs: bool,
) -> Result<ConfigV, ParseIssueV>
    decreases args.len() - i,
{
    if i >= args.len() {
        match dt {
            None => Err(ParseIssueV::MissingFlag("--datetime"@)),
            Some(d) => spec_finalize(acc, ModeV::Single { datetime: d, absolute: abs }),
        }
    } else {
        let t = args[i];
        if t == "--datetime"@ {
            if i + 1 >= args.len() {
                Err(ParseIssueV::MissingFlagValue(t))
            } else if dt is Some {
                Err(ParseIssueV::DuplicateFlag(t))
            } else if !valid_datetime(args[i + 1]) {
                Err(ParseIssueV::InvalidDatetime(args[i + 1]))
            } else {
                spec_parse_single(args, i + 2, acc, Some(args[i + 1]), abs)
            }
        } else if t == "--absolute"@ {
            spec_parse_single(args, i + 1, acc, dt, true)
        } else if t == "--conf-file"@ {
            if i + 1 >= args.len() {
                Err(ParseIssueV::MissingFlagValue(t))
            } else {
                spec_parse_single(args, i + 2, acc, dt, abs)
            }
        } else if flag_like(t) {
            Err(ParseIssueV::UnknownFlag(t))
        } else {
            Err(ParseIssueV::UnexpectedArgument(t))
        }
    }
}

/// The flags of the `window` subcommand, from position `i` on.
pub open spec fn spec_parse_window(
    args: Seq<Seq<char>>,
    i: int,
    acc: PartialConfigV,
    dts: Option<Seq<char>>,
    dur: Option<Seq<char>>,
    abs: bool,
) -> Result<ConfigV, ParseIssueV>
    decreases args.len() - i,
{
    if i >= args.len() {
        match dts {
            None => Err(ParseIssueV::MissingFlag("--datetime-start"@)),
            Some(d) => match dur {
                None => Err(ParseIssueV::MissingFlag("--duration"@)),
                Some(u) => spec_finalize(
                    acc,
                    ModeV::Window { datetime_start: d, duration: u, absolute: abs },
                ),
            },
        }
    } else {
        let t = args[i];
        if t == "--datetime-start"@ {
            if i + 1 >= args.len() {
                Err(ParseIssueV::MissingFlagValue(t))
            } else if dts is Some {
                Err(ParseIssueV::DuplicateFlag(t))
            } else if !valid_datetime(args[i + 1]) {
                Err(ParseIssueV::InvalidDatetime(args[i + 1]))
            } else {
                spec_parse_window(args, i + 2, acc, Some(args[i + 1]), dur, abs)
            }
        } else if t == "--duration"@ {
            if i + 1 >= args.len() {
                Err(ParseIssueV::MissingFlagValue(t))
            } else if dur is Some {
                Err(ParseIssueV::DuplicateFlag(t))
            } else if !valid_duration(args[i + 1]) {
                Err(ParseIssueV::InvalidDuration(args[i + 1]))
            } else {
                spec_parse_window(args, i + 2, acc, dts, Some(args[i + 1]), abs)
            }
        } else if t == "--absolute"@ {
            spec_parse_window(args, i + 1, acc, dts, dur, true)
        } else if t == "--conf-file"@ {
            if i + 1 >= args.len() {
                Err(ParseIssueV::MissingFlagValue(t))
            } else {
                spec_parse_window(args, i + 2, acc, dts, dur, abs)
            }
        } else if flag_like(t) {
            Err(ParseIssueV::UnknownFlag(t))
        } else {
            Err(ParseIssueV::UnexpectedArgument(t))
        }
    }
}

/// The flags of the `window-transformed` subcommand, from position `i` on.
pub open spec fn spec_parse_wt(
    args: Seq<Seq<char>>,
    i: int,
    acc: PartialConfigV,
    dts: Option<Seq<char>>,
    dur: Option<Seq<char>>,
) -> Result<ConfigV, ParseIssueV>
    decreases args.len() - i,
{
    if i >= args.len() {
        match dts {
            None => Err(ParseIssueV::MissingFlag("--datetime-start"@)),
            Some(d) => match dur {
                None => Err(ParseIssueV::MissingFlag("--duration"@)),
                Some(u) => spec_finalize(
                    acc,
                    ModeV::WindowTransformed { datetime_start: d, duration: u },
                ),
            },
        }
    } else {
        let t = args[i];
        if t == "--datetime-start"@ {
            if i + 1 >= args.len() {
                Err(ParseIssueV::MissingFlagValue(t))
            } else if dts is Some {
                Err(ParseIssueV::DuplicateFlag(t))
            } else if !valid_datetime(args[i + 1]) {
                Err(ParseIssueV::InvalidDatetime(args[i + 1]))
            } else {
                spec_parse_wt(args, i + 2, acc, Some(args[i + 1]), dur)
            }
        } else if t == "--duration"@ {
            if i + 1 >= args.len() {
                Err(ParseIssueV::MissingFlagValue(t))
            } else if dur is Some {
                Err(ParseIssueV::DuplicateFlag(t))
            } else if !valid_duration(args[i + 1]) {
                Err(ParseIssueV::InvalidDuration(args[i + 1]))
            } else {
                spec_parse_wt(args, i + 2, acc, dts, Some(args[i + 1]))
            }
        } else if t == "--conf-file"@ {
            if i + 1 >= args.len() {
                Err(ParseIssueV::MissingFlagValue(t))
            } else {
                spec_parse_wt(args, i + 2, acc, dts, dur)
            }
        } else if flag_like(t) {
            Err(ParseIssueV::UnknownFlag(t))
        } else {
            Err(ParseIssueV::UnexpectedArgument(t))
        }
    }
}

/// The top-level grammar, from position `i` on: the shared flags until a
/// subcommand name appears, then that subcommand's flags.
pub open spec fn spec_parse_top(args: Seq<Seq<char>>, i: int, acc: PartialConfigV) -> Result<
    ConfigV,
    ParseIssueV,
>
    decreases args.len() - i,
{
    if i >= args.len() {
        Err(ParseIssueV::MissingSubcommand)
    } else {
        let t = args[i];
        if t == "--input"@ {
            if i + 1 >= args.len() {
                Err(ParseIssueV::MissingFlagValue(t))
            } else {
                spec_parse_top(
                    args,
                    i + 2,
                    PartialConfigV { inputs: acc.inputs.push(args[i + 1]), ..acc },
                )
            }
        } else if t == "--model"@ {
            if i + 1 >= args.len() {
                Err(ParseIssueV::MissingFlagValue(t))
            } else if acc.model is Some {
                Err(ParseIssueV::DuplicateFlag(t))
            } else {
                spec_parse_top(args, i + 2, PartialConfigV { model: Some(args[i + 1]), ..acc })
            }
        } else if t == "--output"@ {
            if i + 1 >= args.len() {
                Err(ParseIssueV::MissingFlagValue(t))
            } else if acc.output is Some {
                Err(ParseIssueV::DuplicateFlag(t))
            } else {
                spec_parse_top(args, i + 2, PartialConfigV { output: Some(args[i + 1]), ..acc })
            }
        } else if t == "--batch-size"@ {
            if i + 1 >= args.len() {
                Err(ParseIssueV::MissingFlagValue(t))
            } else if acc.batch_size is Some {
                Err(ParseIssueV::DuplicateFlag(t))
            } else if !valid_batch(args[i + 1]) {
                Err(ParseIssueV::InvalidBatchSize(args[i + 1]))
            } else {
                spec_parse_top(
                    args,
                    i + 2,
                    PartialConfigV { batch_size: Some(digits_val(args[i + 1]) as u64), ..acc },
                )
            }
        } else if t == "--conf-file"@ {
            if i + 1 >= args.len() {
                Err(ParseIssueV::MissingFlagValue(t))
            } else {
                spec_parse_top(args, i + 2, acc)
            }
        } else if t == "single"@ {
            spec_parse_single(args, i + 1, acc, None, false)
        } else if t == "window"@ {
            spec_parse_window(args, i + 1, acc, None, None, false)
        } else if t == "window-transformed"@ {
            spec_parse_wt(args, i + 1, acc, None, None)
        } else if flag_like(t) {
            Err(ParseIssueV::UnknownFlag(t))
        } else {
            Err(ParseIssueV::UnknownSubcommand(t))
        }
    }
}

/// The whole command-line candidate: all or nothing.
pub open spec fn spec_parse_cli(args: Seq<Seq<char>>) -> Result<ConfigV, ParseIssueV> {
    spec_parse_top(args, 0, empty_partial())
}

/// The bootstrap pass from position `i` on: the first `--conf-file` token
/// followed by a value yields that value; everything else is ignored.
pub open spec fn spec_bootstrap_from(args: Seq<Seq<char>>, i: int) -> Option<Seq<char>>
    decreases args.len() - i,
{
    if i >= args.len() {
        None
    } else if args[i] == "--conf-file"@ && i + 1 < args.len() {
        Some(args[i + 1])
    } else {
        spec_bootstrap_from(args, i + 1)
    }
}

/// The configuration-file path the command line names, if any.
pub open spec fn spec_bootstrap(args: Seq<Seq<char>>) -> Option<Seq<char>> {
    spec_bootstrap_from(args, 0)
}

/// Character-for-character string equality.
pub fn str_eq(a: &str, b: &str) -> (r: bool)
    ensures
        r == (a@ == b@),
{
    let na = a.unicode_len();
    let nb = b.unicode_len();
    if na != nb {
        return false;
    }
    let mut i: usize = 0;
    while i < na
        invariant
            0 <= i <= na,
            na == a@.len(),
            na == b@.len(),
            forall|j: int| 0 <= j < i ==> a@[j] == b@[j],
        decreases na - i,
    {
        if a.get_char(i) != b.get_char(i) {
            return false;
        }
        i += 1;
    }
    proof {
        assert(a@ =~= b@);
    }
    true
}

fn finalize(acc: PartialConfig, mode: Mode) -> (r: Result<Config, ParseIssue>)
    ensures
        issue_view(r) == spec_finalize(acc@, mode@),
{
    if acc.inputs.len() == 0 {
        Err(ParseIssue::MissingFlag(String::from_str("--input")))
    } else {
        match acc.model {
            None => Err(ParseIssue::MissingFlag(String::from_str("--model"))),
            Some(m) => Ok(
                Config {
                    inputs: acc.inputs,
                    model_path: m,
                    output_path: acc.output,
                    batch_size: match acc.batch_size {
                        Some(b) => b,
                        None => DEFAULT_BATCH_SIZE,
                    },
                    mode: mode,
                },
            ),
        }
    }
}

fn parse_single_from(
    args: &Vec<String>,
    i: usize,
    acc: PartialConfig,
    dt: Option<String>,
    abs: bool,
) -> (r: Result<Config, ParseIssue>)
    requires
        i <= args@.len(),
    ensures
        issue_view(r) == spec_parse_single(args.deep_view(), i as int, acc@, dt.deep_view(), abs),
    decreases args@.len() - i,
{
    let ghost av = args.deep_view();
    if i >= args.len() {
        match dt {
            None => Err(ParseIssue::MissingFlag(String::from_str("--datetime"))),
            Some(d) => finalize(acc, Mode::Single { datetime: d, absolute: abs }),
        }
    } else {
        let t = &args[i];
        proof {
            assert(av[i as int] == t@);
        }
        if str_eq(t.as_str(), "--datetime") {
            if i + 1 >= args.len() {
                Err(ParseIssue::MissingFlagValue(t.clone()))
            } else if dt.is_some() {
                Err(ParseIssue::DuplicateFlag(t.clone()))
            } else {
                let v = &args[i + 1];
                proof {
                    assert(av[i as int + 1] == v@);
                }
                if !check_datetime(v.as_str()) {
                    Err(ParseIssue::InvalidDatetime(v.clone()))
                } else {
                    parse_single_from(args, i + 2, acc, Some(v.clone()), abs)
                }
            }
        } else if str_eq(t.as_str(), "--absolute") {
            parse_single_from(args, i + 1, acc, dt, true)
        } else if str_eq(t.as_str(), "--conf-file") {
            if i + 1 >= args.len() {
                Err(ParseIssue::MissingFlagValue(t.clone()))
            } else {
                parse_single_from(args, i + 2, acc, dt, abs)
            }
        } else if t.as_str().unicode_len() >= 1 && t.as_str().get_char(0) == '-' {
            Err(ParseIssue::UnknownFlag(t.clone()))
        } else {
            Err(ParseIssue::UnexpectedArgument(t.clone()))
        }
    }
}

fn parse_window_from(
    args: &Vec<String>,
    i: usize,
    acc: PartialConfig,
    dts: Option<String>,
    dur: Option<String>,
    abs: bool,
) -> (r: Result<Config, ParseIssue>)
    requires
        i <= args@.len(),
    ensures
        issue_view(r) == spec_parse_window(
            args.deep_view(),
            i as int,
            acc@,
            dts.deep_view(),
            dur.deep_view(),
            abs,
        ),
    decreases args@.len() - i,
{
    let ghost av = args.deep_view();
    if i >= args.len() {
        match dts {
            None => Err(ParseIssue::MissingFlag(String::from_str("--datetime-start"))),
            Some(d) => match dur {
                None => Err(ParseIssue::MissingFlag(String::from_str("--duration"))),
                Some(u) => finalize(
                    acc,
                    Mode::Window { datetime_start: d, duration: u, absolute: abs },
                ),
            },
        }
    } else {
        let t = &args[i];
        proof {
            assert(av[i as int] == t@);
        }
        if str_eq(t.as_str(), "--datetime-start") {
            if i + 1 >= args.len() {
                Err(ParseIssue::MissingFlagValue(t.clone()))
            } else if dts.is_some() {
                Err(ParseIssue::DuplicateFlag(t.clone()))
            } else {
                let v = &args[i + 1];
                proof {
                    assert(av[i as int + 1] == v@);
                }
                if !check_datetime(v.as_str()) {
                    Err(ParseIssue::InvalidDatetime(v.clone()))
                } else {
                    parse_window_from(args, i + 2, acc, Some(v.clone()), dur, abs)
                }
            }
        } else if str_eq(t.as_str(), "--duration") {
            if i + 1 >= args.len() {
                Err(ParseIssue::MissingFlagValue(t.clone()))
            } else if dur.is_some() {
                Err(ParseIssue::DuplicateFlag(t.clone()))
            } else {
                let v = &args[i + 1];
                proof {
                    assert(av[i as int + 1] == v@);
                }
                if !check_duration(v.as_str()) {
                    Err(ParseIssue::InvalidDuration(v.clone()))
                } else {
                    parse_window_from(args, i + 2, acc, dts, Some(v.clone()), abs)
                }
            }
        } else if str_eq(t.as_str(), "--absolute") {
            parse_window_from(args, i + 1, acc, dts, dur, true)
        } else if str_eq(t.as_str(), "--conf-file") {
            if i + 1 >= args.len() {
                Err(ParseIssue::MissingFlagValue(t.clone()))
            } else {
                parse_window_from(args, i + 2, acc, dts, dur, abs)
            }
        } else if t.as_str().unicode_len() >= 1 && t.as_str().get_char(0) == '-' {
            Err(ParseIssue::UnknownFlag(t.clone()))
        } else {
            Err(ParseIssue::UnexpectedArgument(t.clone()))
        }
    }
}

fn parse_wt_from(
    args: &Vec<String>,
    i: usize,
    acc: PartialConfig,
    dts: Option<String>,
    dur: Option<String>,
) -> (r: Result<Config, ParseIssue>)
    requires
        i <= args@.len(),
    ensures
        issue_view(r) == spec_parse_wt(
            args.deep_view(),
            i as int,
            acc@,
            dts.deep_view(),
            dur.deep_view(),
        ),
    decreases args@.len() - i,
{
    let ghost av = args.deep_view();
    if i >= args.len() {
        match dts {
            None => Err(ParseIssue::MissingFlag(String::from_str("--datetime-start"))),
            Some(d) => match dur {
                None => Err(ParseIssue::MissingFlag(String::from_str("--duration"))),
                Some(u) => finalize(acc, Mode::WindowTransformed { datetime_start: d, duration: u }),
            },
        }
    } else {
        let t = &args[i];
        proof {
            assert(av[i as int] == t@);
        }
        if str_eq(t.as_str(), "--datetime-start") {
            if i + 1 >= args.len() {
                Err(ParseIssue::MissingFlagValue(t.clone()))
            } else if dts.is_some() {
                Err(ParseIssue::DuplicateFlag(t.clone()))
            } else {
                let v = &args[i + 1];
                proof {
                    assert(av[i as int + 1] == v@);
                }
                if !check_datetime(v.as_str()) {
                    Err(ParseIssue::InvalidDatetime(v.clone()))
                } else {
                    parse_wt_from(args, i + 2, acc, Some(v.clone()), dur)
                }
            }
        } else if str_eq(t.as_str(), "--duration") {
            if i + 1 >= args.len() {
                Err(ParseIssue::MissingFlagValue(t.clone()))
            } else if dur.is_some() {
                Err(ParseIssue::DuplicateFlag(t.clone()))
            } else {
                let v = &args[i + 1];
                proof {
                    assert(av[i as int + 1] == v@);
                }
                if !check_duration(v.as_str()) {
                    Err(ParseIssue::InvalidDuration(v.clone()))
                } else {
                    parse_wt_from(args, i + 2, acc, dts, Some(v.clone()))
                }
            }
        } else if str_eq(t.as_str(), "--conf-file") {
            if i + 1 >= args.len() {
                Err(ParseIssue::MissingFlagValue(t.clone()))
            } else {
                parse_wt_from(args, i + 2, acc, dts, dur)
            }
        } else if t.as_str().unicode_len() >= 1 && t.as_str().get_char(0) == '-' {
            Err(ParseIssue::UnknownFlag(t.clone()))
        } else {
            Err(ParseIssue::UnexpectedArgument(t.clone()))
        }
    }
}

fn parse_top_from(args: &Vec<String>, i: usize, acc: PartialConfig) -> (r: Result<
    Config,
    ParseIssue,
>)
    requires
        i <= args@.len(),
    ensures
        issue_view(r) == spec_parse_top(args.deep_view(), i as int, acc@),
    decreases args@.len() - i,
{
    let ghost av = args.deep_view();
    let ghost a0 = acc@;
    if i >= args.len() {
        Err(ParseIssue::MissingSubcommand)
    } else {
        let t = &args[i];
        proof {
            assert(av[i as int] == t@);
        }
        if str_eq(t.as_str(), "--input") {
            if i + 1 >= args.len() {
                Err(ParseIssue::MissingFlagValue(t.clone()))
            } else {
                let v = args[i + 1].clone();
                proof {
                    assert(av[i as int + 1] == args@[i as int + 1]@);
                }
                let mut acc2 = acc;
                acc2.inputs.push(v);
                proof {
                    assert(acc2.inputs.deep_view() =~= a0.inputs.push(av[i as int + 1]));
                    assert(acc2@ == PartialConfigV { inputs: a0.inputs.push(av[i as int + 1]), ..a0 });
                }
                parse_top_from(args, i + 2, acc2)
            }
        } else if str_eq(t.as_str(), "--model") {
            if i + 1 >= args.len() {
                Err(ParseIssue::MissingFlagValue(t.clone()))
            } else if acc.model.is_some() {
                Err(ParseIssue::DuplicateFlag(t.clone()))
            } else {
                let v = args[i + 1].clone();
                proof {
                    assert(av[i as int + 1] == args@[i as int + 1]@);
                }
                let mut acc2 = acc;
                acc2.model = Some(v);
                proof {
                    assert(acc2@ == PartialConfigV { model: Some(av[i as int + 1]), ..a0 });
                }
                parse_top_from(args, i + 2, acc2)
            }
        } else if str_eq(t.as_str(), "--output") {
            if i + 1 >= args.len() {
                Err(ParseIssue::MissingFlagValue(t.clone()))
            } else if acc.output.is_some() {
                Err(ParseIssue::DuplicateFlag(t.clone()))
            } else {
                let v = args[i + 1].clone();
                proof {
                    assert(av[i as int + 1] == args@[i as int + 1]@);
                }
                let mut acc2 = acc;
                acc2.output = Some(v);
                proof {
                    assert(acc2@ == PartialConfigV { output: Some(av[i as int + 1]), ..a0 });
                }
                parse_top_from(args, i + 2, acc2)
            }
        } else if str_eq(t.as_str(), "--batch-size") {
            if i + 1 >= args.len() {
                Err(ParseIssue::MissingFlagValue(t.clone()))
            } else if acc.batch_size.is_some() {
                Err(ParseIssue::DuplicateFlag(t.clone()))
            } else {
                let v = &args[i + 1];
                proof {
                    assert(av[i as int + 1] == v@);
                }
                match parse_u64(v.as_str()) {
                    None => Err(ParseIssue::InvalidBatchSize(v.clone())),
                    Some(b) => {
                        if b == 0 {
                            Err(ParseIssue::InvalidBatchSize(v.clone()))
                        } else {
                            let mut acc2 = acc;
                            acc2.batch_size = Some(b);
                            proof {
                                assert(valid_batch(av[i as int + 1]));
                                assert(acc2@ == PartialConfigV {
                                    batch_size: Some(digits_val(av[i as int + 1]) as u64),
                                    ..a0
                                });
                            }
                            parse_top_from(args, i + 2, acc2)
                        }
                    },
                }
            }
        } else if str_eq(t.as_str(), "--conf-file") {
            if i + 1 >= args.len() {
                Err(ParseIssue::MissingFlagValue(t.clone()))
            } else {
                parse_top_from(args, i + 2, acc)
            }
        } else if str_eq(t.as_str(), "single") {
            parse_single_from(args, i + 1, acc, None, false)
        } else if str_eq(t.as_str(), "window") {
            parse_window_from(args, i + 1, acc, None, None, false)
        } else if str_eq(t.as_str(), "window-transformed") {
            parse_wt_from(args, i + 1, acc, None, None)
        } else if t.as_str().unicode_len() >= 1 && t.as_str().get_char(0) == '-' {
            Err(ParseIssue::UnknownFlag(t.clone()))
        } else {
            Err(ParseIssue::UnknownSubcommand(t.clone()))
        }
    }
}

/// The command-line candidate builder: parses `args` (the arguments after
/// the program name) against the full grammar, all or nothing.
pub fn build_cli_candidate(args: &Vec<String>) -> (r: Result<Config, ParseIssue>)
    ensures
        issue_view(r) == spec_parse_cli(args.deep_view()),
{
    let acc = PartialConfig { inputs: Vec::new(), model: None, output: None, batch_size: None };
    proof {
        assert(acc@.inputs =~= empty_partial().inputs);
        assert(acc@ == empty_partial());
    }
    parse_top_from(args, 0, acc)
}

fn bootstrap_from(args: &Vec<String>, i: usize) -> (r: Option<String>)
    requires
        i <= args@.len(),
    ensures
        r.deep_view() == spec_bootstrap_from(args.deep_view(), i as int),
    decreases args@.len() - i,
{
    let ghost av = args.deep_view();
    if i >= args.len() {
        None
    } else {
        let t = &args[i];
        proof {
            assert(av[i as int] == t@);
        }
        if str_eq(t.as_str(), "--conf-file") && i + 1 < args.len() {
            proof {
                assert(av[i as int + 1] == args@[i as int + 1]@);
            }
            Some(args[i + 1].clone())
        } else {
            bootstrap_from(args, i + 1)
        }
    }
}

/// The bootstrap source: extracts only the configuration-file path from the
/// command line; every other token is ignored and no token is an error.
pub fn bootstrap_conf_path(args: &Vec<String>) -> (r: Option<String>)
    ensures
        r.deep_view() == spec_bootstrap(args.deep_view()),
{
    bootstrap_from(args, 0)
}

} // verus!
