//! The resolver: runs the command-line candidate and the file candidate and
//! selects a whole winning candidate — command line first, file second —
//! or aggregates both failures, in attempt order, when neither succeeds.

use vstd::prelude::*;

use crate::cli::{
    build_cli_candidate,
    empty_partial,
    partial_ok,
    spec_finalize,
    spec_parse_cli,
    spec_parse_single,
    spec_parse_top,
    spec_parse_window,
    spec_parse_wt,
    PartialConfigV,
};
use crate::errors::{AggregateError, ConfigError, ConfigErrorV, ParseIssueV};
use crate::file::{
    build_file_candidate,
    file_batch,
    file_inputs,
    file_mode,
    spec_file_candidate,
    spec_parse_file_text,
};
use crate::schema::{config_wf, mode_wf, valid_datetime, valid_duration, Config, ConfigV, ModeV};

verus! {

/// The payload of a successful result.
pub open spec fn ok_of<T, E>(r: Result<T, E>) -> T {
    match r {
        Ok(t) => t,
        Err(_) => arbitrary(),
    }
}

/// The payload of a failed result.
pub open spec fn err_of<T, E>(r: Result<T, E>) -> E {
    match r {
        Ok(_) => arbitrary(),
        Err(e) => e,
    }
}

/// The model of the outcome of reading the configuration file: `None` when
/// the bootstrap source named no path, otherwise the text read or the I/O
/// failure's message.
pub open spec fn file_read_view(fr: Option<Result<String, String>>) -> Option<
    Result<Seq<char>, Seq<char>>,
> {
    match fr {
        None => None,
        Some(Ok(t)) => Some(Ok(t@)),
        Some(Err(m)) => Some(Err(m@)),
    }
}

/// The command-line attempt, tagged with its taxonomy.
pub open spec fn spec_cli_attempt(args: Seq<Seq<char>>) -> Result<ConfigV, ConfigErrorV> {
    match spec_parse_cli(args) {
        Ok(c) => Ok(c),
        Err(p) => Err(ConfigErrorV::ParseError(p)),
    }
}

/// The file attempt: a missing path is its own failure, distinct from I/O
/// and parse failures.
pub open spec fn spec_file_attempt(fr: Option<Result<Seq<char>, Seq<char>>>) -> Result<
    ConfigV,
    ConfigErrorV,
> {
    match fr {
        None => Err(ConfigErrorV::NoFileSpecified),
        Some(Err(m)) => Err(ConfigErrorV::IoError(m)),
        Some(Ok(t)) => match spec_parse_file_text(t) {
            Ok(c) => Ok(c),
            Err(p) => Err(ConfigErrorV::ParseError(p)),
        },
    }
}

/// The selection policy: the command-line candidate wins outright; else the
/// file candidate; else both causes are reported, command line first.
pub open spec fn spec_resolve(
    args: Seq<Seq<char>>,
    fr: Option<Result<Seq<char>, Seq<char>>>,
) -> Result<ConfigV, Seq<ConfigErrorV>> {
    match spec_cli_attempt(args) {
        Ok(c) => Ok(c),
        Err(ce) => match spec_file_attempt(fr) {
            Ok(c) => Ok(c),
            Err(fe) => Err(seq![ce, fe]),
        },
    }
}

proof fn lemma_finalize_wf(acc: PartialConfigV, mode: ModeV)
    requires
        partial_ok(acc),
        mode_wf(mode),
    ensures
        spec_finalize(acc, mode) matches Ok(c) ==> config_wf(c),
{
}

proof fn lemma_single_wf(
    args: Seq<Seq<char>>,
    i: int,
    acc: PartialConfigV,
    dt: Option<Seq<char>>,
    abs: bool,
)
    requires
        partial_ok(acc),
        dt matches Some(d) ==> valid_datetime(d),
    ensures
        spec_parse_single(args, i, acc, dt, abs) matches Ok(c) ==> config_wf(c),
    decreases args.len() - i,
{
    if i >= args.len() {
        match dt {
            None => {},
            Some(d) => lemma_finalize_wf(acc, ModeV::Single { datetime: d, absolute: abs }),
        }
    } else {
        let t = args[i];
        if t == "--datetime"@ {
            if i + 1 < args.len() && dt is None && valid_datetime(args[i + 1]) {
                lemma_single_wf(args, i + 2, acc, Some(args[i + 1]), abs);
            }
        } else if t == "--absolute"@ {
            lemma_single_wf(args, i + 1, acc, dt, true);
        } else if t == "--conf-file"@ {
            if i + 1 < args.len() {
                lemma_single_wf(args, i + 2, acc, dt, abs);
            }
        }
    }
}

proof fn lemma_window_wf(
    args: Seq<Seq<char>>,
    i: int,
    acc: PartialConfigV,
    dts: Option<Seq<char>>,
    dur: Option<Seq<char>>,
    abs: bool,
)
    requires
        partial_ok(acc),
        dts matches Some(d) ==> valid_datetime(d),
        dur matches Some(u) ==> valid_duration(u),
    ensures
        spec_parse_window(args, i, acc, dts, dur, abs) matches Ok(c) ==> config_wf(c),
    decreases args.len() - i,
{
    if i >= args.len() {
        match dts {
            None => {},
            Some(d) => match dur {
                None => {},
                Some(u) => lemma_finalize_wf(
                    acc,
                    ModeV::Window { datetime_start: d, duration: u, absolute: abs },
                ),
            },
        }
    } else {
        let t = args[i];
        if t == "--datetime-start"@ {
            if i + 1 < args.len() && dts is None && valid_datetime(args[i + 1]) {
                lemma_window_wf(args, i + 2, acc, Some(args[i + 1]), dur, abs);
            }
        } else if t == "--duration"@ {
            if i + 1 < args.len() && dur is None && valid_duration(args[i + 1]) {
                lemma_window_wf(args, i + 2, acc, dts, Some(args[i + 1]), abs);
            }
        } else if t == "--absolute"@ {
            lemma_window_wf(args, i + 1, acc, dts, dur, true);
        } else if t == "--conf-file"@ {
            if i + 1 < args.len() {
                lemma_window_wf(args, i + 2, acc, dts, dur, abs);
            }
        }
    }
}

proof fn lemma_wt_wf(
    args: Seq<Seq<char>>,
    i: int,
    acc: PartialConfigV,
    dts: Option<Seq<char>>,
    dur: Option<Seq<char>>,
)
    requires
        partial_ok(acc),
        dts matches Some(d) ==> valid_datetime(d),
        dur matches Some(u) ==> valid_duration(u),
    ensures
        spec_parse_wt(args, i, acc, dts, dur) matches Ok(c) ==> config_wf(c),
    decreases args.len() - i,
{
    if i >= args.len() {
        match dts {
            None => {},
            Some(d) => match dur {
                None => {},
                Some(u) => lemma_finalize_wf(
                    acc,
                    ModeV::WindowTransformed { datetime_start: d, duration: u },
                ),
            },
        }
    } else {
        let t = args[i];
        if t == "--datetime-start"@ {
            if i + 1 < args.len() && dts is None && valid_datetime(args[i + 1]) {
                lemma_wt_wf(args, i + 2, acc, Some(args[i + 1]), dur);
            }
        } else if t == "--duration"@ {
            if i + 1 < args.len() && dur is None && valid_duration(args[i + 1]) {
                lemma_wt_wf(args, i + 2, acc, dts, Some(args[i + 1]));
            }
        } else if t == "--conf-file"@ {
            if i + 1 < args.len() {
                lemma_wt_wf(args, i + 2, acc, dts, dur);
            }
        }
    }
}

proof fn lemma_top_wf(args: Seq<Seq<char>>, i: int, acc: PartialConfigV)
    requires
        partial_ok(acc),
    ensures
        spec_parse_top(args, i, acc) matches Ok(c) ==> config_wf(c),
    decreases args.len() - i,
{
    if i < args.len() {
        let t = args[i];
        if t == "--input"@ {
            if i + 1 < args.len() {
                lemma_top_wf(
                    args,
                    i + 2,
                    PartialConfigV { inputs: acc.inputs.push(args[i + 1]), ..acc },
                );
            }
        } else if t == "--model"@ {
            if i + 1 < args.len() && acc.model is None {
                lemma_top_wf(args, i + 2, PartialConfigV { model: Some(args[i + 1]), ..acc });
            }
        } else if t == "--output"@ {
            if i + 1 < args.len() && acc.output is None {
                lemma_top_wf(args, i + 2, PartialConfigV { output: Some(args[i + 1]), ..acc });
            }
        } else if t == "--batch-size"@ {
            if i + 1 < args.len() && acc.batch_size is None && crate::schema::valid_batch(
                args[i + 1],
            ) {
                lemma_top_wf(
                    args,
                    i + 2,
                    PartialConfigV {
                        batch_size: Some(crate::schema::digits_val(args[i + 1]) as u64),
                        ..acc
                    },
                );
            }
        } else if t == "--conf-file"@ {
            if i + 1 < args.len() {
                lemma_top_wf(args, i + 2, acc);
            }
        } else if t == "single"@ {
            lemma_single_wf(args, i + 1, acc, None, false);
        } else if t == "window"@ {
            lemma_window_wf(args, i + 1, acc, None, None, false);
        } else if t == "window-transformed"@ {
            lemma_wt_wf(args, i + 1, acc, None, None);
        }
    }
}

/// Every command-line candidate satisfies the configuration invariant.
pub proof fn law_cli_candidate_wf(args: Seq<Seq<char>>)
    ensures
        spec_parse_cli(args) matches Ok(c) ==> config_wf(c),
{
    lemma_top_wf(args, 0, empty_partial());
}

/// Every file candidate satisfies the configuration invariant.
pub proof fn law_file_candidate_wf(s: Seq<char>)
    ensures
        spec_parse_file_text(s) matches Ok(c) ==> config_wf(c),
{
    if spec_parse_file_text(s) is Ok {
        let c = ok_of(spec_parse_file_text(s));
        let doc = ok_of(crate::file::toml_doc(s));
        assert(spec_file_candidate(doc) == Ok::<ConfigV, ParseIssueV>(c));
        let m = crate::file::node_table(doc);
        assert(c.inputs == ok_of(file_inputs(m)));
        assert(c.inputs.len() > 0);
        assert(c.batch_size == ok_of(file_batch(m)));
        assert(c.batch_size > 0);
        assert(c.mode == ok_of(file_mode(m)));
        assert(mode_wf(c.mode));
    }
}

/// Every resolved configuration satisfies the configuration invariant.
pub proof fn law_resolved_wf(args: Seq<Seq<char>>, fr: Option<Result<Seq<char>, Seq<char>>>)
    ensures
        spec_resolve(args, fr) matches Ok(c) ==> config_wf(c),
{
    law_cli_candidate_wf(args);
    match fr {
        Some(inner) => match inner {
            Ok(t) => law_file_candidate_wf(t),
            Err(_) => {},
        },
        None => {},
    }
}

/// Command-line precedence: when the command line alone yields a candidate,
/// resolution returns exactly that candidate, whatever the file source's
/// outcome — including under any other file-source outcome.
pub proof fn law_cli_precedence(
    args: Seq<Seq<char>>,
    fr1: Option<Result<Seq<char>, Seq<char>>>,
    fr2: Option<Result<Seq<char>, Seq<char>>>,
)
    requires
        spec_parse_cli(args) is Ok,
    ensures
        spec_resolve(args, fr1) == Ok::<ConfigV, Seq<ConfigErrorV>>(ok_of(spec_parse_cli(args))),
        spec_resolve(args, fr1) == spec_resolve(args, fr2),
{
}

/// Whole-candidate fallback: when the command line fails but the file yields
/// a candidate, resolution returns the file's candidate unmodified — no
/// command-line flag leaks in.
pub proof fn law_file_fallback(args: Seq<Seq<char>>, fr: Option<Result<Seq<char>, Seq<char>>>)
    requires
        spec_parse_cli(args) is Err,
        spec_file_attempt(fr) is Ok,
    ensures
        spec_resolve(args, fr) == Ok::<ConfigV, Seq<ConfigErrorV>>(ok_of(spec_file_attempt(fr))),
{
}

/// Total-failure aggregation: when both sources fail, resolution fails with
/// exactly the two causes, in attempt order — the command line's parse
/// failure first, the file source's failure second. No cause is dropped.
pub proof fn law_total_failure_aggregates(
    args: Seq<Seq<char>>,
    fr: Option<Result<Seq<char>, Seq<char>>>,
)
    requires
        spec_parse_cli(args) is Err,
        spec_file_attempt(fr) is Err,
    ensures
        spec_resolve(args, fr) == Err::<ConfigV, Seq<ConfigErrorV>>(
            seq![
                ConfigErrorV::ParseError(err_of(spec_parse_cli(args))),
                err_of(spec_file_attempt(fr)),
            ],
        ),
{
}

/// A failure to read the named file is attributed as an I/O cause, never as
/// a parse cause.
pub proof fn law_io_failure_attributed(m: Seq<char>)
    ensures
        spec_file_attempt(Some(Err(m))) == Err::<ConfigV, ConfigErrorV>(ConfigErrorV::IoError(m)),
{
}

/// Idempotence: resolution is a function of the command line and the file
/// outcome alone, so equal inputs yield equal configurations.
pub proof fn law_resolution_deterministic(
    args1: Seq<Seq<char>>,
    fr1: Option<Result<Seq<char>, Seq<char>>>,
    args2: Seq<Seq<char>>,
    fr2: Option<Result<Seq<char>, Seq<char>>>,
)
    requires
        args1 == args2,
        fr1 == fr2,
    ensures
        spec_resolve(args1, fr1) == spec_resolve(args2, fr2),
{
}

/// The resolver: `args` are the command-line arguments after the program
/// name; `file_read` is the outcome of reading the file the bootstrap source
/// named — `None` where it named none, otherwise the text read or the I/O
/// failure's message.
pub fn resolve(args: &Vec<String>, file_read: &Option<Result<String, String>>) -> (r: Result<
    Config,
    AggregateError,
>)
    ensures
        match r {
            Ok(c) => spec_resolve(args.deep_view(), file_read_view(*file_read)) == Ok::<
                _,
                Seq<ConfigErrorV>,
            >(c@),
            Err(e) => spec_resolve(args.deep_view(), file_read_view(*file_read)) == Err::<
                ConfigV,
                _,
            >(e@),
        },
        r matches Ok(c) ==> config_wf(c@),
{
    proof {
        law_resolved_wf(args.deep_view(), file_read_view(*file_read));
    }
    match build_cli_candidate(args) {
        Ok(c) => Ok(c),
        Err(p) => {
            let cli_err = ConfigError::ParseError(p);
            let ghost cev = cli_err@;
            let file_res: Result<Config, ConfigError> = match file_read {
                None => Err(ConfigError::NoFileSpecified),
                Some(Ok(t)) => match build_file_candidate(t.as_str()) {
                    Ok(c) => Ok(c),
                    Err(p2) => Err(ConfigError::ParseError(p2)),
                },
                Some(Err(m)) => Err(ConfigError::IoError(m.clone())),
            };
            match file_res {
                Ok(c) => Ok(c),
                Err(fe) => {
                    let ghost fev = fe@;
                    let mut causes: Vec<ConfigError> = Vec::new();
                    causes.push(cli_err);
                    causes.push(fe);
                    proof {
                        assert(causes.deep_view() =~= seq![cev, fev]);
                    }
                    Err(AggregateError { causes })
                },
            }
        },
    }
}

} // verus!
