//! The file source: TOML text is parsed by the `toml` crate behind trusted
//! wrappers, and the resulting document is checked against the schema by
//! verified code. The expected document shape is
//!
//! ```toml
//! input = ["*.csv"]
//! model = "m.bin"
//! output = "out.txt"   # optional
//! batch_size = 512     # optional, defaults to 1024
//! [command.window]     # or command.single / command.window_transformed
//! datetime_start = "2024-01-01-00-00-00"
//! duration = "4h"
//! absolute = true      # optional, defaults to false
//! ```

use vstd::prelude::*;

use crate::errors::{ParseIssue, ParseIssueV};
use crate::schema::{
    check_datetime,
    check_duration,
    valid_datetime,
    valid_duration,
    Config,
    ConfigV,
    Mode,
    ModeV,
    DEFAULT_BATCH_SIZE,
};

verus! {

/// The mathematical model of a parsed TOML document. Floats and datetimes,
/// which the schema has no use for, are folded into `Other`.
pub enum TomlNode {
    Str(Seq<char>),
    Int(i64),
    Bool(bool),
    Arr(Seq<TomlNode>),
    Table(Map<Seq<char>, TomlNode>),
    Other,
}

pub open spec fn node_str(n: TomlNode) -> Seq<char> {
    match n {
        TomlNode::Str(s) => s,
        _ => arbitrary(),
    }
}

pub open spec fn node_arr(n: TomlNode) -> Seq<TomlNode> {
    match n {
        TomlNode::Arr(a) => a,
        _ => arbitrary(),
    }
}

pub open spec fn node_table(n: TomlNode) -> Map<Seq<char>, TomlNode> {
    match n {
        TomlNode::Table(m) => m,
        _ => arbitrary(),
    }
}

/// Declares `toml::Value`, the `toml` crate's dynamically typed document
/// value, so that it can stand in signatures; it stays opaque, and the
/// wrappers below say what its contents are over [`toml_model`].
#[verifier::external_type_specification]
#[verifier::external_body]
pub struct ExTomlValue(toml::Value);

/// The model of one parsed TOML value.
pub uninterp spec fn toml_model(v: toml::Value) -> TomlNode;

/// What parsing a TOML text yields: a document model, or the parser's error
/// message. Parsing is a function of the text alone.
pub uninterp spec fn toml_doc(s: Seq<char>) -> Result<TomlNode, Seq<char>>;

/// Relies on `toml::from_str::<toml::Value>`: deterministic parsing of TOML
/// text, yielding a value or a message that says what went wrong.
#[verifier::external_body]
fn toml_parse(s: &str) -> (r: Result<toml::Value, String>)
    ensures
        match r {
            Ok(v) => toml_doc(s@) matches Ok(n) && toml_model(v) == n,
            Err(m) => toml_doc(s@) == Err::<TomlNode, Seq<char>>(m@),
        },
{
    match toml::from_str::<toml::Value>(s) {
        Ok(v) => Ok(v),
        Err(e) => Err(e.message().to_string()),
    }
}

/// Relies on `toml::Value::get` with a string index: a lookup in the table
/// variant, and `None` on every other variant.
#[verifier::external_body]
fn toml_get<'a>(v: &'a toml::Value, key: &str) -> (r: Option<&'a toml::Value>)
    ensures
        match toml_model(*v) {
            TomlNode::Table(m) => {
                &&& (r is Some) == m.dom().contains(key@)
                &&& (r matches Some(x) ==> toml_model(*x) == m[key@])
            },
            _ => r is None,
        },
{
    v.get(key)
}

/// Relies on `toml::Value::is_table`.
#[verifier::external_body]
fn toml_is_table(v: &toml::Value) -> (r: bool)
    ensures
        r == (toml_model(*v) is Table),
{
    v.is_table()
}

/// Relies on `toml::Value::as_str`: `Some` exactly on the string variant.
#[verifier::external_body]
fn toml_as_str<'a>(v: &'a toml::Value) -> (r: Option<&'a str>)
    ensures
        match r {
            Some(s) => toml_model(*v) == TomlNode::Str(s@),
            None => !(toml_model(*v) is Str),
        },
{
    v.as_str()
}

/// Relies on `toml::Value::as_integer`: `Some` exactly on the integer
/// variant.
#[verifier::external_body]
fn toml_as_integer(v: &toml::Value) -> (r: Option<i64>)
    ensures
        match r {
            Some(n) => toml_model(*v) == TomlNode::Int(n),
            None => !(toml_model(*v) is Int),
        },
{
    v.as_integer()
}

/// Relies on `toml::Value::as_bool`: `Some` exactly on the boolean variant.
#[verifier::external_body]
fn toml_as_bool(v: &toml::Value) -> (r: Option<bool>)
    ensures
        match r {
            Some(b) => toml_model(*v) == TomlNode::Bool(b),
            None => !(toml_model(*v) is Bool),
        },
{
    v.as_bool()
}

/// Relies on `toml::Value::as_array`: `Some` exactly on the array variant,
/// handing out its elements in order.
#[verifier::external_body]
fn toml_as_array<'a>(v: &'a toml::Value) -> (r: Option<&'a Vec<toml::Value>>)
    ensures
        match r {
            Some(a) => toml_model(*v) matches TomlNode::Arr(ns) && ns.len() == a@.len() && (forall|
                j: int,
            |
                0 <= j < a@.len() ==> ns[j] == toml_model(a@[j])),
            None => !(toml_model(*v) is Arr),
        },
{
    v.as_array()
}

/// The `input` key: a non-empty array of strings.
pub open spec fn file_inputs(m: Map<Seq<char>, TomlNode>) -> Result<Seq<Seq<char>>, ParseIssueV> {
    if !m.dom().contains("input"@) {
        Err(ParseIssueV::MissingKey("input"@))
    } else {
        match m["input"@] {
            TomlNode::Arr(ns) => {
                if !(forall|j: int| 0 <= j < ns.len() ==> ns[j] is Str) {
                    Err(ParseIssueV::WrongType("input"@))
                } else if ns.len() == 0 {
                    Err(ParseIssueV::InvalidValue("input"@))
                } else {
                    Ok(Seq::new(ns.len(), |j: int| node_str(ns[j])))
                }
            },
            _ => Err(ParseIssueV::WrongType("input"@)),
        }
    }
}

/// The `model` key: a required string.
pub open spec fn file_model(m: Map<Seq<char>, TomlNode>) -> Result<Seq<char>, ParseIssueV> {
    if !m.dom().contains("model"@) {
        Err(ParseIssueV::MissingKey("model"@))
    } else {
        match m["model"@] {
            TomlNode::Str(s) => Ok(s),
            _ => Err(ParseIssueV::WrongType("model"@)),
        }
    }
}

/// The `output` key: an optional string.
pub open spec fn file_output(m: Map<Seq<char>, TomlNode>) -> Result<
    Option<Seq<char>>,
    ParseIssueV,
> {
    if !m.dom().contains("output"@) {
        Ok(None)
    } else {
        match m["output"@] {
            TomlNode::Str(s) => Ok(Some(s)),
            _ => Err(ParseIssueV::WrongType("output"@)),
        }
    }
}

/// The `batch_size` key: an optional positive integer, defaulting to 1024.
pub open spec fn file_batch(m: Map<Seq<char>, TomlNode>) -> Result<u64, ParseIssueV> {
    if !m.dom().contains("batch_size"@) {
        Ok(DEFAULT_BATCH_SIZE)
    } else {
        match m["batch_size"@] {
            TomlNode::Int(n) => if n < 1 {
                Err(ParseIssueV::InvalidValue("batch_size"@))
            } else {
                Ok(n as u64)
            },
            _ => Err(ParseIssueV::WrongType("batch_size"@)),
        }
    }
}

/// The body of `command.single`.
pub open spec fn file_single(st: Map<Seq<char>, TomlNode>) -> Result<ModeV, ParseIssueV> {
    if !st.dom().contains("datetime"@) {
        Err(ParseIssueV::MissingKey("datetime"@))
    } else {
        match st["datetime"@] {
            TomlNode::Str(d) => {
                if !valid_datetime(d) {
                    Err(ParseIssueV::InvalidDatetime(d))
                } else if !st.dom().contains("absolute"@) {
                    Ok(ModeV::Single { datetime: d, absolute: false })
                } else {
                    match st["absolute"@] {
                        TomlNode::Bool(b) => Ok(ModeV::Single { datetime: d, absolute: b }),
                        _ => Err(ParseIssueV::WrongType("absolute"@)),
                    }
                }
            },
            _ => Err(ParseIssueV::WrongType("datetime"@)),
        }
    }
}

/// The start and span keys shared by the two window variants.
pub open spec fn file_window_core(wt: Map<Seq<char>, TomlNode>) -> Result<
    (Seq<char>, Seq<char>),
    ParseIssueV,
> {
    if !wt.dom().contains("datetime_start"@) {
        Err(ParseIssueV::MissingKey("datetime_start"@))
    } else {
        match wt["datetime_start"@] {
            TomlNode::Str(d) => {
                if !valid_datetime(d) {
                    Err(ParseIssueV::InvalidDatetime(d))
                } else if !wt.dom().contains("duration"@) {
                    Err(ParseIssueV::MissingKey("duration"@))
                } else {
                    match wt["duration"@] {
                        TomlNode::Str(u) => if !valid_duration(u) {
                            Err(ParseIssueV::InvalidDuration(u))
                        } else {
                            Ok((d, u))
                        },
                        _ => Err(ParseIssueV::WrongType("duration"@)),
                    }
                }
            },
            _ => Err(ParseIssueV::WrongType("datetime_start"@)),
        }
    }
}

/// The body of `command.window`.
pub open spec fn file_window(wt: Map<Seq<char>, TomlNode>) -> Result<ModeV, ParseIssueV> {
    match file_window_core(wt) {
        Err(e) => Err(e),
        Ok((d, u)) => {
            if !wt.dom().contains("absolute"@) {
                Ok(ModeV::Window { datetime_start: d, duration: u, absolute: false })
            } else {
                match wt["absolute"@] {
                    TomlNode::Bool(b) => Ok(
                        ModeV::Window { datetime_start: d, duration: u, absolute: b },
                    ),
                    _ => Err(ParseIssueV::WrongType("absolute"@)),
                }
            }
        },
    }
}

/// The body of `command.window_transformed`.
pub open spec fn file_wt(wt: Map<Seq<char>, TomlNode>) -> Result<ModeV, ParseIssueV> {
    match file_window_core(wt) {
        Err(e) => Err(e),
        Ok((d, u)) => Ok(ModeV::WindowTransformed { datetime_start: d, duration: u }),
    }
}

/// The `command` table: exactly one of the three variant keys, whose body is
/// a table matching that variant.
pub open spec fn file_mode(m: Map<Seq<char>, TomlNode>) -> Result<ModeV, ParseIssueV> {
    if !m.dom().contains("command"@) {
        Err(ParseIssueV::MissingKey("command"@))
    } else {
        match m["command"@] {
            TomlNode::Table(cm) => {
                let hs = cm.dom().contains("single"@);
                let hw = cm.dom().contains("window"@);
                let ht = cm.dom().contains("window_transformed"@);
                if (hs && hw) || (hs && ht) || (hw && ht) {
                    Err(ParseIssueV::AmbiguousMode)
                } else if hs {
                    match cm["single"@] {
                        TomlNode::Table(st) => file_single(st),
                        _ => Err(ParseIssueV::WrongType("single"@)),
                    }
                } else if hw {
                    match cm["window"@] {
                        TomlNode::Table(wt) => file_window(wt),
                        _ => Err(ParseIssueV::WrongType("window"@)),
                    }
                } else if ht {
                    match cm["window_transformed"@] {
                        TomlNode::Table(tt) => file_wt(tt),
                        _ => Err(ParseIssueV::WrongType("window_transformed"@)),
                    }
                } else {
                    Err(ParseIssueV::NoModeGiven)
                }
            },
            _ => Err(ParseIssueV::WrongType("command"@)),
        }
    }
}

/// The whole file candidate, from the document model: every required field
/// must be present and well-typed, with exactly one mode variant.
pub open spec fn spec_file_candidate(doc: TomlNode) -> Result<ConfigV, ParseIssueV> {
    match doc {
        TomlNode::Table(m) => match file_inputs(m) {
            Err(e) => Err(e),
            Ok(ins) => match file_model(m) {
                Err(e) => Err(e),
                Ok(mp) => match file_output(m) {
                    Err(e) => Err(e),
                    Ok(op) => match file_batch(m) {
                        Err(e) => Err(e),
                        Ok(bs) => match file_mode(m) {
                            Err(e) => Err(e),
                            Ok(md) => Ok(
                                ConfigV {
                                    inputs: ins,
                                    model_path: mp,
                                    output_path: op,
                                    batch_size: bs,
                                    mode: md,
                                },
                            ),
                        },
                    },
                },
            },
        },
        _ => Err(ParseIssueV::WrongType("document"@)),
    }
}

/// The file candidate from the file's text: TOML syntax errors carry the
/// parser's message, and a well-formed document is checked as above.
pub open spec fn spec_parse_file_text(s: Seq<char>) -> Result<ConfigV, ParseIssueV> {
    match toml_doc(s) {
        Err(m) => Err(ParseIssueV::TomlSyntax(m)),
        Ok(doc) => spec_file_candidate(doc),
    }
}

fn get_inputs(v: &toml::Value) -> (r: Result<Vec<String>, ParseIssue>)
    requires
        toml_model(*v) is Table,
    ensures
        match r {
            Ok(out) => file_inputs(node_table(toml_model(*v))) == Ok::<_, ParseIssueV>(
                out.deep_view(),
            ),
            Err(e) => file_inputs(node_table(toml_model(*v))) == Err::<Seq<Seq<char>>, _>(e@),
        },
{
    let ghost m = node_table(toml_model(*v));
    match toml_get(v, "input") {
        None => Err(ParseIssue::MissingKey(String::from_str("input"))),
        Some(x) => match toml_as_array(x) {
            None => Err(ParseIssue::WrongType(String::from_str("input"))),
            Some(arr) => {
                let ghost ns = node_arr(toml_model(*x));
                let mut out: Vec<String> = Vec::new();
                let n = arr.len();
                let mut j: usize = 0;
                while j < n
                    invariant
                        0 <= j <= n,
                        n == arr@.len(),
                        ns.len() == arr@.len(),
                        toml_model(*v) is Table,
                        m == node_table(toml_model(*v)),
                        m.dom().contains("input"@),
                        m["input"@] == toml_model(*x),
                        toml_model(*x) is Arr,
                        ns == node_arr(toml_model(*x)),
                        forall|k: int| 0 <= k < n ==> ns[k] == toml_model(arr@[k]),
                        forall|k: int| 0 <= k < j ==> ns[k] is Str,
                        out.deep_view().len() == j,
                        forall|k: int| 0 <= k < j ==> out.deep_view()[k] == node_str(ns[k]),
                    decreases n - j,
                {
                    match toml_as_str(&arr[j]) {
                        None => {
                            proof {
                                assert(!(ns[j as int] is Str));
                                assert(!(forall|k: int| 0 <= k < ns.len() ==> ns[k] is Str)) by {
                                    assert(0 <= j < ns.len() && !(ns[j as int] is Str));
                                }
                            }
                            return Err(ParseIssue::WrongType(String::from_str("input")));
                        },
                        Some(s) => {
                            let ghost odv = out.deep_view();
                            out.push(s.to_owned());
                            proof {
                                assert(out.deep_view() =~= odv.push(s@));
                            }
                        },
                    }
                    j += 1;
                }
                if out.len() == 0 {
                    Err(ParseIssue::InvalidValue(String::from_str("input")))
                } else {
                    proof {
                        assert(out.deep_view() =~= Seq::new(ns.len(), |k: int| node_str(ns[k])));
                    }
                    Ok(out)
                }
            },
        },
    }
}

fn get_model(v: &toml::Value) -> (r: Result<String, ParseIssue>)
    requires
        toml_model(*v) is Table,
    ensures
        match r {
            Ok(s) => file_model(node_table(toml_model(*v))) == Ok::<_, ParseIssueV>(s@),
            Err(e) => file_model(node_table(toml_model(*v))) == Err::<Seq<char>, _>(e@),
        },
{
    match toml_get(v, "model") {
        None => Err(ParseIssue::MissingKey(String::from_str("model"))),
        Some(x) => match toml_as_str(x) {
            None => Err(ParseIssue::WrongType(String::from_str("model"))),
            Some(s) => Ok(s.to_owned()),
        },
    }
}

fn get_output(v: &toml::Value) -> (r: Result<Option<String>, ParseIssue>)
    requires
        toml_model(*v) is Table,
    ensures
        match r {
            Ok(o) => file_output(node_table(toml_model(*v))) == Ok::<_, ParseIssueV>(o.deep_view()),
            Err(e) => file_output(node_table(toml_model(*v))) == Err::<Option<Seq<char>>, _>(e@),
        },
{
    match toml_get(v, "output") {
        None => Ok(None),
        Some(x) => match toml_as_str(x) {
            None => Err(ParseIssue::WrongType(String::from_str("output"))),
            Some(s) => Ok(Some(s.to_owned())),
        },
    }
}

fn get_batch(v: &toml::Value) -> (r: Result<u64, ParseIssue>)
    requires
        toml_model(*v) is Table,
    ensures
        match r {
            Ok(b) => file_batch(node_table(toml_model(*v))) == Ok::<_, ParseIssueV>(b),
            Err(e) => file_batch(node_table(toml_model(*v))) == Err::<u64, _>(e@),
        },
{
    match toml_get(v, "batch_size") {
        None => Ok(DEFAULT_BATCH_SIZE),
        Some(x) => match toml_as_integer(x) {
            None => Err(ParseIssue::WrongType(String::from_str("batch_size"))),
            Some(n) => {
                if n < 1 {
                    Err(ParseIssue::InvalidValue(String::from_str("batch_size")))
                } else {
                    Ok(n as u64)
                }
            },
        },
    }
}

fn get_single(v: &toml::Value) -> (r: Result<Mode, ParseIssue>)
    requires
        toml_model(*v) is Table,
    ensures
        match r {
            Ok(md) => file_single(node_table(toml_model(*v))) == Ok::<_, ParseIssueV>(md@),
            Err(e) => file_single(node_table(toml_model(*v))) == Err::<ModeV, _>(e@),
        },
{
    match toml_get(v, "datetime") {
        None => Err(ParseIssue::MissingKey(String::from_str("datetime"))),
        Some(x) => match toml_as_str(x) {
            None => Err(ParseIssue::WrongType(String::from_str("datetime"))),
            Some(d) => {
                if !check_datetime(d) {
                    Err(ParseIssue::InvalidDatetime(d.to_owned()))
                } else {
                    match toml_get(v, "absolute") {
                        None => Ok(Mode::Single { datetime: d.to_owned(), absolute: false }),
                        Some(a) => match toml_as_bool(a) {
                            None => Err(ParseIssue::WrongType(String::from_str("absolute"))),
                            Some(b) => Ok(Mode::Single { datetime: d.to_owned(), absolute: b }),
                        },
                    }
                }
            },
        },
    }
}

fn get_window_core(v: &toml::Value) -> (r: Result<(String, String), ParseIssue>)
    requires
        toml_model(*v) is Table,
    ensures
        match r {
            Ok(p) => file_window_core(node_table(toml_model(*v))) == Ok::<_, ParseIssueV>(
                (p.0@, p.1@),
            ),
            Err(e) => file_window_core(node_table(toml_model(*v))) == Err::<
                (Seq<char>, Seq<char>),
                _,
            >(e@),
        },
{
    match toml_get(v, "datetime_start") {
        None => Err(ParseIssue::MissingKey(String::from_str("datetime_start"))),
        Some(x) => match toml_as_str(x) {
            None => Err(ParseIssue::WrongType(String::from_str("datetime_start"))),
            Some(d) => {
                if !check_datetime(d) {
                    Err(ParseIssue::InvalidDatetime(d.to_owned()))
                } else {
                    match toml_get(v, "duration") {
                        None => Err(ParseIssue::MissingKey(String::from_str("duration"))),
                        Some(y) => match toml_as_str(y) {
                            None => Err(ParseIssue::WrongType(String::from_str("duration"))),
                            Some(u) => {
                                if !check_duration(u) {
                                    Err(ParseIssue::InvalidDuration(u.to_owned()))
                                } else {
                                    Ok((d.to_owned(), u.to_owned()))
                                }
                            },
                        },
                    }
                }
            },
        },
    }
}

fn get_window(v: &toml::Value) -> (r: Result<Mode, ParseIssue>)
    requires
        toml_model(*v) is Table,
    ensures
        match r {
            Ok(md) => file_window(node_table(toml_model(*v))) == Ok::<_, ParseIssueV>(md@),
            Err(e) => file_window(node_table(toml_model(*v))) == Err::<ModeV, _>(e@),
        },
{
    match get_window_core(v) {
        Err(e) => Err(e),
        Ok(p) => {
            let (d, u) = p;
            match toml_get(v, "absolute") {
                None => Ok(Mode::Window { datetime_start: d, duration: u, absolute: false }),
                Some(a) => match toml_as_bool(a) {
                    None => Err(ParseIssue::WrongType(String::from_str("absolute"))),
                    Some(b) => Ok(Mode::Window { datetime_start: d, duration: u, absolute: b }),
                },
            }
        },
    }
}

fn get_wt(v: &toml::Value) -> (r: Result<Mode, ParseIssue>)
    requires
        toml_model(*v) is Table,
    ensures
        match r {
            Ok(md) => file_wt(node_table(toml_model(*v))) == Ok::<_, ParseIssueV>(md@),
            Err(e) => file_wt(node_table(toml_model(*v))) == Err::<ModeV, _>(e@),
        },
{
    match get_window_core(v) {
        Err(e) => Err(e),
        Ok(p) => Ok(Mode::WindowTransformed { datetime_start: p.0, duration: p.1 }),
    }
}

fn get_mode(v: &toml::Value) -> (r: Result<Mode, ParseIssue>)
    requires
        toml_model(*v) is Table,
    ensures
        match r {
            Ok(md) => file_mode(node_table(toml_model(*v))) == Ok::<_, ParseIssueV>(md@),
            Err(e) => file_mode(node_table(toml_model(*v))) == Err::<ModeV, _>(e@),
        },
{
    match toml_get(v, "command") {
        None => Err(ParseIssue::MissingKey(String::from_str("command"))),
        Some(c) => {
            if !toml_is_table(c) {
                Err(ParseIssue::WrongType(String::from_str("command")))
            } else {
                let sv = toml_get(c, "single");
                let wv = toml_get(c, "window");
                let tv = toml_get(c, "window_transformed");
                if (sv.is_some() && wv.is_some()) || (sv.is_some() && tv.is_some()) || (
                wv.is_some() && tv.is_some()) {
                    Err(ParseIssue::AmbiguousMode)
                } else {
                    match sv {
                        Some(s) => {
                            if !toml_is_table(s) {
                                Err(ParseIssue::WrongType(String::from_str("single")))
                            } else {
                                get_single(s)
                            }
                        },
                        None => match wv {
                            Some(w) => {
                                if !toml_is_table(w) {
                                    Err(ParseIssue::WrongType(String::from_str("window")))
                                } else {
                                    get_window(w)
                                }
                            },
                            None => match tv {
                                Some(t) => {
                                    if !toml_is_table(t) {
                                        Err(
                                            ParseIssue::WrongType(
                                                String::from_str("window_transformed"),
                                            ),
                                        )
                                    } else {
                                        get_wt(t)
                                    }
                                },
                                None => Err(ParseIssue::NoModeGiven),
                            },
                        },
                    }
                }
            }
        },
    }
}

fn build_from_value(v: &toml::Value) -> (r: Result<Config, ParseIssue>)
    ensures
        match r {
            Ok(c) => spec_file_candidate(toml_model(*v)) == Ok::<_, ParseIssueV>(c@),
            Err(e) => spec_file_candidate(toml_model(*v)) == Err::<ConfigV, _>(e@),
        },
{
    if !toml_is_table(v) {
        return Err(ParseIssue::WrongType(String::from_str("document")));
    }
    let inputs = match get_inputs(v) {
        Err(e) => {
            return Err(e);
        },
        Ok(x) => x,
    };
    let model_path = match get_model(v) {
        Err(e) => {
            return Err(e);
        },
        Ok(x) => x,
    };
    let output_path = match get_output(v) {
        Err(e) => {
            return Err(e);
        },
        Ok(x) => x,
    };
    let batch_size = match get_batch(v) {
        Err(e) => {
            return Err(e);
        },
        Ok(x) => x,
    };
    let mode = match get_mode(v) {
        Err(e) => {
            return Err(e);
        },
        Ok(x) => x,
    };
    Ok(Config { inputs, model_path, output_path, batch_size, mode })
}

/// The file candidate builder: checks `text` against the schema, all or
/// nothing.
pub fn build_file_candidate(text: &str) -> (r: Result<Config, ParseIssue>)
    ensures
        match r {
            Ok(c) => spec_parse_file_text(text@) == Ok::<_, ParseIssueV>(c@),
            Err(e) => spec_parse_file_text(text@) == Err::<ConfigV, _>(e@),
        },
{
    match toml_parse(text) {
        Err(m) => Err(ParseIssue::TomlSyntax(m)),
        Ok(v) => build_from_value(&v),
    }
}

} // verus!
