//! The shape of a resolved configuration: a fixed set of top-level fields
//! plus exactly one operation mode, together with the validity rules for
//! timestamps, time spans and batch sizes.

use vstd::prelude::*;

verus! {

/// The operation mode of the tool: exactly one of three mutually exclusive
/// variants, each with its own fields.
#[derive(Debug, Clone, PartialEq)]
pub enum Mode {
    Single { datetime: String, absolute: bool },
    Window { datetime_start: String, duration: String, absolute: bool },
    WindowTransformed { datetime_start: String, duration: String },
}

/// The mathematical model of a [`Mode`].
pub enum ModeV {
    Single { datetime: Seq<char>, absolute: bool },
    Window { datetime_start: Seq<char>, duration: Seq<char>, absolute: bool },
    WindowTransformed { datetime_start: Seq<char>, duration: Seq<char> },
}

impl View for Mode {
    type V = ModeV;

    open spec fn view(&self) -> ModeV {
        match self {
            Mode::Single { datetime, absolute } => ModeV::Single {
                datetime: datetime@,
                absolute: *absolute,
            },
            Mode::Window { datetime_start, duration, absolute } => ModeV::Window {
                datetime_start: datetime_start@,
                duration: duration@,
                absolute: *absolute,
            },
            Mode::WindowTransformed { datetime_start, duration } => ModeV::WindowTransformed {
                datetime_start: datetime_start@,
                duration: duration@,
            },
        }
    }
}

/// A fully resolved configuration. Every required field is concretely set
/// and exactly one mode variant is populated.
#[derive(Debug, Clone, PartialEq)]
pub struct Config {
    /// Glob-style path patterns; at least one entry.
    pub inputs: Vec<String>,
    /// Path of the model file; required.
    pub model_path: String,
    /// Optional output path.
    pub output_path: Option<String>,
    /// Positive batch size; defaults to 1024 where no source set it.
    pub batch_size: u64,
    /// The chosen operation mode.
    pub mode: Mode,
}

/// The mathematical model of a [`Config`].
pub struct ConfigV {
    pub inputs: Seq<Seq<char>>,
    pub model_path: Seq<char>,
    pub output_path: Option<Seq<char>>,
    pub batch_size: u64,
    pub mode: ModeV,
}

impl View for Config {
    type V = ConfigV;

    open spec fn view(&self) -> ConfigV {
        ConfigV {
            inputs: self.inputs.deep_view(),
            model_path: self.model_path@,
            output_path: self.output_path.deep_view(),
            batch_size: self.batch_size,
            mode: self.mode@,
        }
    }
}

/// The batch size used when neither source names one.
pub const DEFAULT_BATCH_SIZE: u64 = 1024;

pub open spec fn is_digit(c: char) -> bool {
    48 <= c as u32 && c as u32 <= 57
}

pub open spec fn digit_val(c: char) -> nat {
    (c as u32 - 48) as nat
}

pub open spec fn all_digits(s: Seq<char>) -> bool {
    forall|i: int| 0 <= i < s.len() ==> is_digit(s[i])
}

/// The number written by a sequence of decimal digits, most significant first.
pub open spec fn digits_val(s: Seq<char>) -> nat
    decreases s.len(),
{
    if s.len() == 0 {
        0
    } else {
        digits_val(s.drop_last()) * 10 + digit_val(s.last())
    }
}

/// A well-formed batch size on the command line: a decimal number between 1
/// and `u64::MAX`.
pub open spec fn valid_batch(s: Seq<char>) -> bool {
    &&& s.len() > 0
    &&& all_digits(s)
    &&& 1 <= digits_val(s) <= u64::MAX
}

/// The fixed timestamp pattern: `YYYY-MM-DD-HH-MM-SS`, that is 19 characters,
/// digits everywhere but a dash at positions 4, 7, 10, 13 and 16.
pub open spec fn valid_datetime(s: Seq<char>) -> bool {
    &&& s.len() == 19
    &&& forall|i: int|
        0 <= i < 19 ==> (if i == 4 || i == 7 || i == 10 || i == 13 || i == 16 {
            s[i] == '-'
        } else {
            is_digit(s[i])
        })
}

/// A relative time span: one or more digits followed by one unit letter
/// (`s`, `m`, `h` or `d`), as in `4h` or `30m`.
pub open spec fn valid_duration(s: Seq<char>) -> bool {
    &&& s.len() >= 2
    &&& forall|i: int| 0 <= i < s.len() - 1 ==> is_digit(s[i])
    &&& (s.last() == 's' || s.last() == 'm' || s.last() == 'h' || s.last() == 'd')
}

/// Validity of the fields of one mode variant.
pub open spec fn mode_wf(m: ModeV) -> bool {
    match m {
        ModeV::Single { datetime, .. } => valid_datetime(datetime),
        ModeV::Window { datetime_start, duration, .. } => valid_datetime(datetime_start)
            && valid_duration(duration),
        ModeV::WindowTransformed { datetime_start, duration } => valid_datetime(datetime_start)
            && valid_duration(duration),
    }
}

/// The invariant of every resolved configuration: a non-empty input list, a
/// positive batch size, and a fully valid mode.
pub open spec fn config_wf(c: ConfigV) -> bool {
    &&& c.inputs.len() > 0
    &&& c.batch_size > 0
    &&& mode_wf(c.mode)
}

/// Whether `s` matches the fixed timestamp pattern.
pub fn check_datetime(s: &str) -> (r: bool)
    ensures
        r == valid_datetime(s@),
{
    let n = s.unicode_len();
    if n != 19 {
        return false;
    }
    let mut i: usize = 0;
    while i < 19
        invariant
            0 <= i <= 19,
            s@.len() == 19,
            forall|j: int|
                0 <= j < i ==> (if j == 4 || j == 7 || j == 10 || j == 13 || j == 16 {
                    s@[j] == '-'
                } else {
                    is_digit(s@[j])
                }),
        decreases 19 - i,
    {
        let c = s.get_char(i);
        let ok = if i == 4 || i == 7 || i == 10 || i == 13 || i == 16 {
            c == '-'
        } else {
            48 <= c as u32 && c as u32 <= 57
        };
        if !ok {
            return false;
        }
        i += 1;
    }
    true
}

/// Whether `s` matches the relative time span grammar.
pub fn check_duration(s: &str) -> (r: bool)
    ensures
        r == valid_duration(s@),
{
    let n = s.unicode_len();
    if n < 2 {
        return false;
    }
    let mut i: usize = 0;
    while i < n - 1
        invariant
            0 <= i <= n - 1,
            n >= 2,
            n == s@.len(),
            forall|j: int| 0 <= j < i ==> is_digit(s@[j]),
        decreases n - 1 - i,
    {
        let c = s.get_char(i);
        if !(48 <= c as u32 && c as u32 <= 57) {
            return false;
        }
        i += 1;
    }
    let last = s.get_char(n - 1);
    last == 's' || last == 'm' || last == 'h' || last == 'd'
}

proof fn lemma_digits_val_prefix_grows(s: Seq<char>, i: int)
    requires
        0 <= i <= s.len(),
    ensures
        digits_val(s.take(i)) <= digits_val(s),
    decreases s.len() - i,
{
    if i == s.len() {
        assert(s.take(i) =~= s);
    } else {
        assert(s.take(i + 1).drop_last() =~= s.take(i));
        assert(digits_val(s.take(i + 1)) == digits_val(s.take(i)) * 10 + digit_val(
            s.take(i + 1).last(),
        ));
        lemma_digits_val_prefix_grows(s, i + 1);
    }
}

/// Reads a decimal number, returning it exactly when `s` is a non-empty
/// digit string whose value fits in a `u64`.
pub fn parse_u64(s: &str) -> (r: Option<u64>)
    ensures
        (r is Some) == (s@.len() > 0 && all_digits(s@) && digits_val(s@) <= u64::MAX),
        r matches Some(v) ==> v == digits_val(s@),
{
    let n = s.unicode_len();
    if n == 0 {
        return None;
    }
    let mut i: usize = 0;
    let mut acc: u64 = 0;
    while i < n
        invariant
            0 <= i <= n,
            n == s@.len(),
            forall|j: int| 0 <= j < i ==> is_digit(s@[j]),
            acc == digits_val(s@.take(i as int)),
        decreases n - i,
    {
        let c = s.get_char(i);
        if !(48 <= c as u32 && c as u32 <= 57) {
            return None;
        }
        let d: u64 = (c as u32 - 48) as u64;
        if acc > (u64::MAX - d) / 10 {
            proof {
                assert(s@.take(i as int + 1).drop_last() =~= s@.take(i as int));
                assert(s@.take(i as int + 1).last() == s@[i as int]);
                assert(digits_val(s@.take(i as int + 1)) == acc * 10 + digit_val(s@[i as int]));
                assert(acc * 10 + d > u64::MAX) by (nonlinear_arith)
                    requires
                        acc > (u64::MAX - d) / 10,
                        d <= 9,
                ;
                lemma_digits_val_prefix_grows(s@, i as int + 1);
            }
            return None;
        }
        proof {
            assert(acc * 10 + d <= u64::MAX) by (nonlinear_arith)
                requires
                    acc <= (u64::MAX - d) / 10,
                    d <= 9,
            ;
            assert(s@.take(i as int + 1).drop_last() =~= s@.take(i as int));
            assert(s@.take(i as int + 1).last() == s@[i as int]);
        }
        acc = acc * 10 + d;
        i += 1;
    }
    proof {
        assert(s@.take(n as int) =~= s@);
    }
    Some(acc)
}

} // verus!
