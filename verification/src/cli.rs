//! Parsing of the command line's log level option.

use vstd::prelude::*;

verus! {

/// The filter levels of the `slog` logging framework: `Off`, which logs
/// nothing, then `Critical` to `Trace`, which log that level and every more
/// severe one.
#[derive(Clone, Copy, Debug, PartialEq, Eq, Structural)]
pub enum SlogLevel {
    /// Log nothing.
    Off,
    /// Critical.
    Critical,
    /// Error.
    Error,
    /// Warning.
    Warning,
    /// Info.
    Info,
    /// Debug.
    Debug,
    /// Trace.
    Trace,
}

/// The error of a log level option that names no level.
#[derive(Clone, Copy, Debug, PartialEq, Eq, Structural)]
pub struct ParseLevelError;

impl ParseLevelError {
    /// Describes the error.
    pub fn description(&self) -> (r: &'static str)
        ensures
            r@ == "invalid log level. [Off, Critical, Error, Warning, Info, Debug, Trace]"@,
    {
        "invalid log level. [Off, Critical, Error, Warning, Info, Debug, Trace]"
    }

    /// The text of the error as it is displayed: its description.
    pub fn to_string(&self) -> (r: String)
        ensures
            r@ == "invalid log level. [Off, Critical, Error, Warning, Info, Debug, Trace]"@,
    {
        String::from_str(self.description())
    }
}

/// The character `c` equals the upper-case ASCII character `upper` when
/// ASCII case is ignored.
pub open spec fn matches_ignoring_case(c: char, upper: char) -> bool {
    c == upper || ('A' <= upper <= 'Z' && c as int == upper as int + 32)
}

/// `s` is a non-empty prefix of the upper-case ASCII name `name`, ASCII case
/// ignored.
pub open spec fn is_name_prefix(s: Seq<char>, name: Seq<char>) -> bool {
    &&& 0 < s.len() <= name.len()
    &&& forall|i: int| 0 <= i < s.len() ==> matches_ignoring_case(#[trigger] s[i], name[i])
}

/// The full names of the filter levels in `slog`'s order, from `Off` to
/// `Trace`.
pub open spec fn level_names() -> Seq<Seq<char>> {
    seq![
        seq!['O', 'F', 'F'],
        seq!['C', 'R', 'I', 'T', 'I', 'C', 'A', 'L'],
        seq!['E', 'R', 'R', 'O', 'R'],
        seq!['W', 'A', 'R', 'N', 'I', 'N', 'G'],
        seq!['I', 'N', 'F', 'O'],
        seq!['D', 'E', 'B', 'U', 'G'],
        seq!['T', 'R', 'A', 'C', 'E'],
    ]
}

/// The short names of the filter levels in `slog`'s order.
pub open spec fn level_short_names() -> Seq<Seq<char>> {
    seq![
        seq!['O', 'F', 'F'],
        seq!['C', 'R', 'I', 'T'],
        seq!['E', 'R', 'R', 'O'],
        seq!['W', 'A', 'R', 'N'],
        seq!['I', 'N', 'F', 'O'],
        seq!['D', 'E', 'B', 'G'],
        seq!['T', 'R', 'C', 'E'],
    ]
}

/// The position of the first of `names`, from position `from` on, of which
/// `s` is a prefix.
pub open spec fn first_prefix_match(s: Seq<char>, names: Seq<Seq<char>>, from: nat) -> Option<nat>
    decreases names.len() - from,
{
    if from >= names.len() {
        None
    } else if is_name_prefix(s, names[from as int]) {
        Some(from)
    } else {
        first_prefix_match(s, names, from + 1)
    }
}

/// The filter level at a position of `slog`'s order: 0 is `Off`, 1 to 6 are
/// `Critical` to `Trace`.
pub open spec fn level_at(index: nat) -> SlogLevel {
    if index == 0 {
        SlogLevel::Off
    } else if index == 1 {
        SlogLevel::Critical
    } else if index == 2 {
        SlogLevel::Error
    } else if index == 3 {
        SlogLevel::Warning
    } else if index == 4 {
        SlogLevel::Info
    } else if index == 5 {
        SlogLevel::Debug
    } else {
        SlogLevel::Trace
    }
}

/// The filter level that `slog` reads from a level name: the first full
/// name of which the text is a non-empty prefix, ASCII case ignored, else
/// the first such short name, else none.
pub open spec fn level_named(name: Seq<char>) -> Option<SlogLevel> {
    match first_prefix_match(name, level_names(), 0) {
        Some(i) => Some(level_at(i)),
        None => match first_prefix_match(name, level_short_names(), 0) {
            Some(i) => Some(level_at(i)),
            None => None,
        },
    }
}

/// The value of a string of decimal digits.
pub open spec fn digits_value(digits: Seq<char>) -> int
    decreases digits.len(),
{
    if digits.len() == 0 {
        0
    } else {
        digits_value(digits.drop_last()) * 10 + (digits.last() as int - '0' as int)
    }
}

/// The text without its leading `+`, if it has one.
pub open spec fn sign_stripped(text: Seq<char>) -> Seq<char> {
    if text.len() > 0 && text[0] == '+' {
        text.drop_first()
    } else {
        text
    }
}

/// Every character of the text is a decimal digit.
pub open spec fn all_digits(s: Seq<char>) -> bool {
    forall|i: int| 0 <= i < s.len() ==> '0' <= #[trigger] s[i] <= '9'
}

/// The number that `<usize as FromStr>::from_str` reads from a text: an
/// optional `+` followed by one or more decimal digits, whose value fits a
/// `usize`; any other text is an error.
pub open spec fn parsed_usize(text: Seq<char>) -> Option<usize> {
    let digits = sign_stripped(text);
    if digits.len() > 0 && all_digits(digits) && digits_value(digits) <= usize::MAX {
        Some(digits_value(digits) as usize)
    } else {
        None
    }
}

/// The level of the given number in `slog`'s numbering of message levels:
/// 1 (critical) to 6 (trace); 0 and larger numbers name none.
pub open spec fn level_numbered(u: usize) -> Option<SlogLevel> {
    match u {
        1 => Some(SlogLevel::Critical),
        2 => Some(SlogLevel::Error),
        3 => Some(SlogLevel::Warning),
        4 => Some(SlogLevel::Info),
        5 => Some(SlogLevel::Debug),
        6 => Some(SlogLevel::Trace),
        _ => None,
    }
}

/// Reads a filter level name as `slog` does (`<slog::FilterLevel as
/// FromStr>::from_str`): the text must be a non-empty prefix, ASCII case
/// ignored, of a full level name ("OFF", "CRITICAL", ..., "TRACE"), the
/// first such in that order, or else of a short one ("OFF", "CRIT", ...,
/// "TRCE").
#[verifier::external_body]
fn slog_level_from_str(name: &str) -> (r: Option<SlogLevel>)
    ensures
        r == level_named(name@),
{
    match <slog::FilterLevel as std::str::FromStr>::from_str(name) {
        Ok(slog::FilterLevel::Off) => Some(SlogLevel::Off),
        Ok(slog::FilterLevel::Critical) => Some(SlogLevel::Critical),
        Ok(slog::FilterLevel::Error) => Some(SlogLevel::Error),
        Ok(slog::FilterLevel::Warning) => Some(SlogLevel::Warning),
        Ok(slog::FilterLevel::Info) => Some(SlogLevel::Info),
        Ok(slog::FilterLevel::Debug) => Some(SlogLevel::Debug),
        Ok(slog::FilterLevel::Trace) => Some(SlogLevel::Trace),
        Err(_) => None,
    }
}

/// The message level of a number in `slog`'s numbering
/// (`slog::Level::from_usize`): 1 to 6 name the levels from critical to
/// trace; 0 and other numbers name none.
#[verifier::external_body]
fn slog_level_from_usize(u: usize) -> (r: Option<SlogLevel>)
    ensures
        r == level_numbered(u),
{
    match slog::Level::from_usize(u) {
        Some(slog::Level::Critical) => Some(SlogLevel::Critical),
        Some(slog::Level::Error) => Some(SlogLevel::Error),
        Some(slog::Level::Warning) => Some(SlogLevel::Warning),
        Some(slog::Level::Info) => Some(SlogLevel::Info),
        Some(slog::Level::Debug) => Some(SlogLevel::Debug),
        Some(slog::Level::Trace) => Some(SlogLevel::Trace),
        None => None,
    }
}

/// The value of a string of digits is at least that of each of its
/// prefixes.
proof fn lemma_digits_value_prefix(s: Seq<char>, k: int)
    requires
        0 <= k <= s.len(),
        all_digits(s),
    ensures
        digits_value(s.take(k)) <= digits_value(s),
    decreases s.len(),
{
    if k < s.len() {
        lemma_digits_value_prefix(s.drop_last(), k);
        assert(s.drop_last().take(k) =~= s.take(k));
        assert(digits_value(s.drop_last()) >= 0) by {
            lemma_digits_value_nonnegative(s.drop_last());
        }
    } else {
        assert(s.take(k) =~= s);
    }
}

/// The value of a string of digits is not negative.
proof fn lemma_digits_value_nonnegative(s: Seq<char>)
    requires
        all_digits(s),
    ensures
        digits_value(s) >= 0,
    decreases s.len(),
{
    if s.len() > 0 {
        lemma_digits_value_nonnegative(s.drop_last());
    }
}

/// The value of the first `k + 1` digits, from that of the first `k`.
proof fn lemma_digits_value_step(s: Seq<char>, k: int)
    requires
        0 <= k < s.len(),
    ensures
        digits_value(s.take(k + 1)) == digits_value(s.take(k)) * 10 + (s[k] as int - '0' as int),
{
    assert(s.take(k + 1).drop_last() =~= s.take(k));
}

/// Reads a decimal number as `<usize as FromStr>::from_str` does: an
/// optional `+` and then one or more decimal digits only, whose value must
/// fit a `usize`.
fn usize_from_str(text: &str) -> (r: Option<usize>)
    ensures
        r == parsed_usize(text@),
{
    let ghost chars = text@;
    let ghost digits = sign_stripped(chars);
    if !text.is_ascii() {
        proof {
            let j = choose|j: int| 0 <= j < chars.len() && !('\0' <= #[trigger] chars[j] <= '\u{7f}');
            if chars.len() > 0 && chars[0] == '+' {
                assert(j != 0);
                assert(digits[j - 1] == chars[j]);
                assert(!('0' <= digits[j - 1] <= '9'));
            } else {
                assert(!('0' <= digits[j] <= '9'));
            }
            assert(!all_digits(digits));
        }
        return None;
    }
    let bytes = text.as_bytes();
    proof {
        vstd::string::is_ascii_spec_bytes(text);
        assert(bytes@ =~= Seq::new(chars.len(), |i: int| chars[i] as u8));
    }
    let n = bytes.len();
    let mut start: usize = 0;
    if n > 0 && bytes[0] == 43u8 {
        start = 1;
    }
    assert(start == 1 <==> (chars.len() > 0 && chars[0] == '+'));
    assert(digits.len() == n - start);
    assert(forall|k: int| 0 <= k < digits.len() ==> #[trigger] digits[k] == chars[start + k]);
    if start >= n {
        return None;
    }
    let mut value: usize = 0;
    let mut i: usize = start;
    while i < n
        invariant
            start <= i <= n,
            start <= 1,
            n == bytes@.len(),
            n == chars.len(),
            digits.len() == n - start,
            forall|k: int| 0 <= k < digits.len() ==> #[trigger] digits[k] == chars[start + k],
            forall|k: int| 0 <= k < n ==> #[trigger] bytes@[k] == chars[k] as u8,
            forall|k: int| 0 <= k < n ==> '\0' <= #[trigger] chars[k] <= '\u{7f}',
            forall|k: int| 0 <= k < i - start ==> '0' <= #[trigger] digits[k] <= '9',
            value == digits_value(digits.take(i - start)),
            digits == sign_stripped(chars),
            chars == text@,
        decreases n - i,
    {
        let b = bytes[i];
        let ghost k = i - start;
        assert(digits[k] == chars[i as int]);
        if b < 48u8 || b > 57u8 {
            assert(!('0' <= digits[k] <= '9'));
            assert(!all_digits(digits));
            return None;
        }
        proof {
            lemma_digits_value_step(digits, k);
        }
        let d: usize = (b - 48u8) as usize;
        assert(d == digits[k] as int - '0' as int);
        match value.checked_mul(10) {
            Some(tens) => match tens.checked_add(d) {
                Some(next) => {
                    value = next;
                },
                None => {
                    proof {
                        if all_digits(digits) {
                            lemma_digits_value_prefix(digits, k + 1);
                        }
                    }
                    return None;
                },
            },
            None => {
                proof {
                    if all_digits(digits) {
                        lemma_digits_value_prefix(digits, k + 1);
                    }
                }
                return None;
            },
        }
        i = i + 1;
    }
    assert(digits.take(n - start) =~= digits);
    Some(value)
}

/// What `parse_filterlevel` makes of an option: the level it names, else
/// the level of the number it spells, else an error.
pub open spec fn spec_parse_filterlevel(arg: Seq<char>) -> Result<SlogLevel, ParseLevelError> {
    match level_named(arg) {
        Some(level) => Ok(level),
        None => match parsed_usize(arg) {
            Some(u) => match level_numbered(u) {
                Some(level) => Ok(level),
                None => Err(ParseLevelError),
            },
            None => Err(ParseLevelError),
        },
    }
}

/// Parses the log level option: a level name as `slog` reads it ("Off"
/// among them), or else a number from 1 (critical) to 6 (trace).
pub fn parse_filterlevel(arg: &str) -> (r: Result<SlogLevel, ParseLevelError>)
    ensures
        r == spec_parse_filterlevel(arg@),
        level_named(arg@) matches Some(level) ==> r == Ok::<SlogLevel, ParseLevelError>(level),
        level_named(arg@) is None && parsed_usize(arg@) is None ==> r == Err::<
            SlogLevel,
            ParseLevelError,
        >(ParseLevelError),
        level_named(arg@) is None ==> (parsed_usize(arg@) matches Some(u) ==> (if 1 <= u <= 6 {
            r == Ok::<SlogLevel, ParseLevelError>(level_at(u as nat))
        } else {
            r == Err::<SlogLevel, ParseLevelError>(ParseLevelError)
        })),
{
    match slog_level_from_str(arg) {
        Some(level) => Ok(level),
        None => match usize_from_str(arg) {
            Some(u) => match slog_level_from_usize(u) {
                Some(level) => Ok(level),
                None => Err(ParseLevelError),
            },
            None => Err(ParseLevelError),
        },
    }
}

/// A number is read as a level exactly when it is 1 to 6, and then as the
/// level at that position of `slog`'s order (the order of the level names:
/// 1 critical, 2 error, 3 warning, 4 info, 5 debug, 6 trace); no number
/// reads as `Off`, and the levels of distinct numbers differ.
pub proof fn law_level_numbering(u: usize, v: usize)
    ensures
        level_numbered(u) is Some <==> 1 <= u <= 6,
        1 <= u <= 6 ==> level_numbered(u) == Some(level_at(u as nat)),
        level_numbered(u) != Some(SlogLevel::Off),
        level_numbered(u) is Some && level_numbered(u) == level_numbered(v) ==> u == v,
{
}

/// Each full and each short level name reads as its own level.
pub proof fn law_level_names_read_back(i: int)
    requires
        0 <= i < 7,
    ensures
        level_named(level_names()[i]) == Some(level_at(i as nat)),
        level_named(level_short_names()[i]) == Some(level_at(i as nat)),
{
    reveal_with_fuel(first_prefix_match, 8);
    let full = level_names();
    let short = level_short_names();
    assert(is_name_prefix(full[i], full[i]));
    assert(is_name_prefix(short[i], short[i]));
}

/// An option that names no level but spells a number u parses to the level
/// at position u of `slog`'s order (that of the level names) when u is 1 to
/// 6, and to an error otherwise; an option that names a level parses to it.
pub proof fn law_option_numbers(arg: Seq<char>)
    ensures
        level_named(arg) matches Some(level) ==> spec_parse_filterlevel(arg) == Ok::<
            SlogLevel,
            ParseLevelError,
        >(level),
        level_named(arg) is None ==> (parsed_usize(arg) matches Some(u) ==> (if 1 <= u <= 6 {
            spec_parse_filterlevel(arg) == Ok::<SlogLevel, ParseLevelError>(level_at(u as nat))
        } else {
            spec_parse_filterlevel(arg) == Err::<SlogLevel, ParseLevelError>(ParseLevelError)
        })),
{
}

} // verus!
