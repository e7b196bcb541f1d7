//! How long a kenneling lasts: reading the length that a moderator typed.

use vstd::prelude::*;
use crate::ids::digit_of;
use crate::ids::digit_value;
use crate::ids::is_decimal_digit;
use crate::text::chars_of;

verus! {

/// Why a requested length was turned down.
#[derive(Clone, Copy, Debug, PartialEq, Eq, Structural)]
pub enum DurationError {
    /// The text is not a duration.
    InvalidFormat,
    /// The duration is shorter than one second.
    TooShort,
}

/// The shortest kenneling, in seconds.
pub const MIN_KENNEL_SECS: u64 = 1;

/// What `humantime::parse_duration` makes of `text`: the whole seconds and the
/// nanoseconds beyond them, or `None` where it reports an error.
pub uninterp spec fn parsed_duration(text: Seq<char>) -> Option<(u64, u32)>;

/// The length in whole seconds that a parsed duration stands for.
pub open spec fn checked_duration(parsed: Option<(u64, u32)>) -> Result<u64, DurationError> {
    match parsed {
        None => Err(DurationError::InvalidFormat),
        Some((secs, nanos)) => if secs < MIN_KENNEL_SECS {
            Err(DurationError::TooShort)
        } else {
            Ok(secs)
        },
    }
}

/// Whether `c` is a character that the parser takes for part of a unit.
pub open spec fn is_unit_letter(c: char) -> bool {
    ('a' <= c && c <= 'z') || ('A' <= c && c <= 'Z') || c == 'µ'
}

/// The lesser of two numbers.
pub open spec fn at_most(number: nat, limit: nat) -> nat {
    if number <= limit {
        number
    } else {
        limit
    }
}

/// The seconds that one of a unit comes to, where the unit is a second or
/// longer, judged by the characters that its name begins with: a year for
/// `y`, a month for `M` and `mo`, a week for `w`, a day for `d`, an hour for
/// `h`, a minute for `m` and for `mi` unless an `l` follows, a second for
/// `s`. It is 1 for the units below the second, and 0 where no unit begins
/// so.
pub open spec fn unit_seconds(first: char, second: Option<char>, third: Option<char>) -> nat {
    if first == 'y' {
        31_557_600
    } else if first == 'M' || (first == 'm' && second == Some('o')) {
        2_630_016
    } else if first == 'w' {
        604_800
    } else if first == 'd' {
        86_400
    } else if first == 'h' {
        3_600
    } else if first == 'm' && (second is None || (second == Some('i') && third != Some('l'))) {
        60
    } else if first == 's' || first == 'n' || first == 'u' || first == 'µ' || (first == 'm' && (
        second == Some('s') || second == Some('i'))) {
        1
    } else {
        0
    }
}

/// How many of a unit make a second, where the unit is shorter than a
/// second, judged by the characters that its name begins with: a billion for
/// `n`, a million for `u` and `µ`, a thousand for `ms` and `mil`. It is 1
/// for every other unit.
pub open spec fn unit_parts(first: char, second: Option<char>, third: Option<char>) -> nat {
    if first == 'n' {
        1_000_000_000
    } else if first == 'u' || first == 'µ' {
        1_000_000
    } else if first == 'm' && (second == Some('s') || (second == Some('i') && third == Some('l'))) {
        1_000
    } else {
        1
    }
}

/// The seconds that `number` of a unit adds at most: the number in seconds,
/// and two more for what the nanoseconds may carry.
pub open spec fn span_seconds(
    number: nat,
    first: char,
    second: Option<char>,
    third: Option<char>,
) -> nat {
    number * unit_seconds(first, second, third) / unit_parts(first, second, third) + 2
}

/// What has been made of a text so far, read from the left as numbers and
/// the units behind them.
pub struct Reading {
    /// The seconds that the numbers with a unit behind them come to at most.
    pub total: nat,
    /// The number that is being read: the digits since the last unit, read
    /// as one number up to `u64::MAX`, beyond which the parser reads none;
    /// and one more where a fraction follows.
    pub number: nat,
    /// Whether the fraction of the number is being read.
    pub fraction: bool,
    /// The first three characters of the unit behind the number, as far as
    /// they are there.
    pub first: Option<char>,
    pub second: Option<char>,
    pub third: Option<char>,
}

/// The seconds of a reading once the unit that is being read is over.
pub open spec fn closed_total(reading: Reading) -> nat {
    match reading.first {
        Some(first) => reading.total + span_seconds(
            reading.number,
            first,
            reading.second,
            reading.third,
        ),
        None => reading.total,
    }
}

/// The reading after one more character.
///
/// A letter goes to the unit that is being read. Anything else ends a unit,
/// if one is being read, and starts a new number. A digit is written behind
/// the whole part of the number. A point starts the fraction, which counts
/// as one more of the unit whatever its digits are. What is neither letter
/// nor digit nor point is passed over.
pub open spec fn read_on(reading: Reading, c: char) -> Reading {
    if is_unit_letter(c) {
        if reading.first is None {
            Reading { first: Some(c), ..reading }
        } else if reading.second is None {
            Reading { second: Some(c), ..reading }
        } else if reading.third is None {
            Reading { third: Some(c), ..reading }
        } else {
            reading
        }
    } else {
        let number = if reading.first is Some {
            0
        } else {
            reading.number
        };
        let fraction = reading.first is None && reading.fraction;
        Reading {
            total: closed_total(reading),
            number: if fraction {
                number
            } else if c == '.' {
                at_most(number + 1, u64::MAX as nat)
            } else if is_decimal_digit(c) {
                at_most(number * 10 + digit_value(c), u64::MAX as nat)
            } else {
                number
            },
            fraction: fraction || c == '.',
            first: None,
            second: None,
            third: None,
        }
    }
}

/// The reading of a whole text.
pub open spec fn reading_of(text: Seq<char>) -> Reading
    decreases text.len(),
{
    if text.len() == 0 {
        Reading { total: 0, number: 0, fraction: false, first: None, second: None, third: None }
    } else {
        read_on(reading_of(text.drop_last()), text.last())
    }
}

/// The most seconds that `text` can come to: each of its numbers in the
/// unit behind it, and two seconds more for each.
pub open spec fn seconds_bound(text: Seq<char>) -> nat {
    closed_total(reading_of(text))
}

/// Whether `text` is handed to the parser: whether it stays below
/// `u64::MAX` seconds.
pub open spec fn within_parser_range(text: Seq<char>) -> bool {
    seconds_bound(text) < u64::MAX
}

/// The length in whole seconds that `text` asks for.
pub open spec fn kennel_length_of(text: Seq<char>) -> Result<u64, DurationError> {
    if within_parser_range(text) {
        checked_duration(parsed_duration(text))
    } else {
        Err(DurationError::InvalidFormat)
    }
}

/// Calls `humantime::parse_duration` and takes the `Duration` it returns apart
/// into whole seconds and nanoseconds; its error becomes `None`.
///
/// Not proved: that the result is `parsed_duration` of the text, which is to
/// say that the parser gives the same answer for the same text.
///
/// The parser adds up one span after the other in a `Duration`, and fails
/// to return where the sum stands at `u64::MAX` seconds and a full second of
/// nanoseconds is carried. A span is a number, whole or with a fraction, and
/// the unit behind it; the letters of the unit end the number, and the first
/// three of them tell the units apart. A span adds its whole part in
/// seconds, less than one of its unit for the fraction, and a second or two
/// for what the nanoseconds carry: no more than `span_seconds` says. Within
/// `within_parser_range` the sum stays below `u64::MAX` seconds.
#[verifier::external_body]
fn parse_duration_text(text: &str) -> (parsed: Option<(u64, u32)>)
    requires
        within_parser_range(text@),
    ensures
        parsed == parsed_duration(text@),
{
    match humantime::parse_duration(text) {
        Ok(duration) => Some((duration.as_secs(), duration.subsec_nanos())),
        Err(_) => None,
    }
}

/// Whether `found` is the character `c`.
fn is_char(found: Option<char>, c: char) -> (is: bool)
    ensures
        is == (found == Some(c)),
{
    match found {
        Some(other) => other == c,
        None => false,
    }
}

/// The seconds that one of a unit comes to, and how many of the unit make a
/// second, judged by how the name of the unit begins.
pub fn scale_of_unit(first: char, second: Option<char>, third: Option<char>) -> (scale: (u64, u64))
    ensures
        scale.0 == unit_seconds(first, second, third),
        scale.1 == unit_parts(first, second, third),
        scale.0 <= 31_557_600,
        1 <= scale.1 <= 1_000_000_000,
{
    let milli = first == 'm' && (is_char(second, 's') || (is_char(second, 'i') && is_char(
        third,
        'l',
    )));
    if first == 'y' {
        (31_557_600, 1)
    } else if first == 'M' || (first == 'm' && is_char(second, 'o')) {
        (2_630_016, 1)
    } else if first == 'w' {
        (604_800, 1)
    } else if first == 'd' {
        (86_400, 1)
    } else if first == 'h' {
        (3_600, 1)
    } else if milli {
        (1, 1_000)
    } else if first == 'm' && (second.is_none() || is_char(second, 'i')) {
        (60, 1)
    } else if first == 's' {
        (1, 1)
    } else if first == 'n' {
        (1, 1_000_000_000)
    } else if first == 'u' || first == 'µ' {
        (1, 1_000_000)
    } else {
        (0, 1)
    }
}

/// The reading as the scan keeps it: the total stopped at `u64::MAX`.
struct Scan {
    total: u64,
    number: u64,
    fraction: bool,
    first: Option<char>,
    second: Option<char>,
    third: Option<char>,
}

impl Scan {
    /// Whether the scan keeps what `reading` holds.
    spec fn keeps(self, reading: Reading) -> bool {
        &&& self.total == at_most(reading.total, u64::MAX as nat)
        &&& self.number == reading.number
        &&& self.fraction == reading.fraction
        &&& self.first == reading.first
        &&& self.second == reading.second
        &&& self.third == reading.third
    }

    /// The total once the unit that is being read is over.
    fn closed(&self, Ghost(reading): Ghost<Reading>) -> (closed: u64)
        requires
            self.keeps(reading),
        ensures
            closed == at_most(closed_total(reading), u64::MAX as nat),
    {
        match self.first {
            None => self.total,
            Some(first) => {
                let (seconds, parts) = scale_of_unit(first, self.second, self.third);
                assert(self.number * seconds <= u64::MAX * 31_557_600) by (nonlinear_arith)
                    requires
                        self.number <= u64::MAX,
                        seconds <= 31_557_600,
                ;
                let span: u128 = self.number as u128 * seconds as u128 / parts as u128 + 2;
                let sum: u128 = self.total as u128 + span;
                if sum >= u64::MAX as u128 {
                    u64::MAX
                } else {
                    sum as u64
                }
            },
        }
    }

    /// Reads one more character.
    fn read(self, c: char, Ghost(reading): Ghost<Reading>) -> (after: Scan)
        requires
            self.keeps(reading),
        ensures
            after.keeps(read_on(reading, c)),
    {
        if ('a' <= c && c <= 'z') || ('A' <= c && c <= 'Z') || c == 'µ' {
            if self.first.is_none() {
                Scan { first: Some(c), ..self }
            } else if self.second.is_none() {
                Scan { second: Some(c), ..self }
            } else if self.third.is_none() {
                Scan { third: Some(c), ..self }
            } else {
                self
            }
        } else {
            let total = self.closed(Ghost(reading));
            let number = if self.first.is_some() {
                0
            } else {
                self.number
            };
            let fraction = self.first.is_none() && self.fraction;
            let number = if fraction {
                number
            } else if c == '.' {
                if number == u64::MAX {
                    number
                } else {
                    number + 1
                }
            } else {
                match digit_of(c) {
                    Some(digit) => if number > (u64::MAX - digit) / 10 {
                        u64::MAX
                    } else {
                        number * 10 + digit
                    },
                    None => number,
                }
            };
            Scan {
                total,
                number,
                fraction: fraction || c == '.',
                first: None,
                second: None,
                third: None,
            }
        }
    }
}

/// Whether `text` stays below `u64::MAX` seconds, so that the parser can be
/// handed it.
pub fn is_within_parser_range(text: &str) -> (within: bool)
    ensures
        within == within_parser_range(text@),
{
    let chars = chars_of(text);
    let mut scan = Scan {
        total: 0,
        number: 0,
        fraction: false,
        first: None,
        second: None,
        third: None,
    };
    let mut i: usize = 0;
    while i < chars.len()
        invariant
            i <= chars.len(),
            chars@ == text@,
            scan.keeps(reading_of(chars@.take(i as int))),
        decreases chars.len() - i,
    {
        assert(chars@.take(i + 1).drop_last() == chars@.take(i as int));
        scan = scan.read(chars[i], Ghost(reading_of(chars@.take(i as int))));
        i = i + 1;
    }
    assert(chars@.take(i as int) == chars@);
    scan.closed(Ghost(reading_of(chars@))) < u64::MAX
}

/// Reads the length of a kenneling from what a moderator typed, such as `3m`
/// or `1h 30m`: the whole seconds of the duration, which must come to one
/// second at least.
///
/// A text that could come to `u64::MAX` seconds or more is turned down as
/// `InvalidFormat` without being parsed.
pub fn parse_kennel_length(text: &str) -> (length: Result<u64, DurationError>)
    ensures
        length == kennel_length_of(text@),
{
    if is_within_parser_range(text) {
        check_duration(parse_duration_text(text))
    } else {
        Err(DurationError::InvalidFormat)
    }
}

/// Holds a parsed duration to the one-second floor and drops what lies
/// beyond its whole seconds.
pub fn check_duration(parsed: Option<(u64, u32)>) -> (length: Result<u64, DurationError>)
    ensures
        length == checked_duration(parsed),
{
    match parsed {
        None => Err(DurationError::InvalidFormat),
        Some((secs, _)) => if secs < MIN_KENNEL_SECS {
            Err(DurationError::TooShort)
        } else {
            Ok(secs)
        },
    }
}

} // verus!
