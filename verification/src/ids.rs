//! Identifiers of guilds, members, roles, channels and messages, and how they
//! are read back from the text that a row keeps them in.

use vstd::prelude::*;
use vstd::std_specs::convert::FromSpec;
use vstd::std_specs::convert::FromSpecImpl;
use crate::text::chars_of;
use crate::text::decimal;
use crate::text::digit_char;
use crate::text::push_decimal;
use crate::text::string_of;

verus! {

/// A guild: the community that kennels and kennelings belong to.
#[derive(Clone, Copy, Debug, PartialEq, Eq, Structural)]
pub struct GuildId(pub u64);

/// A member of a guild: the one kenneled, or the one who kenneled.
#[derive(Clone, Copy, Debug, PartialEq, Eq, Structural)]
pub struct UserId(pub u64);

/// A role: the mark that a kenneled member carries.
#[derive(Clone, Copy, Debug, PartialEq, Eq, Structural)]
pub struct RoleId(pub u64);

/// A channel that announcements are sent to.
#[derive(Clone, Copy, Debug, PartialEq, Eq, Structural)]
pub struct ChannelId(pub u64);

/// A message that was sent and may be edited later.
#[derive(Clone, Copy, Debug, PartialEq, Eq, Structural)]
pub struct MessageId(pub u64);

impl GuildId {
    /// The number behind the identifier.
    pub fn get(self) -> (id: u64)
        ensures
            id == self.0,
    {
        self.0
    }
}

impl UserId {
    /// The number behind the identifier.
    pub fn get(self) -> (id: u64)
        ensures
            id == self.0,
    {
        self.0
    }
}

impl RoleId {
    /// The number behind the identifier.
    pub fn get(self) -> (id: u64)
        ensures
            id == self.0,
    {
        self.0
    }
}

impl ChannelId {
    /// The number behind the identifier.
    pub fn get(self) -> (id: u64)
        ensures
            id == self.0,
    {
        self.0
    }
}

impl MessageId {
    /// The number behind the identifier.
    pub fn get(self) -> (id: u64)
        ensures
            id == self.0,
    {
        self.0
    }
}

impl From<u64> for GuildId {
    fn from(id: u64) -> (out: GuildId) {
        GuildId(id)
    }
}

impl FromSpecImpl<u64> for GuildId {
    open spec fn obeys_from_spec() -> bool {
        true
    }

    open spec fn from_spec(id: u64) -> GuildId {
        GuildId(id)
    }
}

impl From<u64> for UserId {
    fn from(id: u64) -> (out: UserId) {
        UserId(id)
    }
}

impl FromSpecImpl<u64> for UserId {
    open spec fn obeys_from_spec() -> bool {
        true
    }

    open spec fn from_spec(id: u64) -> UserId {
        UserId(id)
    }
}

impl From<u64> for RoleId {
    fn from(id: u64) -> (out: RoleId) {
        RoleId(id)
    }
}

impl FromSpecImpl<u64> for RoleId {
    open spec fn obeys_from_spec() -> bool {
        true
    }

    open spec fn from_spec(id: u64) -> RoleId {
        RoleId(id)
    }
}

impl From<u64> for ChannelId {
    fn from(id: u64) -> (out: ChannelId) {
        ChannelId(id)
    }
}

impl FromSpecImpl<u64> for ChannelId {
    open spec fn obeys_from_spec() -> bool {
        true
    }

    open spec fn from_spec(id: u64) -> ChannelId {
        ChannelId(id)
    }
}

impl From<u64> for MessageId {
    fn from(id: u64) -> (out: MessageId) {
        MessageId(id)
    }
}

impl FromSpecImpl<u64> for MessageId {
    open spec fn obeys_from_spec() -> bool {
        true
    }

    open spec fn from_spec(id: u64) -> MessageId {
        MessageId(id)
    }
}

/// Why a text is no identifier.
#[derive(Clone, Copy, Debug, PartialEq, Eq, Structural)]
pub enum ParseIdError {
    /// The text is empty.
    Empty,
    /// The text holds something other than decimal digits after an optional
    /// leading `+`, or no digit at all.
    InvalidDigit,
    /// The number does not fit in 64 bits.
    Overflow,
    /// The number is zero, which names nothing on the platform.
    Zero,
}

/// Whether `c` is one of `0` to `9`.
pub open spec fn is_decimal_digit(c: char) -> bool {
    '0' <= c && c <= '9'
}

/// The number that the digit `c` stands for.
pub open spec fn digit_value(c: char) -> nat {
    (c as nat - '0' as nat) as nat
}

/// The number that `digits` write down, the first digit counting most,
/// read from the left as far as it goes: the first character that is no
/// digit, or with which the number passes `u64::MAX`, ends the reading with
/// its error.
pub open spec fn parsed_digits(digits: Seq<char>) -> Result<u64, ParseIdError>
    decreases digits.len(),
{
    if digits.len() == 0 {
        Ok(0)
    } else {
        match parsed_digits(digits.drop_last()) {
            Err(error) => Err(error),
            Ok(before) => if !is_decimal_digit(digits.last()) {
                Err(ParseIdError::InvalidDigit)
            } else if before * 10 + digit_value(digits.last()) > u64::MAX {
                Err(ParseIdError::Overflow)
            } else {
                Ok((before * 10 + digit_value(digits.last())) as u64)
            },
        }
    }
}

/// `text` without the `+` that may lead it.
pub open spec fn unsigned_part(text: Seq<char>) -> Seq<char> {
    if text.len() > 0 && text[0] == '+' {
        text.skip(1)
    } else {
        text
    }
}

/// The number that `text` writes down: a decimal number up to `u64::MAX`,
/// which a `+` may lead.
pub open spec fn parsed_id(text: Seq<char>) -> Result<u64, ParseIdError> {
    if text.len() == 0 {
        Err(ParseIdError::Empty)
    } else if unsigned_part(text).len() == 0 {
        Err(ParseIdError::InvalidDigit)
    } else {
        parsed_digits(unsigned_part(text))
    }
}

/// The identifier of the platform that `text` writes down: a number that is
/// not zero.
pub open spec fn parsed_platform_id(text: Seq<char>) -> Result<u64, ParseIdError> {
    match parsed_id(text) {
        Ok(number) => if number == 0 {
            Err(ParseIdError::Zero)
        } else {
            Ok(number)
        },
        Err(error) => Err(error),
    }
}

/// The number that the digit `c` stands for, or `None` for any other
/// character.
pub fn digit_of(c: char) -> (digit: Option<u64>)
    ensures
        digit is Some == is_decimal_digit(c),
        digit matches Some(d) ==> d == digit_value(c) && d < 10,
{
    match c {
        '0' => Some(0),
        '1' => Some(1),
        '2' => Some(2),
        '3' => Some(3),
        '4' => Some(4),
        '5' => Some(5),
        '6' => Some(6),
        '7' => Some(7),
        '8' => Some(8),
        '9' => Some(9),
        _ => None,
    }
}

/// Reads an identifier of the platform from its decimal text: a number that
/// is not zero.
pub fn parse_platform_id(text: &str) -> (id: Result<u64, ParseIdError>)
    ensures
        id == parsed_platform_id(text@),
{
    match parse_id(text) {
        Ok(number) => if number == 0 {
            Err(ParseIdError::Zero)
        } else {
            Ok(number)
        },
        Err(error) => Err(error),
    }
}

/// Reads a number from its decimal text.
pub fn parse_id(text: &str) -> (id: Result<u64, ParseIdError>)
    ensures
        id == parsed_id(text@),
{
    let chars = chars_of(text);
    if chars.len() == 0 {
        return Err(ParseIdError::Empty);
    }
    let start: usize = if chars[0] == '+' {
        1
    } else {
        0
    };
    if start == chars.len() {
        return Err(ParseIdError::InvalidDigit);
    }
    let ghost digits = unsigned_part(chars@);
    let mut value: u64 = 0;
    let mut i: usize = start;
    while i < chars.len()
        invariant
            start <= i <= chars.len(),
            chars@ == text@,
            start < chars.len(),
            digits == unsigned_part(chars@),
            digits == chars@.skip(start as int),
            parsed_digits(digits.take(i - start)) == Ok::<u64, ParseIdError>(value),
        decreases chars.len() - i,
    {
        assert(digits.take(i - start + 1).drop_last() == digits.take(i - start));
        assert(digits.take(i - start + 1).last() == chars@[i as int]);
        let error = match digit_of(chars[i]) {
            None => Some(ParseIdError::InvalidDigit),
            Some(digit) => if value > (u64::MAX - digit) / 10 {
                Some(ParseIdError::Overflow)
            } else {
                value = value * 10 + digit;
                None
            },
        };
        if let Some(error) = error {
            proof {
                lemma_error_ends_the_reading(digits, i - start + 1);
            }
            return Err(error);
        }
        i = i + 1;
    }
    assert(digits.take(i - start) == digits);
    Ok(value)
}

/// An error that the reading has met stays its result, whatever follows.
pub proof fn lemma_error_ends_the_reading(digits: Seq<char>, n: int)
    requires
        0 <= n <= digits.len(),
        parsed_digits(digits.take(n)) is Err,
    ensures
        parsed_digits(digits) == parsed_digits(digits.take(n)),
    decreases digits.len() - n,
{
    if n < digits.len() {
        assert(digits.take(n + 1).drop_last() == digits.take(n));
        lemma_error_ends_the_reading(digits, n + 1);
    } else {
        assert(digits.take(n) == digits);
    }
}

/// Writes an identifier as the decimal text that `parse_id` reads.
pub fn id_text(id: u64) -> (text: String)
    ensures
        text@ == decimal(id as nat),
{
    let mut out: Vec<char> = Vec::new();
    push_decimal(&mut out, id as u128);
    assert(Seq::<char>::empty() + decimal(id as nat) == decimal(id as nat));
    string_of(&out)
}

/// A number written out in decimal is one digit at least, does not begin
/// with a `+`, and reads as the number.
pub proof fn lemma_decimal_reads_back(number: nat)
    requires
        number <= u64::MAX,
    ensures
        decimal(number).len() > 0,
        is_decimal_digit(decimal(number)[0]),
        parsed_digits(decimal(number)) == Ok::<u64, ParseIdError>(number as u64),
    decreases number,
{
    let last = number % 10;
    assert(digit_char(last) as nat == '0' as nat + last);
    assert(digit_value(digit_char(last)) == last);
    assert(decimal(number).last() == digit_char(last));
    if number >= 10 {
        lemma_decimal_reads_back(number / 10);
        assert(decimal(number).drop_last() == decimal(number / 10));
        assert(decimal(number)[0] == decimal(number / 10)[0]);
    } else {
        assert(decimal(number).drop_last() == Seq::<char>::empty());
        assert(parsed_digits(Seq::<char>::empty()) == Ok::<u64, ParseIdError>(0));
    }
}

/// Reads an identifier of any kind from its decimal text: every text that
/// reads as a number gives the identifier made from that number.
pub fn string_to_id<Id: From<u64>>(string: &str) -> (id: Result<Id, ParseIdError>)
    ensures
        match parsed_id(string@) {
            Ok(number) => id is Ok && (Id::obeys_from_spec() ==> id->Ok_0 == Id::from_spec(
                number,
            )),
            Err(error) => id == Err::<Id, ParseIdError>(error),
        },
{
    match parse_id(string) {
        Ok(number) => Ok(Id::from(number)),
        Err(error) => Err(error),
    }
}

} // verus!
