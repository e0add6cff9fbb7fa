//! Contract ids and their text form.

use super::api_error::{ApiError, ErrorKind};
use vstd::prelude::*;
use vstd::string::{StrSliceExecFns, StringExecFns};

verus! {

/// The number of characters of an id's text.
pub const UUID_TEXT_LENGTH: usize = 36;

/// The number of hex digits of an id's text.
pub const UUID_DIGITS: usize = 32;

/// The id of a contract: 128 bits, opaque to callers.
#[derive(Clone, Copy, Debug, PartialEq, Eq, Structural, PartialOrd, Ord, Hash)]
pub struct Uuid {
    value: u128,
}

impl View for Uuid {
    type V = u128;

    closed spec fn view(&self) -> u128 {
        self.value
    }
}

/// The value of a hex digit, of either case.
pub open spec fn hex_value(c: char) -> Option<int> {
    if c == '0' {
        Some(0)
    } else if c == '1' {
        Some(1)
    } else if c == '2' {
        Some(2)
    } else if c == '3' {
        Some(3)
    } else if c == '4' {
        Some(4)
    } else if c == '5' {
        Some(5)
    } else if c == '6' {
        Some(6)
    } else if c == '7' {
        Some(7)
    } else if c == '8' {
        Some(8)
    } else if c == '9' {
        Some(9)
    } else if c == 'a' || c == 'A' {
        Some(10)
    } else if c == 'b' || c == 'B' {
        Some(11)
    } else if c == 'c' || c == 'C' {
        Some(12)
    } else if c == 'd' || c == 'D' {
        Some(13)
    } else if c == 'e' || c == 'E' {
        Some(14)
    } else if c == 'f' || c == 'F' {
        Some(15)
    } else {
        None
    }
}

/// The lower-case hex digit of a value below 16.
pub open spec fn hex_char(digit: int) -> char {
    if digit == 0 {
        '0'
    } else if digit == 1 {
        '1'
    } else if digit == 2 {
        '2'
    } else if digit == 3 {
        '3'
    } else if digit == 4 {
        '4'
    } else if digit == 5 {
        '5'
    } else if digit == 6 {
        '6'
    } else if digit == 7 {
        '7'
    } else if digit == 8 {
        '8'
    } else if digit == 9 {
        '9'
    } else if digit == 10 {
        'a'
    } else if digit == 11 {
        'b'
    } else if digit == 12 {
        'c'
    } else if digit == 13 {
        'd'
    } else if digit == 14 {
        'e'
    } else {
        'f'
    }
}

/// Whether a hyphen stands at this place of an id's text.
pub open spec fn is_hyphen_place(place: int) -> bool {
    place == 8 || place == 13 || place == 18 || place == 23
}

/// The place in an id's text of its hex digit number `digit`, counted from 0.
pub open spec fn place_of_digit(digit: int) -> int {
    digit + (if digit >= 8 {
        1int
    } else {
        0
    }) + (if digit >= 12 {
        1int
    } else {
        0
    }) + (if digit >= 16 {
        1int
    } else {
        0
    }) + (if digit >= 20 {
        1int
    } else {
        0
    })
}

/// The number of the hex digit that stands at this place of an id's text.
pub open spec fn digit_of_place(place: int) -> int {
    place - (if place > 8 {
        1int
    } else {
        0
    }) - (if place > 13 {
        1int
    } else {
        0
    }) - (if place > 18 {
        1int
    } else {
        0
    }) - (if place > 23 {
        1int
    } else {
        0
    })
}

/// `value` without its `count` lowest hex digits.
pub open spec fn shifted(value: int, count: nat) -> int
    decreases count,
{
    if count == 0 {
        value
    } else {
        shifted(value / 16, (count - 1) as nat)
    }
}

/// The number that the hex digits spell, the first being the highest.
pub open spec fn value_of_digits(digits: Seq<int>) -> int
    decreases digits.len(),
{
    if digits.len() == 0 {
        0
    } else {
        value_of_digits(digits.drop_last()) * 16 + digits.last()
    }
}

/// The 32 hex digits of an id, the highest first.
pub open spec fn digits_of_value(value: u128) -> Seq<int> {
    Seq::new(UUID_DIGITS as nat, |digit: int| shifted(value as int, (31 - digit) as nat) % 16)
}

/// The text of an id: its 32 hex digits in lower case, in groups of 8, 4, 4,
/// 4 and 12 with a hyphen between two groups.
pub open spec fn uuid_text(value: u128) -> Seq<char> {
    Seq::new(
        UUID_TEXT_LENGTH as nat,
        |place: int|
            if is_hyphen_place(place) {
                '-'
            } else {
                hex_char(digits_of_value(value)[digit_of_place(place)])
            },
    )
}

/// Whether the text is that of an id: 36 characters, hyphens at their four
/// places and hex digits, of either case, at the others.
pub open spec fn is_uuid_text(text: Seq<char>) -> bool {
    &&& text.len() == UUID_TEXT_LENGTH
    &&& text[8] == '-'
    &&& text[13] == '-'
    &&& text[18] == '-'
    &&& text[23] == '-'
    &&& forall|digit: int|
        0 <= digit < UUID_DIGITS ==> hex_value(#[trigger] text[place_of_digit(digit)]) is Some
}

/// The hex digits of a text that is an id's.
pub open spec fn digits_of_text(text: Seq<char>) -> Seq<int> {
    Seq::new(UUID_DIGITS as nat, |digit: int| hex_value(text[place_of_digit(digit)])->0)
}

/// The id that the text spells; none where the text is malformed.
pub open spec fn parse_uuid(text: Seq<char>) -> Option<u128> {
    if is_uuid_text(text) {
        Some(value_of_digits(digits_of_text(text)) as u128)
    } else {
        None
    }
}

/// 16 to the power `exponent`.
pub open spec fn pow16(exponent: nat) -> int
    decreases exponent,
{
    if exponent == 0 {
        1
    } else {
        16 * pow16((exponent - 1) as nat)
    }
}

proof fn lemma_pow16_grows(low: nat, high: nat)
    requires
        low <= high,
    ensures
        0 < pow16(low) <= pow16(high),
    decreases high,
{
    if low < high {
        lemma_pow16_grows(low, (high - 1) as nat);
    } else if low > 0 {
        lemma_pow16_grows((low - 1) as nat, (high - 1) as nat);
    }
}

proof fn lemma_pow16_of_32()
    ensures
        pow16(32) == 0x1_0000_0000_0000_0000_0000_0000_0000_0000int,
{
    reveal_with_fuel(pow16, 33);
}

proof fn lemma_shifted_small(value: int, count: nat)
    requires
        0 <= value < pow16(count),
    ensures
        shifted(value, count) == 0,
    decreases count,
{
    if count > 0 {
        lemma_shifted_small(value / 16, (count - 1) as nat);
    }
}

proof fn lemma_shifted_step(value: int, count: nat)
    requires
        0 <= value,
    ensures
        shifted(value, count + 1) == shifted(value, count) / 16,
        0 <= shifted(value, count),
    decreases count,
{
    if count > 0 {
        lemma_shifted_step(value / 16, (count - 1) as nat);
        assert(shifted(value, count + 1) == shifted(value / 16, count));
    } else {
        assert(shifted(value, 1) == shifted(value / 16, 0));
    }
}

/// The highest `count` of the 32 digits of `value` spell `value` without its
/// `32 - count` lowest digits.
proof fn lemma_digits_spell_prefix(value: u128, count: nat)
    requires
        count <= 32,
    ensures
        value_of_digits(digits_of_value(value).take(count as int)) == shifted(
            value as int,
            (32 - count) as nat,
        ),
    decreases count,
{
    let digits = digits_of_value(value);
    if count == 0 {
        lemma_pow16_of_32();
        lemma_shifted_small(value as int, 32);
    } else {
        lemma_digits_spell_prefix(value, (count - 1) as nat);
        let prefix = digits.take(count as int);
        assert(prefix.drop_last() == digits.take(count - 1));
        assert(prefix.last() == shifted(value as int, (32 - count) as nat) % 16);
        lemma_shifted_step(value as int, (32 - count) as nat);
    }
}

proof fn lemma_hex_round_trip(digit: int)
    requires
        0 <= digit < 16,
    ensures
        hex_value(hex_char(digit)) == Some(digit),
{
}

/// The text of an id is well formed and spells that id.
pub proof fn law_uuid_text_round_trip(value: u128)
    ensures
        is_uuid_text(uuid_text(value)),
        parse_uuid(uuid_text(value)) == Some(value),
{
    let text = uuid_text(value);
    let digits = digits_of_value(value);
    assert forall|digit: int| 0 <= digit < UUID_DIGITS implies hex_value(
        #[trigger] text[place_of_digit(digit)],
    ) == Some(digits[digit]) by {
        assert(digit_of_place(place_of_digit(digit)) == digit);
        lemma_hex_round_trip(digits[digit]);
    }
    assert(is_uuid_text(text));
    assert(digits_of_text(text) =~= digits);
    lemma_digits_spell_prefix(value, 32);
    assert(digits.take(32) =~= digits);
}

/// Two ids with the same text are the same id.
pub proof fn law_uuid_text_is_injective(first: u128, second: u128)
    requires
        uuid_text(first) == uuid_text(second),
    ensures
        first == second,
{
    law_uuid_text_round_trip(first);
    law_uuid_text_round_trip(second);
}

/// The value of a hex digit, of either case.
fn hex_digit_value(c: char) -> (value: Option<u8>)
    ensures
        match value {
            Some(v) => hex_value(c) == Some(v as int),
            None => hex_value(c) is None,
        },
{
    match c {
        '0' => Some(0),
        '1' => Some(1),
        '2' => Some(2),
        '3' => Some(3),
        '4' => Some(4),
        '5' => Some(5),
        '6' => Some(6),
        '7' => Some(7),
        '8' => Some(8),
        '9' => Some(9),
        'a' | 'A' => Some(10),
        'b' | 'B' => Some(11),
        'c' | 'C' => Some(12),
        'd' | 'D' => Some(13),
        'e' | 'E' => Some(14),
        'f' | 'F' => Some(15),
        _ => None,
    }
}

/// The lower-case hex digit of a value below 16, as a text of one character.
fn hex_digit_text(digit: u8) -> (text: &'static str)
    requires
        digit < 16,
    ensures
        text@ == seq![hex_char(digit as int)],
{
    proof {
        reveal_strlit("0");
        reveal_strlit("1");
        reveal_strlit("2");
        reveal_strlit("3");
        reveal_strlit("4");
        reveal_strlit("5");
        reveal_strlit("6");
        reveal_strlit("7");
        reveal_strlit("8");
        reveal_strlit("9");
        reveal_strlit("a");
        reveal_strlit("b");
        reveal_strlit("c");
        reveal_strlit("d");
        reveal_strlit("e");
        reveal_strlit("f");
    }
    let text = match digit {
        0 => "0",
        1 => "1",
        2 => "2",
        3 => "3",
        4 => "4",
        5 => "5",
        6 => "6",
        7 => "7",
        8 => "8",
        9 => "9",
        10 => "a",
        11 => "b",
        12 => "c",
        13 => "d",
        14 => "e",
        _ => "f",
    };
    assert(text@ =~= seq![hex_char(digit as int)]);
    text
}

impl Uuid {
    /// The id with the given bits.
    pub fn from_u128(value: u128) -> (id: Uuid)
        ensures
            id@ == value,
    {
        Uuid { value }
    }

    /// The bits of this id.
    pub fn as_u128(&self) -> (value: u128)
        ensures
            value == self@,
    {
        self.value
    }

    /// The id that the text spells. A malformed text is an error.
    pub fn parse(text: &str) -> (r: Result<Uuid, ApiError>)
        ensures
            match r {
                Ok(id) => parse_uuid(text@) == Some(id@),
                Err(e) => parse_uuid(text@) is None && e.is(
                    ErrorKind::InvalidArgument,
                    "Malformed contract id"@,
                ),
            },
    {
        if text.unicode_len() != UUID_TEXT_LENGTH {
            return Err(ApiError::invalid_argument("Malformed contract id"));
        }
        if text.get_char(8) != '-' || text.get_char(13) != '-' || text.get_char(18) != '-'
            || text.get_char(23) != '-' {
            return Err(ApiError::invalid_argument("Malformed contract id"));
        }
        let ghost digits = digits_of_text(text@);
        let mut value: u128 = 0;
        let mut digit: usize = 0;
        while digit < UUID_DIGITS
            invariant
                digit <= UUID_DIGITS,
                text@.len() == UUID_TEXT_LENGTH,
                digits == digits_of_text(text@),
                forall|d: int|
                    0 <= d < digit ==> hex_value(#[trigger] text@[place_of_digit(d)]) is Some,
                value == value_of_digits(digits.take(digit as int)),
                0 <= value < pow16(digit as nat),
            decreases UUID_DIGITS - digit,
        {
            let place = if digit >= 20 {
                digit + 4
            } else if digit >= 16 {
                digit + 3
            } else if digit >= 12 {
                digit + 2
            } else if digit >= 8 {
                digit + 1
            } else {
                digit
            };
            assert(place == place_of_digit(digit as int));
            match hex_digit_value(text.get_char(place)) {
                Some(v) => {
                    proof {
                        lemma_pow16_grows((digit + 1) as nat, 32);
                        lemma_pow16_of_32();
                        assert(pow16((digit + 1) as nat) == 16 * pow16(digit as nat));
                        let next = digits.take(digit + 1);
                        assert(next.drop_last() == digits.take(digit as int));
                        assert(next.last() == v);
                    }
                    value = value * 16 + v as u128;
                },
                None => {
                    assert(!is_uuid_text(text@));
                    return Err(ApiError::invalid_argument("Malformed contract id"));
                },
            }
            digit += 1;
        }
        assert(digits.take(32) =~= digits);
        assert(is_uuid_text(text@));
        Ok(Uuid { value })
    }

    /// The text of this id.
    pub fn to_text(&self) -> (text: String)
        ensures
            text@ == uuid_text(self@),
    {
        let mut low_first: Vec<u8> = Vec::new();
        let mut rest: u128 = self.value;
        let mut count: usize = 0;
        while count < UUID_DIGITS
            invariant
                count <= UUID_DIGITS,
                low_first@.len() == count,
                rest == shifted(self.value as int, count as nat),
                forall|i: int|
                    0 <= i < count ==> #[trigger] low_first@[i] == shifted(
                        self.value as int,
                        i as nat,
                    ) % 16,
            decreases UUID_DIGITS - count,
        {
            proof {
                lemma_shifted_step(self.value as int, count as nat);
            }
            low_first.push((rest % 16) as u8);
            rest = rest / 16;
            count += 1;
        }
        let ghost goal = uuid_text(self@);
        let mut text = String::new();
        let mut place: usize = 0;
        while place < UUID_TEXT_LENGTH
            invariant
                place <= UUID_TEXT_LENGTH,
                low_first@.len() == UUID_DIGITS,
                goal == uuid_text(self@),
                forall|i: int|
                    0 <= i < UUID_DIGITS ==> #[trigger] low_first@[i] == shifted(
                        self.value as int,
                        i as nat,
                    ) % 16,
                text@ == goal.take(place as int),
            decreases UUID_TEXT_LENGTH - place,
        {
            let ghost before = text@;
            if place == 8 || place == 13 || place == 18 || place == 23 {
                proof {
                    reveal_strlit("-");
                }
                text.append("-");
                assert(text@ =~= before.push('-'));
            } else {
                let digit = if place > 23 {
                    place - 4
                } else if place > 18 {
                    place - 3
                } else if place > 13 {
                    place - 2
                } else if place > 8 {
                    place - 1
                } else {
                    place
                };
                assert(digit == digit_of_place(place as int));
                let d = low_first[31 - digit];
                text.append(hex_digit_text(d));
                assert(text@ =~= before.push(hex_char(d as int)));
            }
            assert(goal.take(place + 1) =~= goal.take(place as int).push(goal[place as int]));
            place += 1;
        }
        assert(goal.take(36) =~= goal);
        text
    }
}

impl<'a> TryFrom<&'a str> for Uuid {
    type Error = ApiError;

    /// The id that the text spells, as `parse` reads it.
    fn try_from(text: &'a str) -> (r: Result<Uuid, ApiError>)
        ensures
            match r {
                Ok(id) => parse_uuid(text@) == Some(id@),
                Err(e) => parse_uuid(text@) is None && e.is(
                    ErrorKind::InvalidArgument,
                    "Malformed contract id"@,
                ),
            },
    {
        Uuid::parse(text)
    }
}

impl<'a> vstd::std_specs::convert::TryFromSpecImpl<&'a str> for Uuid {
    open spec fn obeys_try_from_spec() -> bool {
        false
    }

    open spec fn try_from_spec(text: &'a str) -> Result<Uuid, ApiError> {
        arbitrary()
    }
}

} // verus!
