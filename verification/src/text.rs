//! Text helpers: comparison, ASCII case, decimal numerals.
use vstd::prelude::*;

verus! {

/// `String::push`: appends the character to the end of the string.
pub assume_specification[ String::push ](text: &mut String, character: char)
    ensures
        final(text)@ == old(text)@.push(character),
;

pub fn chars_of(text: &str) -> (chars: Vec<char>)
    ensures
        chars@ == text@,
{
    let mut chars: Vec<char> = Vec::new();
    for character in iter: text.chars()
        invariant
            chars@ == iter.seq().take(iter.index() as int),
            iter.seq() == text@,
    {
        chars.push(character);
    }
    chars
}

/// Whether two texts hold the same characters.
pub fn same_text(left: &str, right: &str) -> (same: bool)
    ensures
        same == (left@ == right@),
{
    let left_chars = chars_of(left);
    let right_chars = chars_of(right);
    if left_chars.len() != right_chars.len() {
        return false;
    }
    let mut index: usize = 0;
    while index < left_chars.len()
        invariant
            index <= left_chars.len(),
            left_chars.len() == right_chars.len(),
            left_chars@ == left@,
            right_chars@ == right@,
            forall|i: int| 0 <= i < index ==> left_chars@[i] == right_chars@[i],
        decreases left_chars.len() - index,
    {
        if left_chars[index] != right_chars[index] {
            return false;
        }
        index += 1;
    }
    assert(left@ =~= right@);
    true
}

/// Whether an optional text is there and equals another.
pub open spec fn is_text(value: Option<String>, expected: Seq<char>) -> bool {
    value matches Some(text) && text@ == expected
}

pub fn matches_text(value: &Option<String>, expected: &str) -> (same: bool)
    ensures
        same == is_text(*value, expected@),
{
    match value {
        Some(text) => same_text(text.as_str(), expected),
        None => false,
    }
}

/// The lower-case letter of an ASCII capital; any other character stays.
pub open spec fn lower(character: char) -> char {
    if 'A' <= character <= 'Z' {
        ((character as int) + 32) as char
    } else {
        character
    }
}

pub open spec fn lowered(text: Seq<char>) -> Seq<char> {
    text.map_values(|character: char| lower(character))
}

fn lower_char(character: char) -> (result: char)
    ensures
        result == lower(character),
{
    if 'A' <= character && character <= 'Z' {
        ((character as u8) + 32) as char
    } else {
        character
    }
}

/// The text with every ASCII capital in lower case.
pub fn to_lower(text: &str) -> (result: String)
    ensures
        result@ == lowered(text@),
{
    let chars = chars_of(text);
    let mut result = String::new();
    let mut index: usize = 0;
    assert(result@ =~= lowered(text@).take(0));
    while index < chars.len()
        invariant
            index <= chars.len(),
            chars@ == text@,
            result@ == lowered(text@).take(index as int),
        decreases chars.len() - index,
    {
        result.push(lower_char(chars[index]));
        index += 1;
        assert(result@ =~= lowered(text@).take(index as int));
    }
    assert(result@ =~= lowered(text@));
    result
}

pub open spec fn is_digit(character: char) -> bool {
    '0' <= character <= '9'
}

pub open spec fn digit_value(character: char) -> int {
    character as int - '0' as int
}

pub open spec fn all_digits(text: Seq<char>) -> bool {
    forall|i: int| 0 <= i < text.len() ==> is_digit(#[trigger] text[i])
}

/// What a row of decimal digits says.
pub open spec fn numeral_value(text: Seq<char>) -> int
    decreases text.len(),
{
    if text.len() == 0 {
        0
    } else {
        numeral_value(text.drop_last()) * 10 + digit_value(text.last())
    }
}

/// A numeral is nothing but digits, and at least one.
pub open spec fn is_numeral(text: Seq<char>) -> bool {
    text.len() > 0 && all_digits(text)
}

/// The number that a numeral writes, where it does not exceed `most`.
pub open spec fn numeral_up_to(text: Seq<char>, most: int) -> Option<int> {
    if is_numeral(text) && numeral_value(text) <= most {
        Some(numeral_value(text))
    } else {
        None
    }
}

proof fn lemma_prefix_is_smaller(text: Seq<char>, count: int)
    requires
        all_digits(text),
        0 <= count <= text.len(),
    ensures
        0 <= numeral_value(text.take(count)) <= numeral_value(text),
    decreases text.len(),
{
    if count == text.len() {
        assert(text.take(count) =~= text);
        if text.len() > 0 {
            lemma_prefix_is_smaller(text.drop_last(), text.len() - 1);
        }
    } else {
        assert(text.drop_last().take(count) =~= text.take(count));
        lemma_prefix_is_smaller(text.drop_last(), count);
        assert(is_digit(text.last()));
    }
}

/// No numeral says less than nothing.
pub proof fn lemma_numeral_is_nonnegative(text: Seq<char>)
    requires
        all_digits(text),
    ensures
        0 <= numeral_value(text),
{
    lemma_prefix_is_smaller(text, 0);
}

/// Reads the digits from `start` on, as far as the number does not exceed `most`.
fn read_numeral(chars: &Vec<char>, start: usize, most: u64) -> (value: Option<u64>)
    requires
        start <= chars.len(),
    ensures
        value == (match numeral_up_to(chars@.skip(start as int), most as int) {
            Some(number) => Some(number as u64),
            None => None,
        }),
        value matches Some(number) ==> number <= most && number == numeral_value(
            chars@.skip(start as int),
        ),
{
    let ghost text = chars@.skip(start as int);
    let mut all: bool = true;
    let mut index: usize = start;
    while index < chars.len()
        invariant
            start <= index <= chars.len(),
            text == chars@.skip(start as int),
            all ==> all_digits(text.take(index - start)),
            !all ==> !all_digits(text),
        decreases chars.len() - index,
    {
        if !('0' <= chars[index] && chars[index] <= '9') {
            all = false;
            assert(!is_digit(text[index - start]));
        }
        index += 1;
        assert forall|i: int| all && 0 <= i < index - start implies is_digit(
            #[trigger] text.take(index - start)[i],
        ) by {
            if i < index - start - 1 {
                assert(is_digit(text.take(index - start - 1)[i]));
            }
        }
    }
    assert(text.take(text.len() as int) =~= text);
    if !all || start == chars.len() {
        return None;
    }
    let mut value: u64 = 0;
    index = start;
    assert(text.take(0) =~= Seq::<char>::empty());
    while index < chars.len()
        invariant
            start <= index <= chars.len(),
            text == chars@.skip(start as int),
            text.len() > 0,
            all_digits(text),
            value == numeral_value(text.take(index - start)),
            value <= most,
        decreases chars.len() - index,
    {
        assert(is_digit(text[index - start]));
        let digit: u64 = (chars[index] as u64) - ('0' as u64);
        proof {
            assert(text.take(index - start + 1).drop_last() =~= text.take(index - start));
            assert(text.take(index - start + 1).last() == text[index - start]);
            lemma_prefix_is_smaller(text, index - start + 1);
        }
        if value > most / 10 || digit > most - value * 10 {
            return None;
        }
        value = value * 10 + digit;
        index += 1;
    }
    Some(value)
}

/// The number that a text of decimal digits alone writes, where it fits.
pub fn parse_u64(text: &str) -> (value: Option<u64>)
    ensures
        value == (match numeral_up_to(text@, u64::MAX as int) {
            Some(number) => Some(number as u64),
            None => None,
        }),
{
    let chars = chars_of(text);
    assert(chars@.skip(0) =~= text@);
    read_numeral(&chars, 0, u64::MAX)
}

/// The signed number that a text writes: digits, with one `+` or `-` before them or none.
pub open spec fn signed_value(text: Seq<char>) -> Option<i64> {
    if text.len() > 0 && text[0] == '-' {
        match numeral_up_to(text.skip(1), -(i64::MIN as int)) {
            Some(number) => Some((-number) as i64),
            None => None,
        }
    } else {
        let digits = if text.len() > 0 && text[0] == '+' {
            text.skip(1)
        } else {
            text
        };
        match numeral_up_to(digits, i64::MAX as int) {
            Some(number) => Some(number as i64),
            None => None,
        }
    }
}

pub fn parse_i64(text: &str) -> (value: Option<i64>)
    ensures
        value == signed_value(text@),
{
    let chars = chars_of(text);
    assert(chars@.skip(0) =~= text@);
    if chars.len() > 0 && chars[0] == '-' {
        match read_numeral(&chars, 1, 0x8000_0000_0000_0000) {
            Some(number) => if number == 0x8000_0000_0000_0000 {
                Some(i64::MIN)
            } else {
                Some(-(number as i64))
            },
            None => None,
        }
    } else {
        let start: usize = if chars.len() > 0 && chars[0] == '+' {
            1
        } else {
            0
        };
        match read_numeral(&chars, start, 0x7fff_ffff_ffff_ffff) {
            Some(number) => Some(number as i64),
            None => None,
        }
    }
}

pub open spec fn digit_char(digit: int) -> char {
    ('0' as int + digit) as char
}

/// The shortest decimal numeral of a number.
pub open spec fn numeral(number: int) -> Seq<char>
    decreases number,
{
    if number < 10 {
        seq![digit_char(number)]
    } else {
        numeral(number / 10).push(digit_char(number % 10))
    }
}

/// The decimal numeral of a number, with `-` in front of a negative one.
pub open spec fn signed_numeral(number: int) -> Seq<char> {
    if number < 0 {
        seq!['-'] + numeral(-number)
    } else {
        numeral(number)
    }
}

fn push_numeral(text: &mut String, number: u64)
    ensures
        final(text)@ == old(text)@ + numeral(number as int),
    decreases number,
{
    if number >= 10 {
        push_numeral(text, number / 10);
    }
    let digit: char = (('0' as u8) + ((number % 10) as u8)) as char;
    text.push(digit);
    assert(text@ =~= old(text)@ + numeral(number as int));
}

pub fn u64_text(number: u64) -> (text: String)
    ensures
        text@ == numeral(number as int),
{
    let mut text = String::new();
    push_numeral(&mut text, number);
    assert(text@ =~= numeral(number as int));
    text
}

pub fn i64_text(number: i64) -> (text: String)
    ensures
        text@ == signed_numeral(number as int),
{
    let mut text = String::new();
    if number < 0 {
        text.push('-');
        let magnitude: u64 = if number == i64::MIN {
            0x8000_0000_0000_0000
        } else {
            (-number) as u64
        };
        push_numeral(&mut text, magnitude);
    } else {
        push_numeral(&mut text, number as u64);
    }
    assert(text@ =~= signed_numeral(number as int));
    text
}

proof fn lemma_numeral(number: int)
    requires
        number >= 0,
    ensures
        is_numeral(numeral(number)),
        numeral_value(numeral(number)) == number,
    decreases number,
{
    reveal_with_fuel(numeral_value, 2);
    if number >= 10 {
        lemma_numeral(number / 10);
        let before = numeral(number / 10);
        let text = numeral(number);
        assert(text.drop_last() =~= before);
        assert forall|i: int| 0 <= i < text.len() implies is_digit(#[trigger] text[i]) by {
            if i < before.len() {
                assert(is_digit(before[i]));
            }
        }
    } else {
        assert(numeral(number).drop_last() =~= Seq::<char>::empty());
    }
}

/// Reading the numeral of a number gives the number back.
pub proof fn law_numeral_reads_back(number: u64)
    ensures
        numeral_up_to(numeral(number as int), u64::MAX as int) == Some(number as int),
{
    lemma_numeral(number as int);
}

/// Reading the numeral of a signed number gives the number back.
pub proof fn law_signed_numeral_reads_back(number: i64)
    ensures
        signed_value(signed_numeral(number as int)) == Some(number),
{
    let text = signed_numeral(number as int);
    if number < 0 {
        lemma_numeral(-(number as int));
        assert(text[0] == '-');
        assert(text.skip(1) =~= numeral(-(number as int)));
    } else {
        lemma_numeral(number as int);
        assert(is_digit(text[0]));
    }
}

/// Of all characters only the capitals of ASCII change when a text is lowered, each into the small
/// letter of its own; the length stays, and lowering twice is lowering once.
pub proof fn law_lowering(text: Seq<char>, place: int)
    requires
        0 <= place < text.len(),
    ensures
        lowered(text).len() == text.len(),
        !('A' <= text[place] <= 'Z') ==> lowered(text)[place] == text[place],
        'A' <= text[place] <= 'Z' ==> lowered(text)[place] as int - 'a' as int == text[place] as int
            - 'A' as int,
        lowered(lowered(text))[place] == lowered(text)[place],
{
    assert(lowered(text)[place] == lower(text[place]));
    assert(lowered(lowered(text))[place] == lower(lowered(text)[place]));
}

/// A text spells a signed number where it is a row of digits that fits, with a sign before it or
/// none; a minus makes the number negative, and a plus makes no difference.
pub proof fn law_signs(digits: Seq<char>)
    requires
        digits.len() > 0,
        all_digits(digits),
    ensures
        numeral_value(digits) <= i64::MAX ==> signed_value(digits) == Some(
            numeral_value(digits) as i64,
        ),
        signed_value(seq!['+'] + digits) == signed_value(digits),
        numeral_value(digits) <= i64::MAX ==> signed_value(seq!['-'] + digits) == Some(
            (-numeral_value(digits)) as i64,
        ),
        numeral_value(digits) > 0x8000_0000_0000_0000 ==> signed_value(digits) is None
            && signed_value(seq!['-'] + digits) is None,
{
    assert(is_digit(digits[0]));
    assert((seq!['+'] + digits).skip(1) =~= digits);
    assert((seq!['-'] + digits).skip(1) =~= digits);
}

/// A text with anything but digits after its sign, or with nothing, spells no number.
pub proof fn law_no_other_text_spells_a_number(text: Seq<char>, place: int)
    requires
        text.len() == 0 || (0 <= place < text.len() && !is_digit(text[place]) && (place > 0
            || text[0] != '-' && text[0] != '+')),
    ensures
        signed_value(text) is None,
        numeral_up_to(text, u64::MAX as int) is None,
{
    if text.len() > 0 {
        if place > 0 {
            assert(text.skip(1)[place - 1] == text[place]);
            assert(!all_digits(text.skip(1)));
        }
        assert(!all_digits(text));
    }
}

/// A numeral is of digits alone and begins with no zero, but for zero's own.
pub proof fn law_numerals_are_short(number: int)
    requires
        number >= 0,
    ensures
        numeral(number).len() > 0,
        all_digits(numeral(number)),
        number > 0 ==> numeral(number)[0] != '0',
        number == 0 ==> numeral(number) == seq!['0'],
    decreases number,
{
    lemma_numeral(number);
    if number >= 10 {
        law_numerals_are_short(number / 10);
        assert(numeral(number)[0] == numeral(number / 10)[0]);
    }
}

} // verus!
