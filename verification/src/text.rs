//! Plain text: lower case, repeated prefixes and decimal numbers.

use vstd::prelude::*;
use vstd::string::*;
use vstd::utf8::is_ascii_chars;

verus! {

/// What [`str::to_lowercase`] returns: the Unicode lower case of a text.
pub uninterp spec fn lowercase(text: Seq<char>) -> Seq<char>;

/// The lower case of an ASCII letter; any other character is its own.
pub open spec fn ascii_lowercase_char(c: char) -> char {
    if 'A' <= c && c <= 'Z' {
        (c as u32 + 32) as char
    } else {
        c
    }
}

/// A text with every ASCII capital letter replaced by its small letter.
pub open spec fn ascii_lowercase(text: Seq<char>) -> Seq<char> {
    Seq::new(text.len(), |i: int| ascii_lowercase_char(text[i]))
}

/// The lower case of an ASCII text differs from it in the capital letters alone, each of which stands
/// 32 places before its small letter.
pub proof fn law_lower_case_changes_capital_letters_alone(text: Seq<char>)
    ensures
        ascii_lowercase(text).len() == text.len(),
        forall|i: int|
            0 <= i < text.len() ==> (#[trigger] ascii_lowercase(text)[i]) as u32 == (if 'A'
                <= text[i] && text[i] <= 'Z' {
                text[i] as u32 + 32
            } else {
                text[i] as u32 as int
            }),
{
}

/// [`str::to_lowercase`] of the standard library. Its result is a function of the text, named
/// [`lowercase`]. Of a text that is all ASCII the Unicode mapping changes the letters from `A` to
/// `Z` alone; what it does to other characters is left to the name.
pub assume_specification[ str::to_lowercase ](text: &str) -> (lowered: String)
    ensures
        lowered@ == lowercase(text@),
        is_ascii_chars(text@) ==> lowered@ == ascii_lowercase(text@),
;

/// [`str::strip_prefix`] of the standard library with a string as the pattern: the rest of the
/// text behind the prefix, or nothing if the text does not begin with it.
#[verifier::external_body]
fn strip_prefix<'a>(text: &'a str, prefix: &str) -> (rest: Option<&'a str>)
    ensures
        match rest {
            Some(rest) => text@ == prefix@ + rest@,
            None => !prefix@.is_prefix_of(text@),
        },
{
    text.strip_prefix(prefix)
}

/// A text without the copies of `prefix` that it begins with. The empty prefix removes nothing.
pub open spec fn without_prefixes(text: Seq<char>, prefix: Seq<char>) -> Seq<char>
    decreases text.len(),
{
    if prefix.len() > 0 && prefix.is_prefix_of(text) {
        without_prefixes(text.skip(prefix.len() as int), prefix)
    } else {
        text
    }
}

/// `count` copies of `part`, one after the other.
pub open spec fn copies(part: Seq<char>, count: nat) -> Seq<char>
    decreases count,
{
    if count == 0 {
        Seq::empty()
    } else {
        part + copies(part, (count - 1) as nat)
    }
}

/// Removes the base path from the beginning of a path, as often as it stands there.
pub fn trim_base_path<'a>(path: &'a str, base_path: &str) -> (rest: &'a str)
    ensures
        rest@ == without_prefixes(path@, base_path@),
{
    if base_path.is_empty() {
        return path;
    }
    let mut rest: &'a str = path;
    loop
        invariant
            base_path@.len() > 0,
            without_prefixes(rest@, base_path@) == without_prefixes(path@, base_path@),
        ensures
            rest@ == without_prefixes(path@, base_path@),
        decreases rest@.len(),
    {
        match strip_prefix(rest, base_path) {
            Some(shorter) => {
                proof {
                    assert(rest@.take(base_path@.len() as int) == base_path@);
                    assert(base_path@.is_prefix_of(rest@));
                    assert(rest@.skip(base_path@.len() as int) == shorter@);
                }
                rest = shorter;
            },
            None => {
                break;
            },
        }
    }
    rest
}

/// What [`trim_base_path`] leaves of a path no longer begins with the base path, and the path is
/// that rest behind some number of copies of the base path.
pub proof fn law_base_path_is_removed_wholly(path: Seq<char>, base_path: Seq<char>)
    requires
        base_path.len() > 0,
    ensures
        !base_path.is_prefix_of(without_prefixes(path, base_path)),
        exists|count: nat|
            path == #[trigger] copies(base_path, count) + without_prefixes(path, base_path),
    decreases path.len(),
{
    if base_path.is_prefix_of(path) {
        let shorter = path.skip(base_path.len() as int);
        law_base_path_is_removed_wholly(shorter, base_path);
        let count = choose|count: nat|
            shorter == #[trigger] copies(base_path, count) + without_prefixes(shorter, base_path);
        assert(path == base_path + shorter);
        assert(copies(base_path, count + 1) == base_path + copies(base_path, count));
        assert(path == copies(base_path, count + 1) + without_prefixes(path, base_path));
    } else {
        assert(path == copies(base_path, 0) + path);
    }
}

/// A path that does not begin with the base path stays as it is.
pub proof fn law_paths_outside_the_base_path_stay(path: Seq<char>, base_path: Seq<char>)
    requires
        !base_path.is_prefix_of(path),
    ensures
        without_prefixes(path, base_path) == path,
{
}

/// Behind any number of copies of the base path, a rest that does not begin with it is what is left,
/// unchanged to the last character.
pub proof fn law_only_base_paths_are_removed(base_path: Seq<char>, count: nat, rest: Seq<char>)
    requires
        !base_path.is_prefix_of(rest),
    ensures
        without_prefixes(copies(base_path, count) + rest, base_path) == rest,
    decreases count,
{
    if count == 0 {
        assert(copies(base_path, count) + rest == rest);
    } else {
        let fewer = copies(base_path, (count - 1) as nat) + rest;
        law_only_base_paths_are_removed(base_path, (count - 1) as nat, rest);
        assert(copies(base_path, count) + rest == base_path + fewer);
        law_one_more_base_path_changes_nothing(fewer, base_path);
    }
}

/// An empty base path leaves every path as it is.
pub proof fn law_empty_base_path_removes_nothing(path: Seq<char>)
    ensures
        without_prefixes(path, Seq::empty()) == path,
{
}

/// One more copy of the base path in front of a path changes nothing of what is left of it.
pub proof fn law_one_more_base_path_changes_nothing(path: Seq<char>, base_path: Seq<char>)
    ensures
        without_prefixes(base_path + path, base_path) == without_prefixes(path, base_path),
{
    assert((base_path + path).take(base_path.len() as int) == base_path);
    assert((base_path + path).skip(base_path.len() as int) == path);
}

/// A path that was trimmed once is not changed by trimming it again, whatever the base path.
pub proof fn law_trimming_twice_is_trimming_once(path: Seq<char>, base_path: Seq<char>)
    ensures
        without_prefixes(without_prefixes(path, base_path), base_path) == without_prefixes(
            path,
            base_path,
        ),
{
    if base_path.len() > 0 {
        law_base_path_is_removed_wholly(path, base_path);
    }
}

pub open spec fn is_digit(c: char) -> bool {
    '0' <= c && c <= '9'
}

pub open spec fn all_digits(text: Seq<char>) -> bool {
    forall|i: int| 0 <= i < text.len() ==> is_digit(#[trigger] text[i])
}

/// The number that a row of decimal digits stands for.
pub open spec fn digits_value(digits: Seq<char>) -> int
    decreases digits.len(),
{
    if digits.len() == 0 {
        0
    } else {
        10 * digits_value(digits.drop_last()) + (digits.last() as int - '0' as int)
    }
}

/// A number without its leading plus sign, if it has one.
pub open spec fn without_plus(text: Seq<char>) -> Seq<char> {
    if text.len() > 0 && text[0] == '+' {
        text.skip(1)
    } else {
        text
    }
}

/// The 16-bit number that a text writes in decimal: an optional plus sign and at least one digit,
/// nothing else, and a value in range.
pub open spec fn parsed_u16(text: Seq<char>) -> Option<u16> {
    let digits = without_plus(text);
    if digits.len() > 0 && all_digits(digits) && digits_value(digits) <= u16::MAX {
        Some(digits_value(digits) as u16)
    } else {
        None
    }
}

/// A text of one character is a number if and only if the character is a digit, and then it is the
/// number of that digit.
pub proof fn law_one_digit_is_its_number(c: char)
    ensures
        '0' <= c && c <= '9' ==> parsed_u16(seq![c]) == Some((c as u32 - '0' as u32) as u16),
        !('0' <= c && c <= '9') ==> parsed_u16(seq![c]) is None,
{
    let text = seq![c];
    reveal_with_fuel(digits_value, 2);
    assert(text.drop_last() == Seq::<char>::empty());
    assert(text[0] == c && text.last() == c);
    if '0' <= c && c <= '9' {
        assert(without_plus(text) == text);
        assert(all_digits(text));
        assert(digits_value(text) == c as int - '0' as int);
    } else if c != '+' {
        assert(!is_digit(text[0]));
    }
}

/// One more digit behind a number makes it ten times the number and the digit, if that is still a
/// 16-bit number; any other character behind it makes it no number.
pub proof fn law_one_more_digit_counts_ten_times(text: Seq<char>, c: char)
    requires
        text.len() > 0,
        text != seq!['+'],
    ensures
        parsed_u16(text.push(c)) == (match parsed_u16(text) {
            Some(number) => if '0' <= c && c <= '9' && 10 * number + (c as u32 - '0' as u32)
                <= 65535 {
                Some((10 * number + (c as u32 - '0' as u32)) as u16)
            } else {
                None
            },
            None => None,
        }),
{
    let longer = text.push(c);
    let digits = without_plus(text);
    assert(longer[0] == text[0]);
    if text[0] == '+' && text.len() == 1 {
        assert(text == seq!['+']);
    }
    assert(without_plus(longer) == digits.push(c));
    assert(digits.push(c).drop_last() == digits);
    assert(digits.push(c).last() == c);
    assert(digits.len() > 0);
    if all_digits(digits.push(c)) {
        assert forall|i: int| 0 <= i < digits.len() implies is_digit(#[trigger] digits[i]) by {
            assert(digits.push(c)[i] == digits[i]);
        }
        assert(is_digit(digits.push(c)[digits.len() as int]));
        lemma_prefix_value_is_smaller(digits, 0);
    }
    if all_digits(digits) && is_digit(c) {
        assert(all_digits(digits.push(c)));
    }
}

/// A plus sign in front of a number changes nothing, and makes no number of what is none.
pub proof fn law_plus_sign_changes_nothing(text: Seq<char>)
    requires
        text.len() > 0 ==> text[0] != '+',
    ensures
        parsed_u16(seq!['+'] + text) == parsed_u16(text),
{
    assert((seq!['+'] + text).skip(1) == text);
}

/// The empty text, the plus sign alone and the plus sign twice are no numbers.
pub proof fn law_numbers_need_a_digit(text: Seq<char>)
    ensures
        parsed_u16(Seq::empty()) is None,
        parsed_u16(seq!['+']) is None,
        parsed_u16(seq!['+', '+'] + text) is None,
{
    assert(seq!['+'].skip(1) == Seq::<char>::empty());
    let twice = seq!['+', '+'] + text;
    assert(twice.skip(1)[0] == '+');
}

proof fn lemma_prefix_value_is_smaller(digits: Seq<char>, i: int)
    requires
        0 <= i <= digits.len(),
        all_digits(digits),
    ensures
        0 <= digits_value(digits.take(i)) <= digits_value(digits),
    decreases digits.len(),
{
    if i == digits.len() {
        assert(digits.take(i) == digits);
        if i > 0 {
            assert(digits.drop_last() == digits.take(i - 1));
            assert(all_digits(digits.drop_last()));
            lemma_prefix_value_is_smaller(digits.drop_last(), i - 1);
        }
    } else {
        assert(all_digits(digits.drop_last()));
        assert(digits.drop_last().take(i) == digits.take(i));
        lemma_prefix_value_is_smaller(digits.drop_last(), i);
    }
}

/// Reads a 16-bit number in decimal.
pub fn parse_u16(text: &str) -> (number: Option<u16>)
    ensures
        number == parsed_u16(text@),
{
    let length: usize = text.unicode_len();
    let start: usize = if length > 0 && text.get_char(0) == '+' {
        1
    } else {
        0
    };
    let ghost digits = without_plus(text@);
    let mut value: u32 = 0;
    let mut i: usize = start;
    if start == length {
        return None;
    }
    while i < length
        invariant
            length == text@.len(),
            start <= i <= length,
            digits == without_plus(text@),
            digits == text@.skip(start as int),
            all_digits(digits.take(i - start)),
            value == digits_value(digits.take(i - start)),
            value <= u16::MAX,
        decreases length - i,
    {
        let c: char = text.get_char(i);
        proof {
            assert(c == digits[i - start]);
            assert(digits.take(i - start + 1).drop_last() == digits.take(i - start));
        }
        if !('0' <= c && c <= '9') {
            return None;
        }
        value = 10 * value + (c as u32 - '0' as u32);
        i = i + 1;
        if value > 65535 {
            proof {
                if all_digits(digits) {
                    lemma_prefix_value_is_smaller(digits, i - start);
                }
            }
            return None;
        }
    }
    proof {
        assert(digits.take(length - start) == digits);
    }
    Some(value as u16)
}

/// The truth value that a text writes: `true` or `false`, letter for letter.
pub open spec fn parsed_bool(text: Seq<char>) -> Option<bool> {
    if text == "true"@ {
        Some(true)
    } else if text == "false"@ {
        Some(false)
    } else {
        None
    }
}

/// Only the word `true` is true and only the word `false` is false.
pub proof fn law_truth_values_letter_for_letter(text: Seq<char>)
    ensures
        parsed_bool(text) == Some(true) <==> text == "true"@,
        parsed_bool(text) == Some(false) <==> text == "false"@,
        parsed_bool(text) is None <==> text != "true"@ && text != "false"@,
{
    reveal_strlit("true");
    reveal_strlit("false");
    assert("true"@.len() != "false"@.len());
}

/// Reads a truth value.
pub fn parse_bool(text: &str) -> (value: Option<bool>)
    ensures
        value == parsed_bool(text@),
{
    let text: String = text.to_string();
    if text == "true".to_string() {
        Some(true)
    } else if text == "false".to_string() {
        Some(false)
    } else {
        None
    }
}

/// The decimal digit of a number below ten.
pub open spec fn digit_char(digit: int) -> char {
    ('0' as u32 + digit) as char
}

/// A number written in decimal, without leading zeros.
pub open spec fn decimal(number: nat) -> Seq<char>
    decreases number,
{
    if number < 10 {
        seq![digit_char(number as int)]
    } else {
        decimal(number / 10).push(digit_char((number % 10) as int))
    }
}

fn digit_text(digit: u16) -> (text: &'static str)
    requires
        digit < 10,
    ensures
        text@ == seq![digit_char(digit as int)],
{
    proof {
        reveal_strlit("0");
        reveal_strlit("1");
        reveal_strlit("2");
        reveal_strlit("3");
        reveal_strlit("4");
        reveal_strlit("5");
        reveal_strlit("6");
        reveal_strlit("7");
        reveal_strlit("8");
        reveal_strlit("9");
    }
    match digit {
        0 => "0",
        1 => "1",
        2 => "2",
        3 => "3",
        4 => "4",
        5 => "5",
        6 => "6",
        7 => "7",
        8 => "8",
        _ => "9",
    }
}

/// Writes a number in decimal.
pub fn decimal_text(number: u16) -> (text: String)
    ensures
        text@ == decimal(number as nat),
    decreases number,
{
    if number < 10 {
        digit_text(number).to_string()
    } else {
        let text: String = decimal_text(number / 10).concat(digit_text(number % 10));
        assert(text@ == decimal(number as nat));
        text
    }
}

proof fn lemma_decimal_digits(number: nat)
    ensures
        decimal(number).len() > 0,
        all_digits(decimal(number)),
        digits_value(decimal(number)) == number,
    decreases number,
{
    reveal_with_fuel(digits_value, 2);
    if number < 10 {
        assert(decimal(number).drop_last() == Seq::<char>::empty());
    } else {
        lemma_decimal_digits(number / 10);
        assert(decimal(number).drop_last() == decimal(number / 10));
    }
}

/// A written number is made of digits alone, and begins with a zero only where it is the number zero.
pub proof fn law_written_numbers_are_plain(number: nat)
    ensures
        decimal(number).len() > 0,
        forall|i: int|
            0 <= i < decimal(number).len() ==> '0' <= #[trigger] decimal(number)[i] && decimal(
                number,
            )[i] <= '9',
        decimal(number)[0] == '0' <==> number == 0,
        number < 10 ==> decimal(number).len() == 1,
    decreases number,
{
    lemma_decimal_digits(number);
    assert forall|i: int| 0 <= i < decimal(number).len() implies '0' <= #[trigger] decimal(
        number,
    )[i] && decimal(number)[i] <= '9' by {
        assert(is_digit(decimal(number)[i]));
    }
    if number >= 10 {
        law_written_numbers_are_plain(number / 10);
        assert(decimal(number)[0] == decimal(number / 10)[0]);
    }
}

/// Reading a number that [`decimal_text`] wrote gives the number back.
pub proof fn law_written_numbers_read_back(number: u16)
    ensures
        parsed_u16(decimal(number as nat)) == Some(number),
{
    lemma_decimal_digits(number as nat);
    assert(is_digit(decimal(number as nat)[0]));
}

} // verus!
