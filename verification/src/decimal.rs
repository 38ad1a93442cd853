//! Decimal text for fixed-point numbers: reading a price or an amount, and
//! writing the amounts that go into an order.

use crate::text::push_char;
use vstd::prelude::*;
use vstd::string::is_ascii_spec_bytes;

verus! {

/// Units per whole in the fixed-point representation of prices and amounts.
pub const UNITS_PER_WHOLE: u64 = 100_000_000;

/// Digits behind the decimal point that a fixed-point unit resolves.
pub const FRACTION_DIGITS: u8 = 8;

/// The character of a digit below ten.
pub open spec fn digit_char(digit: int) -> char {
    (48 + digit) as char
}

/// The shortest decimal numeral of a number.
pub open spec fn numeral(value: nat) -> Seq<char>
    decreases value,
{
    if value < 10 {
        seq![digit_char(value as int)]
    } else {
        numeral(value / 10).push(digit_char((value % 10) as int))
    }
}

/// The last `width` digits of a number, with leading zeros.
pub open spec fn padded_numeral(value: nat, width: nat) -> Seq<char>
    decreases width,
{
    if width == 0 {
        Seq::empty()
    } else {
        padded_numeral(value / 10, (width - 1) as nat).push(digit_char((value % 10) as int))
    }
}

/// A fraction of `width` digits without its trailing zeros.
pub open spec fn trimmed_fraction(value: nat, width: nat) -> Seq<char>
    decreases width,
{
    if width == 0 {
        Seq::empty()
    } else if value % 10 == 0 {
        trimmed_fraction(value / 10, (width - 1) as nat)
    } else {
        padded_numeral(value, width)
    }
}

/// A fixed-point amount in full: the whole part, and behind a point the
/// fraction without trailing zeros where there is one. `150_000_000` is
/// written `1.5` and `1_000_000_000` is written `10`.
pub open spec fn amount_text(units: u64) -> Seq<char> {
    let whole = (units / UNITS_PER_WHOLE) as nat;
    let fraction = (units % UNITS_PER_WHOLE) as nat;
    if fraction == 0 {
        numeral(whole)
    } else {
        numeral(whole).push('.') + trimmed_fraction(fraction, 8)
    }
}

/// A fixed-point amount in ten-thousandths, rounded to the nearest and to
/// the even one of two equally near.
pub open spec fn rounded_ten_thousandths(units: u64) -> nat {
    let low = (units / 10_000) as nat;
    let rest = units % 10_000;
    if rest > 5_000 || (rest == 5_000 && low % 2 == 1) {
        low + 1
    } else {
        low
    }
}

/// A fixed-point amount with exactly four digits behind the point.
/// `123_456_789` is written `1.2346`.
pub open spec fn four_place_text(units: u64) -> Seq<char> {
    let rounded = rounded_ten_thousandths(units);
    numeral(rounded / 10_000).push('.') + padded_numeral(rounded % 10_000, 4)
}

/// The character of a digit.
fn digit_to_char(digit: u8) -> (c: char)
    requires
        digit < 10,
    ensures
        c == digit_char(digit as int),
{
    (48 + digit) as char
}

/// Appends the shortest decimal numeral of a number.
pub fn push_numeral(text: &mut String, value: u64)
    ensures
        final(text)@ == old(text)@ + numeral(value as nat),
    decreases value,
{
    if value >= 10 {
        push_numeral(text, value / 10);
    }
    push_char(text, digit_to_char((value % 10) as u8));
    assert(text@ =~= old(text)@ + numeral(value as nat));
}

/// Appends the last `width` digits of a number, with leading zeros.
pub fn push_padded_numeral(text: &mut String, value: u64, width: u8)
    ensures
        final(text)@ == old(text)@ + padded_numeral(value as nat, width as nat),
    decreases width,
{
    if width > 0 {
        push_padded_numeral(text, value / 10, width - 1);
        push_char(text, digit_to_char((value % 10) as u8));
    }
    assert(text@ =~= old(text)@ + padded_numeral(value as nat, width as nat));
}

/// Writes a fixed-point amount in full: see [`amount_text`].
pub fn format_amount(units: u64) -> (text: String)
    ensures
        text@ == amount_text(units),
{
    let mut text = String::new();
    push_numeral(&mut text, units / UNITS_PER_WHOLE);
    let mut fraction: u64 = units % UNITS_PER_WHOLE;
    if fraction != 0 {
        push_char(&mut text, '.');
        let mut width: u8 = FRACTION_DIGITS;
        while width > 0 && fraction % 10 == 0
            invariant
                trimmed_fraction((units % UNITS_PER_WHOLE) as nat, 8) == trimmed_fraction(
                    fraction as nat,
                    width as nat,
                ),
            decreases width,
        {
            fraction = fraction / 10;
            width = width - 1;
        }
        push_padded_numeral(&mut text, fraction, width);
        assert(text@ =~= amount_text(units));
    } else {
        assert(text@ =~= amount_text(units));
    }
    text
}

/// Writes a fixed-point amount with four digits behind the point: see
/// [`four_place_text`].
pub fn format_four_places(units: u64) -> (text: String)
    ensures
        text@ == four_place_text(units),
{
    let low: u64 = units / 10_000;
    let rest: u64 = units % 10_000;
    let rounded: u64 = if rest > 5_000 || (rest == 5_000 && low % 2 == 1) {
        low + 1
    } else {
        low
    };
    let mut text = String::new();
    push_numeral(&mut text, rounded / 10_000);
    push_char(&mut text, '.');
    push_padded_numeral(&mut text, rounded % 10_000, 4);
    assert(text@ =~= four_place_text(units));
    text
}

/// The character is one of the ten digits.
pub open spec fn is_digit(c: char) -> bool {
    '0' <= c <= '9'
}

/// Every character is a digit.
pub open spec fn all_digits(text: Seq<char>) -> bool {
    forall|i: int| 0 <= i < text.len() ==> is_digit(#[trigger] text[i])
}

/// The number that a sequence of digits writes; zero for the empty one.
pub open spec fn digits_value(digits: Seq<char>) -> nat
    decreases digits.len(),
{
    if digits.len() == 0 {
        0
    } else {
        digits_value(digits.drop_last()) * 10 + (digits.last() as int - 48) as nat
    }
}

/// Ten to the power of `exponent`.
pub open spec fn power_of_ten(exponent: nat) -> nat
    decreases exponent,
{
    if exponent == 0 {
        1
    } else {
        10 * power_of_ten((exponent - 1) as nat)
    }
}

/// Where the first decimal point stands, and the text's length where it has
/// none.
pub open spec fn point_position(text: Seq<char>) -> nat
    decreases text.len(),
{
    if text.len() == 0 || text[0] == '.' {
        0
    } else {
        1 + point_position(text.drop_first())
    }
}

/// What stands before the first decimal point.
pub open spec fn whole_digits(text: Seq<char>) -> Seq<char> {
    text.take(point_position(text) as int)
}

/// What stands behind the first decimal point.
pub open spec fn fraction_digits(text: Seq<char>) -> Seq<char> {
    if point_position(text) < text.len() {
        text.skip(point_position(text) as int + 1)
    } else {
        Seq::empty()
    }
}

/// The text is a decimal numeral: one digit or more, and where a point
/// follows, one digit or more behind it. No sign, no exponent, no blank.
pub open spec fn is_decimal(text: Seq<char>) -> bool {
    &&& whole_digits(text).len() > 0
    &&& all_digits(whole_digits(text))
    &&& point_position(text) < text.len() ==> fraction_digits(text).len() > 0 && all_digits(
        fraction_digits(text),
    )
}

/// The units that the digits behind the point stand for; digits beyond the
/// eighth are too fine to count.
pub open spec fn fraction_units(digits: Seq<char>) -> nat {
    if digits.len() >= 8 {
        digits_value(digits.take(8))
    } else {
        digits_value(digits) * power_of_ten((8 - digits.len()) as nat)
    }
}

/// The fixed-point units that a decimal numeral stands for, rounded down.
pub open spec fn decimal_units(text: Seq<char>) -> nat {
    digits_value(whole_digits(text)) * 100_000_000 + fraction_units(fraction_digits(text))
}

/// What a text reads as: the units of a decimal numeral that the fixed-point
/// range holds, and nothing for any other text.
pub open spec fn decimal_reading(text: Seq<char>) -> Option<u64> {
    if is_decimal(text) && decimal_units(text) <= u64::MAX {
        Some(decimal_units(text) as u64)
    } else {
        None
    }
}

proof fn lemma_point_position(text: Seq<char>, upto: int)
    requires
        0 <= upto <= text.len(),
        forall|j: int| 0 <= j < upto ==> text[j] != '.',
    ensures
        upto <= point_position(text) <= text.len(),
        upto < text.len() && text[upto] == '.' ==> point_position(text) == upto,
    decreases text.len(),
{
    if text.len() == 0 || text[0] == '.' {
    } else if upto == 0 {
        lemma_point_position(text.drop_first(), 0);
    } else {
        let rest = text.drop_first();
        assert forall|j: int| 0 <= j < upto - 1 implies rest[j] != '.' by {
            assert(rest[j] == text[j + 1]);
        }
        lemma_point_position(rest, upto - 1);
    }
}

proof fn lemma_point_is_first(text: Seq<char>)
    ensures
        point_position(text) <= text.len(),
        point_position(text) < text.len() ==> text[point_position(text) as int] == '.',
        forall|j: int| 0 <= j < point_position(text) ==> text[j] != '.',
    decreases text.len(),
{
    if text.len() == 0 || text[0] == '.' {
    } else {
        let rest = text.drop_first();
        lemma_point_is_first(rest);
        assert forall|j: int| 0 <= j < point_position(text) implies text[j] != '.' by {
            if j > 0 {
                assert(text[j] == rest[j - 1]);
            }
        }
    }
}

proof fn lemma_decimal_is_ascii(text: Seq<char>)
    requires
        is_decimal(text),
    ensures
        vstd::utf8::is_ascii_chars(text),
{
    lemma_point_is_first(text);
    let point = point_position(text) as int;
    assert forall|i: int| 0 <= i < text.len() implies '\0' <= #[trigger] text[i] <= '\u{7f}' by {
        if i < point {
            assert(whole_digits(text)[i] == text[i]);
        } else if i == point {
        } else {
            assert(fraction_digits(text)[i - point - 1] == text[i]);
        }
    }
}

proof fn lemma_digits_value_step(digits: Seq<char>, count: int)
    requires
        0 <= count < digits.len(),
    ensures
        digits_value(digits.take(count + 1)) == digits_value(digits.take(count)) * 10 + (
        digits[count] as int - 48) as nat,
{
    assert(digits.take(count + 1).drop_last() =~= digits.take(count));
}

/// The byte at a place is the code of the character at that place.
spec fn same_code(bytes: Seq<u8>, text: Seq<char>, at: int) -> bool {
    bytes[at] as int == text[at] as int
}

proof fn lemma_not_decimal(text: Seq<char>, at: int)
    requires
        0 <= at < text.len(),
        forall|j: int| 0 <= j < at ==> is_digit(#[trigger] text[j]),
        !is_digit(text[at]),
        text[at] != '.',
    ensures
        !is_decimal(text),
{
    lemma_point_position(text, at + 1);
    if is_decimal(text) {
        assert(whole_digits(text)[at] == text[at]);
    }
}

fn is_digit_byte(byte: u8) -> (digit: bool)
    ensures
        digit == (48 <= byte <= 57),
{
    byte >= 48 && byte <= 57
}

/// Reads a decimal numeral as fixed-point units, rounding down what is finer
/// than a unit. Text that is no decimal numeral, or that stands for more than
/// the fixed-point range holds, gives nothing.
pub fn parse_decimal(text: &str) -> (units: Option<u64>)
    ensures
        units == decimal_reading(text@),
{
    if !text.is_ascii() {
        proof {
            if is_decimal(text@) {
                lemma_decimal_is_ascii(text@);
            }
        }
        return None;
    }
    let bytes = text.as_bytes();
    let length: usize = bytes.len();
    proof {
        is_ascii_spec_bytes(text);
        assert forall|j: int| 0 <= j < length implies #[trigger] same_code(bytes@, text@, j) by {
            assert(text@[j] <= '\u{7f}');
            assert(bytes@[j] == text@[j] as u8);
        }
    }
    let limit: u128 = 0x1_0000_0000_0000_0000;
    let mut whole: u128 = 0;
    let mut i: usize = 0;
    while i < length && is_digit_byte(bytes[i])
        invariant
            i <= length,
            length == text@.len(),
            bytes@.len() == length,
            limit == 0x1_0000_0000_0000_0000,
            forall|j: int| 0 <= j < length ==> #[trigger] same_code(bytes@, text@, j),
            forall|j: int| 0 <= j < i ==> is_digit(#[trigger] text@[j]),
            whole <= limit,
            whole == if digits_value(text@.take(i as int)) < limit {
                digits_value(text@.take(i as int))
            } else {
                limit as nat
            },
        decreases length - i,
    {
        proof {
            assert(same_code(bytes@, text@, i as int));
            lemma_digits_value_step(text@, i as int);
        }
        let next: u128 = whole * 10 + (bytes[i] - 48) as u128;
        whole = if next < limit {
            next
        } else {
            limit
        };
        i += 1;
    }
    proof {
        lemma_point_position(text@, i as int);
        if i < length {
            assert(same_code(bytes@, text@, i as int));
        }
    }
    if i == 0 {
        proof {
            if length > 0 && text@[0] != '.' {
                lemma_not_decimal(text@, 0);
            }
        }
        return None;
    }
    if i == length {
        assert(whole_digits(text@) =~= text@.take(i as int));
        let total: u128 = whole * 100_000_000;
        assert(power_of_ten(8) == 100_000_000) by {
            reveal_with_fuel(power_of_ten, 9);
        }
        assert(fraction_units(Seq::<char>::empty()) == 0) by {
            assert(digits_value(Seq::<char>::empty()) == 0);
            assert(0 * power_of_ten(8) == 0);
        }
        return if total <= u64::MAX as u128 {
            Some(total as u64)
        } else {
            None
        };
    }
    if bytes[i] != 46 {
        proof {
            lemma_not_decimal(text@, i as int);
        }
        return None;
    }
    assert(text@[i as int] == '.');
    assert(point_position(text@) == i);
    assert(whole_digits(text@) =~= text@.take(i as int));
    let start: usize = i + 1;
    let ghost behind = fraction_digits(text@);
    assert(behind =~= text@.skip(start as int));
    let mut k: usize = start;
    let mut fraction: u64 = 0;
    let mut taken: u8 = 0;
    assert(power_of_ten(0) == 1);
    while k < length && is_digit_byte(bytes[k])
        invariant
            start <= k <= length,
            length == text@.len(),
            bytes@.len() == length,
            behind == text@.skip(start as int),
            forall|j: int| 0 <= j < length ==> #[trigger] same_code(bytes@, text@, j),
            forall|j: int| 0 <= j < k - start ==> is_digit(#[trigger] behind[j]),
            taken <= 8,
            taken == if k - start < 8 {
                k - start
            } else {
                8
            },
            fraction == digits_value(behind.take(taken as int)),
            fraction < power_of_ten(taken as nat),
            power_of_ten(taken as nat) <= 100_000_000,
        decreases length - k,
    {
        proof {
            assert(same_code(bytes@, text@, k as int));
            assert(behind[k - start] == text@[k as int]);
        }
        if taken < 8 {
            proof {
                lemma_digits_value_step(behind, taken as int);
                reveal_with_fuel(power_of_ten, 9);
            }
            fraction = fraction * 10 + (bytes[k] - 48) as u64;
            taken = taken + 1;
        }
        k += 1;
    }
    if k < length || k == start {
        proof {
            if k < length {
                assert(same_code(bytes@, text@, k as int));
                assert(behind[k - start] == text@[k as int]);
            }
        }
        return None;
    }
    assert(behind.len() == k - start);
    assert(behind.take(behind.len() as int) =~= behind);
    let ghost read = fraction;
    let ghost digits = taken;
    assert(read * 1 == read);
    while taken < 8
        invariant
            digits <= taken <= 8,
            fraction == read * power_of_ten((taken - digits) as nat),
            fraction < power_of_ten(taken as nat),
            power_of_ten(taken as nat) <= 100_000_000,
        decreases 8 - taken,
    {
        proof {
            reveal_with_fuel(power_of_ten, 9);
            assert(power_of_ten((taken + 1 - digits) as nat) == 10 * power_of_ten(
                (taken - digits) as nat,
            ));
            assert(read * (10 * power_of_ten((taken - digits) as nat)) == 10 * (read
                * power_of_ten((taken - digits) as nat))) by (nonlinear_arith);
        }
        fraction = fraction * 10;
        taken = taken + 1;
    }
    assert(fraction == fraction_units(behind));
    let total: u128 = whole * 100_000_000 + fraction as u128;
    if total <= u64::MAX as u128 {
        Some(total as u64)
    } else {
        None
    }
}

} // verus!
