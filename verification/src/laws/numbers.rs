//! Laws of numbers by their bit patterns, and of decimal notation.
use crate::binary64::Binary64;
use crate::text::{decimal, digits, is_blank, trimmed_end};
use vstd::prelude::*;

verus! {

/// The pattern is that of no number: all bits of the exponent are set, and some other below.
pub open spec fn is_no_number(bits: u64) -> bool {
    0x7ff0_0000_0000_0000 < bits < 0x8000_0000_0000_0000 || 0xfff0_0000_0000_0000 < bits
}

/// Patterns without the sign bit order as they count, those with it the other way round, and
/// the latter come first, but for the two zeros, which are equal. What is no number compares
/// with nothing.
pub proof fn law_patterns_order_as_numbers(a: Binary64, b: Binary64)
    ensures
        is_no_number(a.bits) || is_no_number(b.bits) ==> !a.lt(b) && !a.le(b) && !a.equals(b),
        !is_no_number(a.bits) && !is_no_number(b.bits) ==> {
            &&& a.bits < 0x8000_0000_0000_0000 && b.bits < 0x8000_0000_0000_0000 ==> a.lt(b)
                == (a.bits < b.bits)
            &&& a.bits >= 0x8000_0000_0000_0000 && b.bits >= 0x8000_0000_0000_0000 ==> a.lt(b)
                == (b.bits < a.bits)
            &&& a.bits >= 0x8000_0000_0000_0000 && b.bits < 0x8000_0000_0000_0000 ==> a.lt(b)
                == !(a.bits == 0x8000_0000_0000_0000 && b.bits == 0)
            &&& a.bits < 0x8000_0000_0000_0000 && b.bits >= 0x8000_0000_0000_0000 ==> !a.lt(b)
            &&& a.equals(b) == (!a.lt(b) && !b.lt(a))
            &&& a.le(b) == !b.lt(a)
        },
        a.spec_is_nan() == is_no_number(a.bits),
        a.spec_is_finite() == (a.bits < 0x7ff0_0000_0000_0000 || 0x8000_0000_0000_0000 <= a.bits
            < 0xfff0_0000_0000_0000),
{
}

/// The order of numbers is transitive.
pub proof fn law_order_of_numbers_is_transitive(a: Binary64, b: Binary64, c: Binary64)
    ensures
        a.lt(b) && b.lt(c) ==> a.lt(c),
        a.le(b) && b.le(c) ==> a.le(c),
        a.lt(b) ==> a.le(b) && !b.le(a),
{
}

/// The lesser of two numbers is one of them and at most either; where one is no number it is
/// the other.
pub proof fn law_lesser_number_is_one_of_the_two(a: Binary64, b: Binary64)
    ensures
        a.spec_min(b) == a || a.spec_min(b) == b,
        !is_no_number(a.bits) ==> a.spec_min(b).le(a),
        !is_no_number(b.bits) ==> a.spec_min(b).le(b),
        is_no_number(a.bits) ==> a.spec_min(b) == b,
        is_no_number(b.bits) && !is_no_number(a.bits) ==> a.spec_min(b) == a,
        b.lt(a) ==> a.spec_min(b) == b,
        a.le(b) ==> a.spec_min(b) == a,
{
}

/// A number floored at zero is itself above zero, and zero else.
pub proof fn law_floor_keeps_what_is_above_zero(a: Binary64)
    ensures
        0 < a.bits <= 0x7ff0_0000_0000_0000 ==> a.spec_floored_at_zero() == a,
        !(0 < a.bits <= 0x7ff0_0000_0000_0000) ==> a.spec_floored_at_zero().bits == 0,
{
}

/// A number with the other sign differs in the sign bit alone, and the order turns round.
pub proof fn law_negation_turns_the_order_round(a: Binary64, b: Binary64)
    ensures
        a.bits < 0x8000_0000_0000_0000 ==> a.spec_negated().bits == a.bits
            + 0x8000_0000_0000_0000,
        a.bits >= 0x8000_0000_0000_0000 ==> a.spec_negated().bits == a.bits
            - 0x8000_0000_0000_0000,
        a.spec_negated().spec_negated() == a,
        a.lt(b) ==> b.spec_negated().lt(a.spec_negated()),
{
}

/// A power can be where it lies between minus a thousand and a thousand, which both can be.
pub proof fn law_plausible_powers_are_within_a_thousand(a: Binary64)
    ensures
        a.spec_is_plausible_power() <==> (Binary64 { bits: 0xc08f_4000_0000_0000 }).le(a) && a.le(
            Binary64 { bits: 0x408f_4000_0000_0000 },
        ),
{
}

/// The number that a text of decimal digits stands for.
pub open spec fn reading_of(text: Seq<char>) -> int
    decreases text.len(),
{
    if text.len() == 0 {
        0
    } else {
        reading_of(text.drop_last()) * 10 + (text.last() as int - 48)
    }
}

proof fn lemma_digits_read_back(n: nat)
    ensures
        reading_of(digits(n)) == n,
        digits(n).len() > 0,
        n > 0 ==> digits(n)[0] != '0',
        n == 0 ==> digits(n).len() == 1,
        forall|i: int| 0 <= i < digits(n).len() ==> '0' <= #[trigger] digits(n)[i] <= '9',
    decreases n,
{
    if n >= 10 {
        lemma_digits_read_back(n / 10);
        assert(digits(n).drop_last() =~= digits(n / 10));
    } else {
        assert(digits(n).drop_last() =~= Seq::<char>::empty());
        assert(reading_of(Seq::<char>::empty()) == 0);
    }
}

/// Decimal notation reads back as the number: a hyphen where it is below zero, and then its
/// digits, none of them a leading zero.
pub proof fn law_decimal_notation_reads_back(n: int)
    ensures
        n >= 0 ==> reading_of(decimal(n)) == n,
        n < 0 ==> decimal(n).len() > 1 && decimal(n)[0] == '-' && reading_of(decimal(n).skip(1))
            == -n,
        n > 0 ==> decimal(n)[0] != '0',
        n < 0 ==> decimal(n)[1] != '0',
        n >= 0 ==> forall|i: int|
            0 <= i < decimal(n).len() ==> '0' <= #[trigger] decimal(n)[i] <= '9',
{
    if n < 0 {
        lemma_digits_read_back((-n) as nat);
        assert(decimal(n).skip(1) =~= digits((-n) as nat));
    } else {
        lemma_digits_read_back(n as nat);
    }
}

/// A text without a character at its end is the beginning of the text, does not end with the
/// character, and lacks nothing but copies of it.
pub proof fn law_trimming_takes_the_character_alone(text: Seq<char>, c: char)
    ensures
        trimmed_end(text, c).is_prefix_of(text),
        trimmed_end(text, c).len() > 0 ==> trimmed_end(text, c).last() != c,
        forall|i: int| trimmed_end(text, c).len() <= i < text.len() ==> #[trigger] text[i] == c,
    decreases text.len(),
{
    if text.len() > 0 && text.last() == c {
        let rest = text.drop_last();
        law_trimming_takes_the_character_alone(rest, c);
        assert forall|i: int| trimmed_end(text, c).len() <= i < text.len() implies #[trigger] text[i]
            == c by {
            if i < rest.len() {
                assert(rest[i] == text[i]);
            }
        }
        assert(trimmed_end(text, c) =~= text.subrange(0, trimmed_end(text, c).len() as int));
    } else {
        assert(text =~= text.subrange(0, text.len() as int));
    }
}

/// A text is blank where every character is one of the spaces of Unicode: tab to carriage
/// return, space, next line, and the spaces at 1680, 2000 to 200a, 2028, 2029, 202f, 205f and
/// 3000.
pub proof fn law_blank_texts_hold_spaces_alone(text: Seq<char>)
    ensures
        is_blank(text) <==> forall|i: int|
            0 <= i < text.len() ==> {
                let n = #[trigger] text[i] as u32;
                (9 <= n <= 13 || n == 32 || n == 133 || n == 160 || n == 5760 || 8192
                    <= n <= 8202 || n == 8232 || n == 8233 || n == 8239 || n == 8287 || n == 12288)
            },
{
    if is_blank(text) {
        assert forall|i: int| 0 <= i < text.len() implies {
            let n = #[trigger] text[i] as u32;
            (9 <= n <= 13 || n == 32 || n == 133 || n == 160 || n == 5760 || 8192
                <= n <= 8202 || n == 8232 || n == 8233 || n == 8239 || n == 8287 || n == 12288)
        } by {
            assert(crate::text::is_white_space(text[i]));
        }
    }
}

} // verus!
