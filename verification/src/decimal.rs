//! Reading numbers from their decimal notation.

use vstd::prelude::*;
use crate::money::{digit_char, fraction_text, magnitude, money_text, natural_text, Money};
use crate::text::characters;

verus! {

/// Whether a character is one of the ten decimal digits.
pub open spec fn is_digit(c: char) -> bool {
    '0' <= c <= '9'
}

/// The value of a decimal digit.
pub open spec fn digit_value(c: char) -> int {
    c as int - '0' as int
}

/// Whether a text consists of decimal digits only.
pub open spec fn all_digits(text: Seq<char>) -> bool {
    forall|i: int| 0 <= i < text.len() ==> is_digit(#[trigger] text[i])
}

/// The number that a text of decimal digits denotes; zero for the empty
/// text.
pub open spec fn digits_value(text: Seq<char>) -> int
    decreases text.len(),
{
    if text.len() == 0 {
        0
    } else {
        digits_value(text.drop_last()) * 10 + digit_value(text.last())
    }
}

/// Whether a text starts with a sign.
pub open spec fn has_sign(text: Seq<char>) -> bool {
    text.len() > 0 && (text[0] == '-' || text[0] == '+')
}

/// What follows the sign of a text, or the whole text if it has no sign.
pub open spec fn unsigned_part(text: Seq<char>) -> Seq<char> {
    if has_sign(text) {
        text.drop_first()
    } else {
        text
    }
}

/// The integer that a text denotes: an optional sign and then at least one
/// digit. `None` for any other text.
pub open spec fn integer_notation(text: Seq<char>) -> Option<int> {
    let digits = unsigned_part(text);
    if digits.len() > 0 && all_digits(digits) {
        if text[0] == '-' {
            Some(-digits_value(digits))
        } else {
            Some(digits_value(digits))
        }
    } else {
        None
    }
}

/// The 32-bit integer that a text denotes, where it denotes one.
pub open spec fn i32_notation(text: Seq<char>) -> Option<i32> {
    match integer_notation(text) {
        Some(value) => if i32::MIN <= value <= i32::MAX {
            Some(value as i32)
        } else {
            None
        },
        None => None,
    }
}

/// The place of the first point in a text, or the length of the text if it
/// has no point.
pub open spec fn point_place(text: Seq<char>) -> int
    decreases text.len(),
{
    if text.len() == 0 {
        0
    } else if text[0] == '.' {
        0
    } else {
        1 + point_place(text.drop_first())
    }
}

/// The digits before the point of a text.
pub open spec fn whole_part(text: Seq<char>) -> Seq<char> {
    text.take(point_place(text))
}

/// The digits after the point of a text; none if it has no point.
pub open spec fn fraction_part(text: Seq<char>) -> Seq<char> {
    if point_place(text) < text.len() {
        text.skip(point_place(text) + 1)
    } else {
        Seq::empty()
    }
}

/// Whether a fraction can be held in hundredths: past its second digit
/// there are only zeros.
pub open spec fn in_hundredths(fraction: Seq<char>) -> bool {
    forall|i: int| 2 <= i < fraction.len() ==> #[trigger] fraction[i] == '0'
}

/// The hundredths that the first two digits of a fraction denote.
pub open spec fn hundredths_of(fraction: Seq<char>) -> int {
    (if fraction.len() > 0 {
        10 * digit_value(fraction[0])
    } else {
        0
    }) + (if fraction.len() > 1 {
        digit_value(fraction[1])
    } else {
        0
    })
}

/// The amount in hundredths that a text denotes: an optional sign, digits,
/// and optionally a point and more digits, with a digit on at least one
/// side of the point and nothing but zeros past the hundredths. `None` for
/// any other text.
pub open spec fn amount_notation(text: Seq<char>) -> Option<int> {
    let body = unsigned_part(text);
    let whole = whole_part(body);
    let fraction = fraction_part(body);
    if whole.len() + fraction.len() > 0 && all_digits(whole) && all_digits(fraction)
        && in_hundredths(fraction) {
        let cents = digits_value(whole) * 100 + hundredths_of(fraction);
        if text[0] == '-' {
            Some(-cents)
        } else {
            Some(cents)
        }
    } else {
        None
    }
}

/// The amount of money that a text denotes, where it denotes one that can
/// be held.
pub open spec fn money_notation(text: Seq<char>) -> Option<Money> {
    match amount_notation(text) {
        Some(cents) => if i64::MIN <= cents <= i64::MAX {
            Some(Money { cents: cents as i64 })
        } else {
            None
        },
        None => None,
    }
}

/// A text of digits denotes at least what its beginning denotes.
pub proof fn lemma_digits_value_grows(text: Seq<char>, k: int)
    requires
        all_digits(text),
        0 <= k <= text.len(),
    ensures
        0 <= digits_value(text.take(k)) <= digits_value(text),
    decreases text.len() - k,
{
    if k == text.len() {
        assert(text.take(k) =~= text);
        lemma_digits_value_natural(text);
    } else {
        lemma_digits_value_grows(text, k + 1);
        assert(text.take(k + 1).drop_last() =~= text.take(k));
        assert(is_digit(text[k]));
        lemma_digits_value_natural(text.take(k));
    }
}

/// A text of digits denotes a natural number.
pub proof fn lemma_digits_value_natural(text: Seq<char>)
    requires
        all_digits(text),
    ensures
        0 <= digits_value(text),
    decreases text.len(),
{
    if text.len() > 0 {
        lemma_digits_value_natural(text.drop_last());
        assert(is_digit(text.last()));
    }
}

/// The value of a decimal digit, `None` for any other character.
pub fn digit_of(c: char) -> (value: Option<u8>)
    ensures
        match value {
            Some(v) => is_digit(c) && v == digit_value(c),
            None => !is_digit(c),
        },
{
    if '0' <= c && c <= '9' {
        Some((c as u32 - '0' as u32) as u8)
    } else {
        None
    }
}

/// Reads the digits of `chars` from `from` up to `until`: their value if
/// all of them are digits and the value is at most `limit`.
fn read_digits(chars: &Vec<char>, from: usize, until: usize, limit: u64) -> (value: Option<u64>)
    requires
        from <= until <= chars.len(),
        limit <= u64::MAX / 10 - 1,
    ensures
        match value {
            Some(v) => all_digits(chars@.subrange(from as int, until as int)) && v == digits_value(
                chars@.subrange(from as int, until as int),
            ) && v <= limit,
            None => !all_digits(chars@.subrange(from as int, until as int)) || digits_value(
                chars@.subrange(from as int, until as int),
            ) > limit,
        },
{
    let ghost span = chars@.subrange(from as int, until as int);
    let mut value: u64 = 0;
    let mut i: usize = from;
    assert(span.take(0) =~= Seq::empty());
    while i < until
        invariant
            from <= i <= until <= chars.len(),
            span == chars@.subrange(from as int, until as int),
            all_digits(span.take(i - from)),
            value == digits_value(span.take(i - from)),
            value <= limit,
            limit <= u64::MAX / 10 - 1,
        decreases until - i,
    {
        let ghost done = span.take(i - from);
        let ghost more = span.take(i - from + 1);
        assert(more.drop_last() =~= done);
        assert(more.last() == chars@[i as int]);
        match digit_of(chars[i]) {
            None => {
                assert(!is_digit(span[i - from]));
                return None;
            },
            Some(digit) => {
                assert(all_digits(more)) by {
                    assert forall|j: int| 0 <= j < more.len() implies is_digit(#[trigger] more[j]) by {
                        if j < done.len() {
                            assert(more[j] == done[j]);
                        }
                    }
                }
                value = value * 10 + digit as u64;
                if value > limit {
                    proof {
                        if all_digits(span) {
                            lemma_digits_value_grows(span, i - from + 1);
                        }
                    }
                    return None;
                }
            },
        }
        i += 1;
    }
    assert(span.take(until - from) =~= span);
    Some(value)
}

/// Reads a 32-bit integer from its decimal notation: an optional sign and
/// then digits. `None` for any other text and for a number out of range.
pub fn parse_i32(text: &str) -> (value: Option<i32>)
    ensures
        value == i32_notation(text@),
{
    let chars = characters(text);
    let signed = chars.len() > 0 && (chars[0] == '-' || chars[0] == '+');
    let start: usize = if signed {
        1
    } else {
        0
    };
    assert(chars@.subrange(start as int, chars.len() as int) =~= unsigned_part(text@));
    if start == chars.len() {
        return None;
    }
    match read_digits(&chars, start, chars.len(), 2147483648) {
        None => None,
        Some(magnitude) => {
            if chars[0] == '-' {
                Some((-(magnitude as i64)) as i32)
            } else if magnitude <= 2147483647 {
                Some(magnitude as i32)
            } else {
                None
            }
        },
    }
}

/// The first point of a text stands where no point stands before it.
pub proof fn lemma_point_place(text: Seq<char>, place: int)
    requires
        0 <= place <= text.len(),
        forall|j: int| 0 <= j < place ==> text[j] != '.',
        place < text.len() ==> text[place] == '.',
    ensures
        point_place(text) == place,
    decreases text.len(),
{
    if text.len() > 0 && place > 0 {
        let rest = text.drop_first();
        assert forall|j: int| 0 <= j < place - 1 implies rest[j] != '.' by {
            assert(rest[j] == text[j + 1]);
        }
        lemma_point_place(rest, place - 1);
    }
}

/// Reads a fraction from `chars`, from `from` to the end: its hundredths, if
/// it consists of digits and can be held in hundredths.
fn read_fraction(chars: &Vec<char>, from: usize) -> (value: Option<u64>)
    requires
        from <= chars.len(),
    ensures
        match value {
            Some(v) => {
                &&& all_digits(chars@.skip(from as int))
                &&& in_hundredths(chars@.skip(from as int))
                &&& v == hundredths_of(chars@.skip(from as int))
                &&& v <= 99
            },
            None => !all_digits(chars@.skip(from as int)) || !in_hundredths(
                chars@.skip(from as int),
            ),
        },
{
    let ghost fraction = chars@.skip(from as int);
    let mut value: u64 = 0;
    let mut i: usize = from;
    while i < chars.len()
        invariant
            from <= i <= chars.len(),
            fraction == chars@.skip(from as int),
            forall|j: int| 0 <= j < i - from ==> is_digit(#[trigger] fraction[j]),
            forall|j: int| 2 <= j < i - from ==> #[trigger] fraction[j] == '0',
            value == hundredths_of(fraction.take(i - from)),
            value <= 99,
            i - from <= 1 ==> value % 10 == 0,
            i == from ==> value == 0,
        decreases chars.len() - i,
    {
        assert(fraction[i - from] == chars@[i as int]);
        match digit_of(chars[i]) {
            None => {
                return None;
            },
            Some(digit) => {
                if i - from == 0 {
                    value = 10 * (digit as u64);
                } else if i - from == 1 {
                    value = value + digit as u64;
                } else if digit != 0 {
                    assert(fraction[i - from] != '0');
                    return None;
                }
            },
        }
        i += 1;
    }
    assert(fraction.take(chars.len() - from) =~= fraction);
    Some(value)
}

impl Money {
    /// Reads an amount from its decimal notation: an optional sign, digits,
    /// and optionally a point and more digits. `None` for any other text,
    /// for a fraction finer than hundredths, and for an amount that cannot
    /// be held.
    pub fn parse(text: &str) -> (amount: Option<Money>)
        ensures
            amount == money_notation(text@),
    {
        let chars = characters(text);
        let signed = chars.len() > 0 && (chars[0] == '-' || chars[0] == '+');
        let start: usize = if signed {
            1
        } else {
            0
        };
        let ghost body = unsigned_part(text@);
        assert(chars@.skip(start as int) =~= body);
        let mut point: usize = start;
        while point < chars.len() && chars[point] != '.'
            invariant
                start <= point <= chars.len(),
                forall|j: int| start <= j < point ==> chars@[j] != '.',
            decreases chars.len() - point,
        {
            point += 1;
        }
        proof {
            assert forall|j: int| 0 <= j < point - start implies body[j] != '.' by {
                assert(body[j] == chars@[start + j]);
            }
            lemma_point_place(body, point - start);
            assert(chars@.subrange(start as int, point as int) =~= whole_part(body));
        }
        let after: usize = if point < chars.len() {
            point + 1
        } else {
            point
        };
        assert(chars@.skip(after as int) =~= fraction_part(body));
        if point - start + (chars.len() - after) == 0 {
            return None;
        }
        let whole = match read_digits(&chars, start, point, 92233720368547758) {
            None => {
                proof {
                    if all_digits(whole_part(body)) && all_digits(fraction_part(body)) {
                        assert(hundredths_of(fraction_part(body)) >= 0) by {
                            if fraction_part(body).len() > 0 {
                                assert(is_digit(fraction_part(body)[0]));
                            }
                            if fraction_part(body).len() > 1 {
                                assert(is_digit(fraction_part(body)[1]));
                            }
                        }
                    }
                }
                return None;
            },
            Some(whole) => whole,
        };
        let hundredths = match read_fraction(&chars, after) {
            None => {
                return None;
            },
            Some(hundredths) => hundredths,
        };
        let cents: u64 = whole * 100 + hundredths;
        if chars[0] == '-' {
            if cents <= 9223372036854775807 {
                Some(Money { cents: -(cents as i64) })
            } else if cents == 9223372036854775808 {
                Some(Money { cents: i64::MIN })
            } else {
                None
            }
        } else if cents <= 9223372036854775807 {
            Some(Money { cents: cents as i64 })
        } else {
            None
        }
    }
}

/// Each decimal digit is written by a digit character, which denotes it.
pub proof fn lemma_digit_reads_back(d: int)
    requires
        0 <= d <= 9,
    ensures
        is_digit(digit_char(d)),
        digit_value(digit_char(d)) == d,
{
}

/// The notation of a natural number consists of digits, which denote it.
pub proof fn lemma_natural_reads_back(n: nat)
    ensures
        natural_text(n).len() > 0,
        all_digits(natural_text(n)),
        digits_value(natural_text(n)) == n,
    decreases n,
{
    let text = natural_text(n);
    if n < 10 {
        lemma_digit_reads_back(n as int);
        assert(text.drop_last() =~= Seq::<char>::empty());
        assert(digits_value(text.drop_last()) == 0);
    } else {
        lemma_natural_reads_back(n / 10);
        lemma_digit_reads_back((n % 10) as int);
        assert(text.drop_last() =~= natural_text(n / 10));
        assert forall|i: int| 0 <= i < text.len() implies is_digit(#[trigger] text[i]) by {
            if i < text.len() - 1 {
                assert(text[i] == natural_text(n / 10)[i]);
            }
        }
    }
}

/// The notation of an amount reads back as that amount.
pub proof fn law_rendered_amount_reads_back(amount: Money)
    ensures
        money_notation(money_text(amount.cents as int)) == Some(amount),
{
    let cents = amount.cents as int;
    let size = magnitude(cents);
    let whole = natural_text(size / 100);
    let fraction = fraction_text(size % 100);
    let text = money_text(cents);
    let body = whole + fraction;
    lemma_natural_reads_back(size / 100);
    lemma_digit_reads_back(((size % 100) / 10) as int);
    lemma_digit_reads_back(((size % 100) % 10) as int);
    assert(is_digit(whole[0]));
    if cents < 0 {
        assert(text[0] == '-');
        assert(text.drop_first() =~= body);
    } else {
        assert(text =~= body);
        assert(text[0] == whole[0]);
    }
    assert(unsigned_part(text) == body);
    assert forall|j: int| 0 <= j < whole.len() implies body[j] != '.' by {
        assert(is_digit(whole[j]));
    }
    if fraction.len() > 0 {
        assert(body[whole.len() as int] == fraction[0]);
    }
    lemma_point_place(body, whole.len() as int);
    assert(whole_part(body) =~= whole);
    let digits = fraction_part(body);
    if fraction.len() == 0 {
        assert(digits =~= Seq::<char>::empty());
    } else {
        assert(digits =~= fraction.drop_first());
        assert(digits[0] == fraction[1]);
        if fraction.len() > 2 {
            assert(digits[1] == fraction[2]);
        }
    }
    assert(all_digits(digits));
    assert(in_hundredths(digits));
    assert(hundredths_of(digits) == size % 100);
    assert(amount_notation(text) == Some(cents));
}

} // verus!
