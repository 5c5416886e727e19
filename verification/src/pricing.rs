//! The pricing rules: the unit price, the total of an order, and how a price
//! quoted as decimal text becomes a whole number of cents.
//!
//! Every amount is an integer number of cents. A quoted price is cut off
//! after its second decimal place; nothing is rounded.

use vstd::prelude::*;
use vstd::slice::axiom_spec_len;
use vstd::utf8::{is_ascii_chars, is_ascii_chars_encode_utf8};

verus! {

/// Price of one scarf, in cents.
pub const SCARVE_PRICE: u64 = 1500;

/// The total of an order in cents: the unit price for each scarf, plus the
/// postage.
pub open spec fn total_cents(quantity: nat, postage_cents: nat) -> nat {
    SCARVE_PRICE as nat * quantity + postage_cents
}

/// The total of an order in cents. For an order that is picked up the postage
/// is zero.
pub fn price(quantity: u32, postage_cents: u32) -> (total: u64)
    ensures
        total == total_cents(quantity as nat, postage_cents as nat),
{
    SCARVE_PRICE * (quantity as u64) + (postage_cents as u64)
}

/// Whether `c` is a decimal digit.
pub open spec fn is_digit(c: char) -> bool {
    '0' <= c && c <= '9'
}

/// The number that the decimal digit `c` stands for.
pub open spec fn digit_value(c: char) -> nat {
    (c as int - '0' as int) as nat
}

/// Whether `s` holds decimal digits only.
pub open spec fn all_digits(s: Seq<char>) -> bool {
    forall|i: int| 0 <= i < s.len() ==> is_digit(#[trigger] s[i])
}

/// The number that a sequence of decimal digits stands for; zero for the
/// empty sequence.
pub open spec fn digits_value(s: Seq<char>) -> nat
    decreases s.len(),
{
    if s.len() == 0 {
        0
    } else {
        digits_value(s.drop_last()) * 10 + digit_value(s.last())
    }
}

/// The position of the first decimal point in `s`, or the length of `s`
/// where it has none.
pub open spec fn point_index(s: Seq<char>) -> int
    decreases s.len(),
{
    if s.len() == 0 || s[0] == '.' {
        0
    } else {
        1 + point_index(s.drop_first())
    }
}

/// What stands before the first decimal point.
pub open spec fn whole_part(s: Seq<char>) -> Seq<char> {
    s.subrange(0, point_index(s))
}

/// What stands after the first decimal point; empty where there is none.
pub open spec fn fraction_part(s: Seq<char>) -> Seq<char> {
    if point_index(s) < s.len() {
        s.subrange(point_index(s) + 1, s.len() as int)
    } else {
        Seq::empty()
    }
}

/// Whether `s` is a price: one or more digits, which may be followed by a
/// decimal point and any number of digits.
pub open spec fn is_price_text(s: Seq<char>) -> bool {
    &&& whole_part(s).len() > 0
    &&& all_digits(whole_part(s))
    &&& all_digits(fraction_part(s))
}

/// The value of the decimal place `i` of a fraction, zero where the fraction
/// is shorter.
pub open spec fn fraction_digit(fraction: Seq<char>, i: int) -> nat {
    if 0 <= i < fraction.len() {
        digit_value(fraction[i])
    } else {
        0
    }
}

/// The price `s` in cents, cut off after the second decimal place.
pub open spec fn price_text_cents(s: Seq<char>) -> nat {
    digits_value(whole_part(s)) * 100 + fraction_digit(fraction_part(s), 0) * 10
        + fraction_digit(fraction_part(s), 1)
}

/// The first decimal point, where there is one, stands at `point_index`, and
/// no decimal point stands before it.
pub proof fn lemma_point_index(s: Seq<char>)
    ensures
        0 <= point_index(s) <= s.len(),
        forall|j: int| 0 <= j < point_index(s) ==> s[j] != '.',
        point_index(s) < s.len() ==> s[point_index(s)] == '.',
    decreases s.len(),
{
    if s.len() == 0 || s[0] == '.' {
    } else {
        let rest = s.drop_first();
        lemma_point_index(rest);
        assert forall|j: int| 0 <= j < point_index(s) implies s[j] != '.' by {
            if j > 0 {
                assert(s[j] == rest[j - 1]);
            }
        }
        if point_index(s) < s.len() {
            assert(s[point_index(s)] == rest[point_index(rest)]);
        }
    }
}

/// A price is written in digits and at most one decimal point, so in ASCII.
pub proof fn lemma_price_text_is_ascii(s: Seq<char>)
    requires
        is_price_text(s),
    ensures
        is_ascii_chars(s),
{
    lemma_point_index(s);
    let p = point_index(s);
    assert forall|i: int| 0 <= i < s.len() implies '\0' <= #[trigger] s[i] <= '\u{7f}' by {
        if i < p {
            assert(whole_part(s)[i] == s[i]);
        } else if i > p {
            assert(fraction_part(s)[i - p - 1] == s[i]);
        }
    }
}

/// Largest number of whole currency units that is still counted exactly;
/// anything larger is known not to fit in 32 bits of cents.
const WHOLE_LIMIT: u64 = 100_000_000;

/// Reads a price given as decimal text into cents, cutting off what follows
/// the second decimal place. Returns `None` where the text is no price or the
/// number of cents does not fit in 32 bits.
pub fn parse_price_cents(text: &str) -> (r: Option<u32>)
    ensures
        r is Some <==> is_price_text(text@) && price_text_cents(text@) <= u32::MAX,
        r is Some ==> r->0 == price_text_cents(text@),
{
    if !text.is_ascii() {
        proof {
            if is_price_text(text@) {
                lemma_price_text_is_ascii(text@);
            }
        }
        return None;
    }
    let bytes = text.as_bytes();
    let n = bytes.len();
    proof {
        assert(is_ascii_chars(text@));
        is_ascii_chars_encode_utf8(text@);
        axiom_spec_len(bytes);
        lemma_point_index(text@);
    }
    let mut i: usize = 0;
    let mut whole: u64 = 0;
    while i < n && is_digit_byte(bytes[i])
        invariant
            n == text@.len(),
            n == bytes@.len(),
            forall|k: int| 0 <= k < n ==> text@[k] as u8 == #[trigger] bytes@[k],
            forall|k: int| 0 <= k < n ==> '\0' <= #[trigger] text@[k] <= '\u{7f}',
            i <= n,
            forall|j: int| 0 <= j < i ==> is_digit(#[trigger] text@[j]),
            whole <= WHOLE_LIMIT,
            whole == if digits_value(text@.subrange(0, i as int)) < WHOLE_LIMIT {
                digits_value(text@.subrange(0, i as int))
            } else {
                WHOLE_LIMIT as nat
            },
        decreases n - i,
    {
        let d = digit_of(bytes[i]);
        proof {
            let prefix = text@.subrange(0, i as int + 1);
            assert(prefix.drop_last() =~= text@.subrange(0, i as int));
            assert(prefix.last() == text@[i as int]);
        }
        whole = whole * 10 + d;
        if whole > WHOLE_LIMIT {
            whole = WHOLE_LIMIT;
        }
        i = i + 1;
    }
    if i == 0 {
        // No digit stands before the decimal point.
        proof {
            if n > 0 {
                assert(!is_digit(text@[0]));
                if text@[0] != '.' {
                    assert(point_index(text@) > 0);
                    assert(whole_part(text@)[0] == text@[0]);
                }
            }
        }
        return None;
    }
    let mut tenths: u64 = 0;
    let mut hundredths: u64 = 0;
    if i < n {
        if bytes[i] != 46 {
            proof {
                assert(text@[i as int] != '.');
                assert(point_index(text@) > i);
                assert(whole_part(text@)[i as int] == text@[i as int]);
            }
            return None;
        }
        assert(text@[i as int] == '.');
        assert(point_index(text@) == i);
        let start = i + 1;
        let mut j: usize = start;
        while j < n
            invariant
                n == text@.len(),
                n == bytes@.len(),
                forall|k: int| 0 <= k < n ==> text@[k] as u8 == #[trigger] bytes@[k],
                forall|k: int| 0 <= k < n ==> '\0' <= #[trigger] text@[k] <= '\u{7f}',
                start == i + 1,
                start <= j <= n,
                point_index(text@) == i,
                forall|k: int| start <= k < j ==> is_digit(#[trigger] text@[k]),
                tenths == fraction_digit(text@.subrange(start as int, j as int), 0),
                hundredths == fraction_digit(text@.subrange(start as int, j as int), 1),
                tenths < 10,
                hundredths < 10,
            decreases n - j,
        {
            let b = bytes[j];
            if !is_digit_byte(b) {
                proof {
                    assert(fraction_part(text@)[j - start] == text@[j as int]);
                }
                return None;
            }
            if j == start {
                tenths = digit_of(b);
            } else if j == start + 1 {
                hundredths = digit_of(b);
            }
            j = j + 1;
        }
        proof {
            assert(fraction_part(text@) =~= text@.subrange(start as int, n as int));
        }
    } else {
        assert(point_index(text@) == n);
    }
    proof {
        assert(whole_part(text@) =~= text@.subrange(0, i as int));
        assert(is_price_text(text@));
    }
    if whole >= WHOLE_LIMIT {
        return None;
    }
    let cents = whole * 100 + tenths * 10 + hundredths;
    if cents > u32::MAX as u64 {
        return None;
    }
    Some(cents as u32)
}

/// Whether the ASCII character with the code `b` is a decimal digit.
fn is_digit_byte(b: u8) -> (r: bool)
    ensures
        r == (48 <= b <= 57),
{
    48 <= b && b <= 57
}

/// The number that the decimal digit with the code `b` stands for.
fn digit_of(b: u8) -> (d: u64)
    requires
        48 <= b <= 57,
    ensures
        d == b - 48,
        d < 10,
{
    (b - 48) as u64
}

} // verus!
