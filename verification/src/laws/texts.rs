//! Laws of the text helpers.

use crate::adaptive_concurrency::request::can_extend;
use crate::adaptive_concurrency::request::kept_chars;
use crate::text::decimal;
use crate::text::decimal_text;
use crate::text::is_digit;
use crate::text::number;
use crate::text::parse_number;
use crate::text::take_chars;
use crate::text::trim_end;
use crate::text::trimmed_end;
use vstd::prelude::*;

verus! {

/// A number is written with its decimal digits, the highest first, and with no more of them than it
/// needs.
pub proof fn law_numbers_are_written_in_decimal(n: u16, r: String)
    requires
        call_ensures(decimal_text, (n,), r),
    ensures
        r@.len() == (if n < 10 {
            1int
        } else if n < 100 {
            2
        } else if n < 1000 {
            3
        } else if n < 10000 {
            4
        } else {
            5
        }),
        r@[r@.len() - 1] == ((48 + n % 10) as u32) as char,
        n >= 10 ==> r@[r@.len() - 2] == ((48 + n / 10 % 10) as u32) as char,
        n >= 100 ==> r@[r@.len() - 3] == ((48 + n / 100 % 10) as u32) as char,
        n >= 1000 ==> r@[r@.len() - 4] == ((48 + n / 1000 % 10) as u32) as char,
        n >= 10000 ==> r@[r@.len() - 5] == ((48 + n / 10000 % 10) as u32) as char,
{
    reveal_with_fuel(decimal, 6);
    let m = n as nat;
    assert(m / 10 / 10 == m / 100);
    assert(m / 100 / 10 == m / 1000);
    assert(m / 1000 / 10 == m / 10000);
}

/// Nothing, and anything that holds a character other than a decimal digit, is no number.
pub proof fn law_only_digits_are_numbers(text: &str, i: int, r: Option<u64>)
    requires
        call_ensures(parse_number, (text,), r),
        text@.len() == 0 || (0 <= i < text@.len() && !('0' <= text@[i] <= '9')),
    ensures
        r is None,
{
    if text@.len() > 0 {
        assert(!is_digit(text@[i]));
    }
}

/// One digit is the number that it writes.
pub proof fn law_one_digit_is_its_number(text: &str, r: Option<u64>)
    requires
        call_ensures(parse_number, (text,), r),
        text@.len() == 1,
        '0' <= text@[0] <= '9',
    ensures
        r matches Some(n) && n == text@[0] as u64 - '0' as u64,
{
    reveal_with_fuel(number, 2);
    assert(text@.drop_last().len() == 0);
}

/// One more digit makes a number ten times as large and adds the digit; where that is over 64 bits,
/// or there was no number before, there is none.
pub proof fn law_one_more_digit(
    shorter: &str,
    longer: &str,
    digit: char,
    a: Option<u64>,
    b: Option<u64>,
)
    requires
        call_ensures(parse_number, (shorter,), a),
        call_ensures(parse_number, (longer,), b),
        shorter@.len() > 0,
        '0' <= digit <= '9',
        longer@ == shorter@.push(digit),
    ensures
        match a {
            Some(n) => if 10 * n + (digit as u64 - '0' as u64) <= u64::MAX {
                b matches Some(m) && m == 10 * n + (digit as u64 - '0' as u64)
            } else {
                b is None
            },
            None => b is None,
        },
{
    assert(longer@.drop_last() =~= shorter@);
    assert(longer@.last() == digit);
    assert(forall|i: int| 0 <= i < shorter@.len() ==> shorter@[i] == longer@[i]);
    if b is Some {
        assert forall|i: int| 0 <= i < shorter@.len() implies is_digit(#[trigger] shorter@[i]) by {
            assert(is_digit(longer@[i]));
        }
    }
    if a is Some {
        assert forall|i: int| 0 <= i < longer@.len() implies is_digit(#[trigger] longer@[i]) by {
            if i < shorter@.len() {
                assert(is_digit(shorter@[i]));
            }
        }
    }
}

proof fn lemma_trimmed(s: Seq<char>, c: char)
    ensures
        trimmed_end(s, c).len() <= s.len(),
        trimmed_end(s, c) == s.take(trimmed_end(s, c).len() as int),
        forall|i: int| trimmed_end(s, c).len() <= i < s.len() ==> s[i] == c,
        trimmed_end(s, c).len() > 0 ==> trimmed_end(s, c).last() != c,
    decreases s.len(),
{
    if s.len() > 0 && s.last() == c {
        let rest = s.drop_last();
        lemma_trimmed(rest, c);
        assert(rest.take(trimmed_end(rest, c).len() as int) =~= s.take(
            trimmed_end(rest, c).len() as int,
        ));
        assert forall|i: int| trimmed_end(s, c).len() <= i < s.len() implies s[i] == c by {
            if i < rest.len() {
                assert(rest[i] == c);
            }
        }
    } else {
        assert(s.take(s.len() as int) =~= s);
    }
}

/// What is cut from the end of a text is a run of the one character, and all of it.
pub proof fn law_only_the_run_is_cut(s: &str, c: char, r: String)
    requires
        call_ensures(trim_end, (s, c), r),
    ensures
        r@.len() <= s@.len(),
        s@ == r@ + Seq::new((s@.len() - r@.len()) as nat, |i: int| c),
        r@.len() > 0 ==> r@.last() != c,
{
    lemma_trimmed(s@, c);
    assert(s@ =~= r@ + Seq::new((s@.len() - r@.len()) as nat, |i: int| c));
}

/// What is taken of a text is its beginning, of the length that is asked for, or all of it.
pub proof fn law_beginning_is_taken(s: &str, n: usize, r: String)
    requires
        call_ensures(take_chars, (s, n), r),
    ensures
        s@.len() <= n ==> r@ == s@,
        s@.len() > n ==> r@ == s@.subrange(0, n as int),
{
}

/// Of an empty text nothing is kept.
pub proof fn law_nothing_kept_of_nothing(text: &str, r: usize)
    requires
        call_ensures(kept_chars, (text,), r),
        text@.len() == 0,
    ensures
        r == 0,
{
}

/// One more character is one more that is kept, unless it is a tab or a line end.
pub proof fn law_one_more_character(shorter: &str, longer: &str, c: char, a: usize, b: usize)
    requires
        call_ensures(kept_chars, (shorter,), a),
        call_ensures(kept_chars, (longer,), b),
        longer@ == shorter@.push(c),
    ensures
        b == a + (if c == '\t' || c == '\n' || c == '\r' {
            0int
        } else {
            1
        }),
{
    assert(longer@.drop_last() =~= shorter@);
    assert(longer@.last() == c);
}

/// A URL can be extended while it fits 32 bits with 12 bytes for each character and 16 more.
pub proof fn law_extension_fits_32_bits(len: usize, added: u128, r: bool)
    requires
        call_ensures(can_extend, (len, added), r),
    ensures
        r <==> len + 12 * added + 16 < 0x1_0000_0000,
{
}

} // verus!
