//! Prices, discounts and ratings, held as whole numbers of hundredths.
//!
//! A price is a number of cents; a rating is a number of hundredths of a star.
use vstd::prelude::*;
use crate::text::{
    after, before, chars_after, chars_before, chars_of, chars_replaced, chars_without,
    replace_char, trim, trimmed, without,
};

verus! {

/// The top of the scale onto which ratings are brought, in hundredths: five stars.
pub const RATING_SCALE: u64 = 500;

pub open spec fn is_digit(c: char) -> bool {
    '0' <= c && c <= '9'
}

pub open spec fn digit_value(c: char) -> int {
    c as int - '0' as int
}

pub open spec fn all_digits(s: Seq<char>) -> bool {
    forall|i: int| 0 <= i < s.len() ==> is_digit(#[trigger] s[i])
}

/// The value of a run of decimal digits.
pub open spec fn digits_value(s: Seq<char>) -> nat
    decreases s.len(),
{
    if s.len() == 0 {
        0
    } else {
        (digits_value(s.drop_last()) * 10 + digit_value(s.last())) as nat
    }
}

/// The value in hundredths of a decimal numeral `d+` or `d+.d*`; digits past the
/// second decimal are dropped.
pub open spec fn hundredths_of(s: Seq<char>) -> Option<nat> {
    let whole = before(s, '.');
    let frac = after(s, '.');
    if whole.len() > 0 && all_digits(whole) && all_digits(frac) {
        Some(digits_value(whole) * 100 + digits_value((frac + seq!['0', '0']).take(2)))
    } else {
        None
    }
}

/// What is left of a price text once commas read as decimal points, the currency
/// signs are gone and the ends are trimmed.
pub open spec fn price_text(s: Seq<char>) -> Seq<char> {
    trim(without(without(replace_char(s, ',', '.'), '€'), '$'))
}

/// A value as a `u64`, when it fits in one.
pub open spec fn as_u64(v: Option<nat>) -> Option<u64> {
    match v {
        Some(n) => if n <= u64::MAX {
            Some(n as u64)
        } else {
            None
        },
        None => None,
    }
}

/// The discount in whole percent, rounded half up, of selling at `sales` what lists at `standard`.
pub open spec fn discount_percent(standard: int, sales: int) -> int {
    if standard == 0 {
        0
    } else {
        (200 * (standard - sales) + standard) / (2 * standard)
    }
}

/// `rating` out of `max_rating` brought onto five stars, in hundredths, rounded half up.
pub open spec fn rating_on_scale(rating: int, max_rating: int) -> int {
    (2 * RATING_SCALE * rating + max_rating) / (2 * max_rating)
}

proof fn lemma_digits_value_grows(s: Seq<char>, i: int, j: int)
    requires
        0 <= i <= j <= s.len(),
        all_digits(s),
    ensures
        digits_value(s.take(i)) <= digits_value(s.take(j)),
    decreases j - i,
{
    if i < j {
        lemma_digits_value_grows(s, i, j - 1);
        assert(s.take(j).drop_last() == s.take(j - 1));
    }
}

/// The value of the digits in `s`, or `None` when one is not a digit or the value
/// does not fit in a `u64`.
fn digits_number(s: &Vec<char>) -> (r: Option<u64>)
    ensures
        all_digits(s@) && digits_value(s@) <= u64::MAX ==> r == Some(digits_value(s@) as u64),
        !(all_digits(s@) && digits_value(s@) <= u64::MAX) ==> r is None,
{
    let mut v: u64 = 0;
    let mut i: usize = 0;
    while i < s.len()
        invariant
            i <= s@.len(),
            all_digits(s@.take(i as int)),
            v == digits_value(s@.take(i as int)),
        decreases s@.len() - i,
    {
        let c = s[i];
        proof {
            assert(s@.take(i as int + 1).drop_last() == s@.take(i as int));
        }
        if !('0' <= c && c <= '9') {
            return None;
        }
        let d: u64 = (c as u32 - '0' as u32) as u64;
        if v > (u64::MAX - d) / 10 {
            proof {
                assert(all_digits(s@.take(i as int + 1)));
                if all_digits(s@) {
                    lemma_digits_value_grows(s@, i as int + 1, s@.len() as int);
                    assert(s@.take(s@.len() as int) == s@);
                }
            }
            return None;
        }
        v = v * 10 + d;
        i = i + 1;
    }
    assert(s@.take(s@.len() as int) == s@);
    Some(v)
}

/// The hundredths of a decimal numeral, or `None` when it is not one or is too large.
fn hundredths_number(s: &Vec<char>) -> (r: Option<u64>)
    ensures
        r == as_u64(hundredths_of(s@)),
{
    let whole = chars_before(s, '.');
    let frac = chars_after(s, '.');
    let mut padded = frac.clone();
    assert(padded@ == frac@);
    padded.push('0');
    padded.push('0');
    let first: char = padded[0];
    let second: char = padded[1];
    let frac_ok = all_chars_digits(&frac);
    if whole.len() == 0 || !frac_ok {
        return None;
    }
    let w = digits_number(&whole);
    proof {
        let two = (frac@ + seq!['0', '0']).take(2);
        assert(padded@ == frac@ + seq!['0', '0']);
        assert(two.drop_last() == seq![first]);
        assert(seq![first].drop_last() =~= Seq::<char>::empty());
    }
    if !('0' <= first && first <= '9' && '0' <= second && second <= '9') {
        proof {
            assert(padded@[0] == first && padded@[1] == second);
            if frac@.len() >= 2 {
                assert(padded@[0] == frac@[0] && padded@[1] == frac@[1]);
            } else if frac@.len() == 1 {
                assert(padded@[0] == frac@[0]);
            }
        }
        return None;
    }
    let f: u64 = ((first as u32 - '0' as u32) * 10 + (second as u32 - '0' as u32)) as u64;
    match w {
        None => {
            proof {
                if all_digits(whole@) {
                    let big = digits_value(whole@);
                    let small = digits_value((frac@ + seq!['0', '0']).take(2));
                    assert(big * 100 + small > u64::MAX) by (nonlinear_arith)
                        requires
                            big > u64::MAX,
                    ;
                }
            }
            None
        },
        Some(wv) => {
            proof {
                let two = (frac@ + seq!['0', '0']).take(2);
                assert(two =~= seq![first, second]);
                assert(two.drop_last() =~= seq![first]);
                assert(digits_value(seq![first].drop_last()) == 0);
                assert(digits_value(seq![first]) == digit_value(first));
                assert(two.last() == second);
                assert(digits_value(two) == digit_value(first) * 10 + digit_value(second));
                assert(digits_value(two) == f);
            }
            if wv > (u64::MAX - f) / 100 {
                None
            } else {
                Some(wv * 100 + f)
            }
        },
    }
}

/// Whether every character of `s` is a decimal digit.
fn all_chars_digits(s: &Vec<char>) -> (r: bool)
    ensures
        r == all_digits(s@),
{
    let mut i: usize = 0;
    while i < s.len()
        invariant
            i <= s@.len(),
            forall|k: int| 0 <= k < i ==> is_digit(#[trigger] s@[k]),
        decreases s@.len() - i,
    {
        if !('0' <= s[i] && s[i] <= '9') {
            return false;
        }
        i = i + 1;
    }
    true
}

/// The amount of a price text such as `"38,95 €"`, in cents.
///
/// A comma reads as the decimal point, `€` and `$` are dropped and the ends are
/// trimmed; what is left must be digits with at most one decimal point. `None` when it is not.
pub fn parse_price_string(price: &str) -> (r: Option<u64>)
    ensures
        r == as_u64(hundredths_of(price_text(price@))),
{
    let chars = chars_of(price);
    let dotted = chars_replaced(&chars, ',', '.');
    let no_euro = chars_without(&dotted, '€');
    let bare = chars_without(&no_euro, '$');
    let text = trimmed(&bare);
    hundredths_number(&text)
}

/// The whole number that a text holds once trimmed: digits only, and no more than
/// a `u64` holds.
pub open spec fn count_of(text: Seq<char>) -> Option<u64> {
    if trim(text).len() > 0 && all_digits(trim(text)) && digits_value(trim(text)) <= u64::MAX {
        Some(digits_value(trim(text)) as u64)
    } else {
        None
    }
}

/// The whole number that a text holds once trimmed: digits only, and no more than a
/// `u64` holds; `None` otherwise.
pub fn parse_count(text: &str) -> (r: Option<u64>)
    ensures
        r == count_of(text@),
{
    let chars = chars_of(text);
    let t = trimmed(&chars);
    if t.len() == 0 {
        return None;
    }
    digits_number(&t)
}

/// A decimal text such as a rating, trimmed, in hundredths.
pub fn parse_hundredths(text: &str) -> (r: Option<u64>)
    ensures
        r == as_u64(hundredths_of(trim(text@))),
{
    let chars = chars_of(text);
    let t = trimmed(&chars);
    hundredths_number(&t)
}

/// What a discount saves and its share of the list price, or `None` when there is no sale price.
///
/// The share is in whole percent, rounded half up.
pub fn discount(price_standard: u64, price_sales: Option<u64>) -> (r: Option<(u64, u8)>)
    requires
        price_sales is Some ==> price_sales->0 <= price_standard,
    ensures
        price_sales is None ==> r is None,
        price_sales is Some ==> r == Some(
            (
                (price_standard - price_sales->0) as u64,
                discount_percent(price_standard as int, price_sales->0 as int) as u8,
            ),
        ),
        r is Some ==> (r->0).1 <= 100,
        price_sales is Some ==> 0 <= discount_percent(price_standard as int, price_sales->0 as int)
            <= 100,
{
    match price_sales {
        None => None,
        Some(sales) => {
            let saved: u64 = price_standard - sales;
            let percent: u128 = if price_standard == 0 {
                0
            } else {
                (200 * (saved as u128) + price_standard as u128) / (2 * price_standard as u128)
            };
            proof {
                if price_standard > 0 {
                    let s = price_standard as int;
                    let d = saved as int;
                    assert(200 * d + s <= 201 * s) by (nonlinear_arith)
                        requires
                            d <= s,
                    ;
                    assert(0 <= (200 * d + s) / (2 * s) <= 100) by (nonlinear_arith)
                        requires
                            200 * d + s <= 201 * s,
                            s > 0,
                            d >= 0,
                    ;
                }
            }
            Some((saved, percent as u8))
        },
    }
}

/// `rating` out of `max_rating`, brought onto five stars; all three in hundredths.
pub fn normalized_rating(rating: u64, max_rating: u64) -> (r: u64)
    requires
        0 < max_rating,
        rating <= max_rating,
    ensures
        r == rating_on_scale(rating as int, max_rating as int),
        r <= RATING_SCALE,
{
    let v: u128 = (2 * (RATING_SCALE as u128) * (rating as u128) + max_rating as u128) / (2
        * max_rating as u128);
    proof {
        let x = rating as int;
        let m = max_rating as int;
        assert(1000 * x + m <= 1001 * m) by (nonlinear_arith)
            requires
                x <= m,
        ;
        assert((1000 * x + m) / (2 * m) <= 500) by (nonlinear_arith)
            requires
                1000 * x + m <= 1001 * m,
                m > 0,
        ;
    }
    v as u64
}

} // verus!
