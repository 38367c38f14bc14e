//! Turning the texts found on a product page into the fields of a record.
use vstd::prelude::*;
use crate::product::opt_text;
use crate::utilities::{
    as_u64, hundredths_of, normalized_rating, parse_hundredths, parse_price_string, price_text,
    rating_on_scale,
};
use crate::text::trim;

verus! {

/// The amount, in cents, of an optional price text.
pub open spec fn price_of(text: Option<Seq<char>>) -> Option<u64> {
    match text {
        Some(t) => as_u64(hundredths_of(price_text(t))),
        None => None,
    }
}

/// List and sale price from the two price regions of a page. When the struck-out
/// list price is there and reads as an amount, the page shows a sale: the list
/// price is the struck-out one, and the emphasised price is the sale price when it
/// is no higher. Otherwise the emphasised price is the list price.
pub open spec fn layout_prices(struck: Option<Seq<char>>, emphasised: Option<Seq<char>>) -> (
    Option<u64>,
    Option<u64>,
) {
    match price_of(struck) {
        Some(p) => (
            Some(p),
            match price_of(emphasised) {
                Some(e) => if e <= p {
                    Some(e)
                } else {
                    None
                },
                None => None,
            },
        ),
        None => (price_of(emphasised), None),
    }
}

/// A rating text out of `max_rating`, brought onto five stars. A text that is not a
/// number, or one above `max_rating`, gives no rating.
pub open spec fn rating_of(text: Option<Seq<char>>, max_rating: u64) -> Option<u64> {
    match text {
        Some(t) => match as_u64(hundredths_of(trim(t))) {
            Some(r) => if r <= max_rating {
                Some(rating_on_scale(r as int, max_rating as int) as u64)
            } else {
                None
            },
            None => None,
        },
        None => None,
    }
}

/// The amount of an optional price text.
pub fn price_from(text: &Option<String>) -> (r: Option<u64>)
    ensures
        r == price_of(opt_text(*text)),
{
    match text {
        Some(t) => parse_price_string(t.as_str()),
        None => None,
    }
}

/// List and sale price, read as `layout_prices` says.
pub fn prices_from(struck: &Option<String>, emphasised: &Option<String>) -> (r: (
    Option<u64>,
    Option<u64>,
))
    ensures
        r == layout_prices(opt_text(*struck), opt_text(*emphasised)),
        r.1 is Some ==> r.0 is Some && r.1->0 <= r.0->0,
{
    match price_from(struck) {
        Some(p) => {
            let sale = match price_from(emphasised) {
                Some(e) => if e <= p {
                    Some(e)
                } else {
                    None
                },
                None => None,
            };
            (Some(p), sale)
        },
        None => (price_from(emphasised), None),
    }
}

/// A rating read as `rating_of` says.
pub fn rating_from(text: &Option<String>, max_rating: u64) -> (r: Option<u64>)
    requires
        max_rating > 0,
    ensures
        r == rating_of(opt_text(*text), max_rating),
{
    match text {
        Some(t) => match parse_hundredths(t.as_str()) {
            Some(v) => if v <= max_rating {
                Some(normalized_rating(v, max_rating))
            } else {
                None
            },
            None => None,
        },
        None => None,
    }
}

} // verus!
