//! The lines that show products and tones in a terminal.
use vstd::prelude::*;
use crate::product::{effective_price, opt_text, Product, Tone};
use crate::text::{chars_of, decimal, decimal_chars, string_of};
use crate::utilities::discount_percent;

verus! {

/// `s` wrapped in the terminal codes that strike it through (`ESC[9m`) and then
/// reset all styles (`ESC[0m`).
pub open spec fn struck_through(s: Seq<char>) -> Seq<char> {
    seq!['\u{1b}', '[', '9', 'm'] + s + seq!['\u{1b}', '[', '0', 'm']
}

/// Relies on `ansi_term::Style::strikethrough` and `Style::paint`: a style with
/// strikethrough alone writes `ESC[9m` before the text and `ESC[0m` after it.
#[verifier::external_body]
fn strike(s: &str) -> (r: String)
    ensures
        r@ == struck_through(s@),
{
    ansi_term::Style::new().strikethrough().paint(s).to_string()
}

/// The character of a decimal digit.
pub open spec fn digit(n: nat) -> char {
    (n + '0' as nat) as char
}

/// An amount in hundredths as a decimal: whole units, then the hundredths without
/// trailing zeros (`500` reads `5`, `1050` reads `10.5`, `5099` reads `50.99`).
pub open spec fn amount_text(c: nat) -> Seq<char> {
    let whole = decimal(c / 100);
    let f = c % 100;
    if f == 0 {
        whole
    } else if f % 10 == 0 {
        whole + seq!['.', digit(f / 10)]
    } else {
        whole + seq!['.', digit(f / 10), digit(f % 10)]
    }
}

/// A similarity in millionths as a percentage with two decimals, rounded half up.
pub open spec fn percent_text(ppm: nat) -> Seq<char> {
    let h = (ppm + 50) / 100;
    decimal(h / 100) + seq!['.', digit((h % 100) / 10), digit(h % 10)]
}

/// An optional amount, or nothing.
pub open spec fn opt_amount(o: Option<u64>) -> Seq<char> {
    match o {
        Some(c) => amount_text(c as nat),
        None => Seq::empty(),
    }
}

/// The price part of a line: the list price struck through followed by the sale
/// price and the discount when on sale, else the list price.
pub open spec fn price_part(standard: Option<u64>, sales: Option<u64>) -> Seq<char> {
    match sales {
        Some(s) => {
            let percent = match standard {
                Some(p) => if s <= p {
                    discount_percent(p as int, s as int)
                } else {
                    0
                },
                None => 0,
            };
            struck_through(opt_amount(standard)) + "€ "@ + amount_text(s as nat) + "€("@ + decimal(
                percent as nat,
            ) + "%)"@
        },
        None => opt_amount(standard) + "€"@,
    }
}

/// The rating part of a line, or nothing.
pub open spec fn rating_part(r: Option<u64>) -> Seq<char> {
    match r {
        Some(x) => " - "@ + amount_text(x as nat) + "⭐"@,
        None => Seq::empty(),
    }
}

/// An optional text, or nothing.
pub open spec fn text_or_empty(o: Option<String>) -> Seq<char> {
    match opt_text(o) {
        Some(s) => s,
        None => Seq::empty(),
    }
}

/// The line of a tone.
pub open spec fn tone_line(t: Tone) -> Seq<char> {
    "    - "@ + (if t.available {
        "✔️   "@
    } else {
        "❌   "@
    }) + text_or_empty(t.name) + " - "@ + price_part(t.price_standard, t.price_sales)
        + rating_part(t.rating)
}

/// The lowest price among the tones that have one.
pub open spec fn lowest(ts: Seq<Tone>) -> Option<u64>
    decreases ts.len(),
{
    if ts.len() == 0 {
        None
    } else {
        let rest = lowest(ts.drop_last());
        match effective_price(ts.last().price_standard, ts.last().price_sales) {
            None => rest,
            Some(p) => match rest {
                None => Some(p),
                Some(q) => Some(if p < q { p } else { q }),
            },
        }
    }
}

/// The highest price among the tones that have one.
pub open spec fn highest(ts: Seq<Tone>) -> Option<u64>
    decreases ts.len(),
{
    if ts.len() == 0 {
        None
    } else {
        let rest = highest(ts.drop_last());
        match effective_price(ts.last().price_standard, ts.last().price_sales) {
            None => rest,
            Some(p) => match rest {
                None => Some(p),
                Some(q) => Some(if p > q { p } else { q }),
            },
        }
    }
}

/// The price range of a list of tones, lowest to highest, or nothing when none has a price.
pub open spec fn range_text(ts: Seq<Tone>) -> Seq<char> {
    match (lowest(ts), highest(ts)) {
        (Some(a), Some(b)) => amount_text(a as nat) + "€-"@ + amount_text(b as nat) + "€"@,
        _ => Seq::empty(),
    }
}

/// The line of a product: similarity, name, brand, price or price range of its
/// tones, rating and link.
pub open spec fn product_line(p: Product) -> Seq<char> {
    "- "@ + percent_text(p.similarity as nat) + "%. "@ + p.name@ + " - "@ + text_or_empty(p.brand)
        + " - "@ + match p.tones {
        Some(ts) => range_text(ts@),
        None => price_part(p.price_standard, p.price_sales),
    } + rating_part(p.rating) + ": "@ + p.link@
}

fn append(out: &mut Vec<char>, s: &Vec<char>)
    ensures
        final(out)@ == old(out)@ + s@,
{
    let mut i: usize = 0;
    while i < s.len()
        invariant
            i <= s@.len(),
            out@ == old(out)@ + s@.take(i as int),
        decreases s@.len() - i,
    {
        out.push(s[i]);
        i = i + 1;
        assert(out@ =~= old(out)@ + s@.take(i as int));
    }
    assert(s@.take(s@.len() as int) =~= s@);
}

fn append_str(out: &mut Vec<char>, s: &str)
    ensures
        final(out)@ == old(out)@ + s@,
{
    let c = chars_of(s);
    append(out, &c);
}

fn digit_char(n: u64) -> (r: char)
    requires
        n < 10,
    ensures
        r == digit(n as nat),
{
    ((n as u32) + ('0' as u32)) as u8 as char
}

/// An amount in hundredths, written as `amount_text` says.
pub fn amount_chars(c: u64) -> (r: Vec<char>)
    ensures
        r@ == amount_text(c as nat),
{
    let mut out = decimal_chars(c / 100);
    let f = c % 100;
    if f != 0 {
        out.push('.');
        out.push(digit_char(f / 10));
        if f % 10 != 0 {
            out.push(digit_char(f % 10));
        }
    }
    out
}

fn percent_chars(ppm: u32) -> (r: Vec<char>)
    ensures
        r@ == percent_text(ppm as nat),
{
    let h: u64 = (ppm as u64 + 50) / 100;
    let mut out = decimal_chars(h / 100);
    out.push('.');
    out.push(digit_char((h % 100) / 10));
    out.push(digit_char(h % 10));
    out
}

fn optional_amount(o: Option<u64>) -> (r: Vec<char>)
    ensures
        r@ == opt_amount(o),
{
    match o {
        Some(c) => amount_chars(c),
        None => Vec::new(),
    }
}

fn append_price(out: &mut Vec<char>, standard: Option<u64>, sales: Option<u64>)
    ensures
        final(out)@ == old(out)@ + price_part(standard, sales),
{
    match sales {
        Some(s) => {
            let percent: u8 = match standard {
                Some(p) => if s <= p {
                    match crate::utilities::discount(p, Some(s)) {
                        Some(d) => d.1,
                        None => 0,
                    }
                } else {
                    0
                },
                None => 0,
            };
            let ghost start = out@;
            let listed = optional_amount(standard);
            let listed_text = string_of(&listed);
            let struck = strike(listed_text.as_str());
            append_str(out, struck.as_str());
            append_str(out, "€ ");
            append(out, &amount_chars(s));
            append_str(out, "€(");
            append(out, &decimal_chars(percent as u64));
            append_str(out, "%)");
            assert(out@ =~= start + price_part(standard, sales));
        },
        None => {
            let ghost start = out@;
            append(out, &optional_amount(standard));
            append_str(out, "€");
            assert(out@ =~= start + price_part(standard, sales));
        },
    }
}

fn append_rating(out: &mut Vec<char>, rating: Option<u64>)
    ensures
        final(out)@ == old(out)@ + rating_part(rating),
{
    match rating {
        Some(x) => {
            let ghost start = out@;
            append_str(out, " - ");
            append(out, &amount_chars(x));
            append_str(out, "⭐");
            assert(out@ =~= start + rating_part(rating));
        },
        None => {
            assert(out@ =~= out@ + rating_part(rating));
        },
    }
}

fn append_opt_text(out: &mut Vec<char>, o: &Option<String>)
    ensures
        final(out)@ == old(out)@ + text_or_empty(*o),
{
    match o {
        Some(s) => append_str(out, s.as_str()),
        None => {
            assert(out@ =~= out@ + text_or_empty(*o));
        },
    }
}

fn price_range(ts: &Vec<Tone>) -> (r: (Option<u64>, Option<u64>))
    ensures
        r.0 == lowest(ts@),
        r.1 == highest(ts@),
{
    let mut lo: Option<u64> = None;
    let mut hi: Option<u64> = None;
    let mut i: usize = 0;
    while i < ts.len()
        invariant
            i <= ts@.len(),
            lo == lowest(ts@.take(i as int)),
            hi == highest(ts@.take(i as int)),
        decreases ts@.len() - i,
    {
        proof {
            let t = ts@.take(i as int + 1);
            assert(t.drop_last() =~= ts@.take(i as int));
            assert(t.last() == ts@[i as int]);
        }
        match ts[i].price() {
            Some(p) => {
                lo = match lo {
                    None => Some(p),
                    Some(q) => Some(if p < q { p } else { q }),
                };
                hi = match hi {
                    None => Some(p),
                    Some(q) => Some(if p > q { p } else { q }),
                };
            },
            None => {},
        }
        i = i + 1;
    }
    assert(ts@.take(ts@.len() as int) =~= ts@);
    (lo, hi)
}

impl Tone {
    /// The line that shows this tone in a terminal: availability, name, price (the
    /// list price struck through, the sale price and the discount when on sale) and rating.
    pub fn terminal_format(&self) -> (r: String)
        ensures
            r@ == tone_line(*self),
    {
        let mut out: Vec<char> = Vec::new();
        append_str(&mut out, "    - ");
        if self.available {
            append_str(&mut out, "✔️   ");
        } else {
            append_str(&mut out, "❌   ");
        }
        append_opt_text(&mut out, &self.name);
        append_str(&mut out, " - ");
        append_price(&mut out, self.price_standard, self.price_sales);
        append_rating(&mut out, self.rating);
        assert(out@ =~= tone_line(*self));
        string_of(&out)
    }
}

impl Product {
    /// The line that shows this product in a terminal: similarity, name, brand, its
    /// price (or the range of its tones' prices), rating and link.
    pub fn terminal_format(&self) -> (r: String)
        ensures
            r@ == product_line(*self),
    {
        let mut out: Vec<char> = Vec::new();
        append_str(&mut out, "- ");
        append(&mut out, &percent_chars(self.similarity));
        append_str(&mut out, "%. ");
        append_str(&mut out, self.name.as_str());
        append_str(&mut out, " - ");
        append_opt_text(&mut out, &self.brand);
        append_str(&mut out, " - ");
        match &self.tones {
            Some(ts) => {
                let (lo, hi) = price_range(ts);
                match (lo, hi) {
                    (Some(a), Some(b)) => {
                        append(&mut out, &amount_chars(a));
                        append_str(&mut out, "€-");
                        append(&mut out, &amount_chars(b));
                        append_str(&mut out, "€");
                    },
                    _ => {},
                }
            },
            None => append_price(&mut out, self.price_standard, self.price_sales),
        }
        append_rating(&mut out, self.rating);
        append_str(&mut out, ": ");
        append_str(&mut out, self.link.as_str());
        assert(out@ =~= product_line(*self));
        string_of(&out)
    }
}

} // verus!
