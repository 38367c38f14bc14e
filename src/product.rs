//! The records that a search produces: products and their tones.
use vstd::prelude::*;
use crate::configuration::SIMILARITY_SCALE;
use crate::text::{chars_concat, chars_of, string_of};

verus! {

/// The characters of an optional text.
pub open spec fn opt_text(o: Option<String>) -> Option<Seq<char>> {
    match o {
        Some(s) => Some(s@),
        None => None,
    }
}

/// A purchasable variant of a product, such as a shade.
#[derive(Clone, Debug, PartialEq)]
pub struct Tone {
    /// Name of the tone.
    pub name: Option<String>,
    /// The list price, in cents.
    pub price_standard: Option<u64>,
    /// The price on sale, in cents, when the tone is discounted.
    pub price_sales: Option<u64>,
    /// Whether the tone can be bought now.
    pub available: bool,
    /// The tone's own page, when it has one.
    pub url: Option<String>,
    /// The rating, in hundredths of a star.
    pub rating: Option<u64>,
}

/// A tone with its texts as characters.
pub struct ToneView {
    pub name: Option<Seq<char>>,
    pub price_standard: Option<u64>,
    pub price_sales: Option<u64>,
    pub available: bool,
    pub url: Option<Seq<char>>,
    pub rating: Option<u64>,
}

impl View for Tone {
    type V = ToneView;

    open spec fn view(&self) -> ToneView {
        ToneView {
            name: opt_text(self.name),
            price_standard: self.price_standard,
            price_sales: self.price_sales,
            available: self.available,
            url: opt_text(self.url),
            rating: self.rating,
        }
    }
}

/// The price that applies: the sale price when there is one, else the list price.
pub open spec fn effective_price(price_standard: Option<u64>, price_sales: Option<u64>) -> Option<
    u64,
> {
    if price_sales is Some {
        price_sales
    } else {
        price_standard
    }
}

impl Tone {
    pub fn new(
        name: Option<String>,
        price_standard: Option<u64>,
        price_sales: Option<u64>,
        available: bool,
        url: Option<String>,
        rating: Option<u64>,
    ) -> (r: Self)
        ensures
            r.name == name,
            r.price_standard == price_standard,
            r.price_sales == price_sales,
            r.available == available,
            r.url == url,
            r.rating == rating,
    {
        Tone { name, price_standard, price_sales, available, url, rating }
    }

    /// The price that applies, whether or not the tone is on sale.
    pub fn price(&self) -> (r: Option<u64>)
        ensures
            r == effective_price(self.price_standard, self.price_sales),
    {
        if self.price_sales.is_some() {
            self.price_sales
        } else {
            self.price_standard
        }
    }
}

/// A result matched against the query.
#[derive(Clone, Debug, PartialEq)]
pub struct Product {
    /// The product name.
    pub name: String,
    /// The brand name.
    pub brand: Option<String>,
    /// The link to the product page.
    pub link: String,
    /// The list price, in cents.
    pub price_standard: Option<u64>,
    /// The price on sale, in cents.
    pub price_sales: Option<u64>,
    /// The rating, in hundredths of a star.
    pub rating: Option<u64>,
    /// How close brand and name come to the query, in millionths.
    pub similarity: u32,
    /// Whether the product can be bought now.
    pub available: bool,
    /// The tones of this product, never an empty list.
    pub tones: Option<Vec<Tone>>,
}

impl Product {
    /// Whether the record is in range: a similarity no higher than a perfect match,
    /// and tones, when there are any, never an empty list.
    pub open spec fn wf(&self) -> bool {
        &&& self.similarity <= SIMILARITY_SCALE
        &&& self.tones is Some ==> self.tones->0@.len() > 0
    }

    /// Sets how close the product comes to the query, in millionths.
    pub fn set_similarity(&mut self, similarity: u32)
        requires
            similarity <= SIMILARITY_SCALE,
        ensures
            final(self).similarity == similarity,
            final(self).name == old(self).name,
            final(self).brand == old(self).brand,
            final(self).link == old(self).link,
            final(self).price_standard == old(self).price_standard,
            final(self).price_sales == old(self).price_sales,
            final(self).rating == old(self).rating,
            final(self).available == old(self).available,
            final(self).tones == old(self).tones,
            old(self).wf() ==> final(self).wf(),
    {
        self.similarity = similarity;
    }

    pub fn new(
        name: String,
        brand: Option<String>,
        link: String,
        price_standard: Option<u64>,
        price_sales: Option<u64>,
        tones: Option<Vec<Tone>>,
        rating: Option<u64>,
        similarity: u32,
        available: bool,
    ) -> (r: Self)
        ensures
            r.name == name,
            r.brand == brand,
            r.link == link,
            r.price_standard == price_standard,
            r.price_sales == price_sales,
            r.tones == tones,
            r.rating == rating,
            r.similarity == similarity,
            r.available == available,
    {
        Product {
            name,
            brand,
            link,
            price_standard,
            price_sales,
            rating,
            similarity,
            available,
            tones,
        }
    }

    /// The price that applies to the product itself, whether or not it is on sale.
    pub fn price(&self) -> (r: Option<u64>)
        ensures
            r == effective_price(self.price_standard, self.price_sales),
    {
        if self.price_sales.is_some() {
            self.price_sales
        } else {
            self.price_standard
        }
    }

    /// Brand and name as one text, `{brand} {name}`, to be compared with a query;
    /// an absent brand counts as empty.
    pub fn full_name(&self) -> (r: String)
        ensures
            r@ == match opt_text(self.brand) {
                Some(b) => b,
                None => Seq::<char>::empty(),
            } + seq![' '] + self.name@,
    {
        let b = match &self.brand {
            Some(s) => chars_of(s.as_str()),
            None => Vec::new(),
        };
        let mut space: Vec<char> = Vec::new();
        space.push(' ');
        let n = chars_of(self.name.as_str());
        let bs = chars_concat(&b, &space);
        let all = chars_concat(&bs, &n);
        string_of(&all)
    }

    /// Adds a tone at the end of the product's tones.
    pub fn add_tone(&mut self, tone: Tone)
        ensures
            final(self).tones is Some,
            final(self).tones->0@ == match old(self).tones {
                Some(v) => v@.push(tone),
                None => seq![tone],
            },
            final(self).name == old(self).name,
            final(self).brand == old(self).brand,
            final(self).link == old(self).link,
            final(self).price_standard == old(self).price_standard,
            final(self).price_sales == old(self).price_sales,
            final(self).rating == old(self).rating,
            final(self).similarity == old(self).similarity,
            final(self).available == old(self).available,
            old(self).similarity <= SIMILARITY_SCALE ==> final(self).wf(),
    {
        let mut list: Vec<Tone> = match self.tones.take() {
            Some(v) => v,
            None => Vec::new(),
        };
        list.push(tone);
        self.tones = Some(list);
    }
}

} // verus!
