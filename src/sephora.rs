//! The adapter for sephora.es.
//!
//! A search that matches one product exactly is redirected to that product's page,
//! whose address holds `/p/`; any other search lands on a grid of results. A
//! product page lists its tones in a block of its own, each with name, price and a
//! green dot when it is in stock.
use vstd::prelude::*;
use scraper::{ElementRef, Html};
use crate::configuration::Configuration;
use crate::fields::{price_of, rating_from, rating_of};
use crate::listing::{select_result_urls, selection, result_view, ListingRow};
use crate::product::{opt_text, Product, Tone};
use crate::scrappable::SearchError;
use crate::scrapping::{
    attribute_within, document_attribute, document_count, document_inner, first_attribute,
    first_inner, has_html_selector, inner_html_opt, inner_within, match_count, row_attribute,
    row_inner, count_in_first, inner_in_first, first_block_count, first_block_inner, element_inner,
};
use crate::text::{
    after, before, chars_after, chars_before, chars_concat, chars_contain, chars_of,
    chars_replaced, index_of, occurs_in, replace_char, string_of, trim, trimmed,
};
use crate::utilities::parse_price_string;

verus! {

/// The search page of the site.
pub const SEARCH_PREFIX: &'static str = "https://www.sephora.es/buscar?q=";

/// What the address of a product page holds.
pub const PRODUCT_PATH: &'static str = "/p/";

/// The top of the site's rating scale, in hundredths: five stars.
pub const MAX_RATING: u64 = 500;

/// The address of a search for `name`, words joined by `+`.
pub open spec fn search_address(name: Seq<char>) -> Seq<char> {
    SEARCH_PREFIX@ + replace_char(name, ' ', '+')
}

/// The price of a tone from the text of its price block, whose second line holds
/// the amount. A block of one line, or a second line that is not an amount (empty,
/// `N/A`), gives no price.
pub open spec fn tone_price(text: Seq<char>) -> Option<u64> {
    if index_of(text, '\n') < text.len() {
        price_of(Some(before(after(text, '\n'), '\n')))
    } else {
        None
    }
}

/// The fields of a tone from the texts of its row, as `create_tone` reads them.
pub open spec fn tone_of(title: Option<Seq<char>>, in_stock: bool, price: Option<Seq<char>>) -> crate::product::ToneView {
    crate::product::ToneView {
        name: match title {
            Some(t) => Some(trim(t)),
            None => None,
        },
        price_standard: match price {
            Some(p) => tone_price(p),
            None => None,
        },
        price_sales: None,
        available: in_stock,
        url: None,
        rating: None,
    }
}

/// The name a result row shows: brand, a space, then title.
pub open spec fn row_name(brand: Seq<char>, title: Seq<char>) -> Seq<char> {
    brand + seq![' '] + title
}

/// The results of the search grid.
pub const GRID: &'static str = "#search-result-items>li>div>.product-info-wrapper>.product-info";

/// The list of tones of a product page; the first such list is read.
pub const TONE_LIST: &'static str = "div#colorguide-colors>div.colorguide-variations-list";

/// A tone row inside the tone list.
pub const TONE_ROW: &'static str = "div.variation-button-line";

/// The rating of a product page.
pub const RATING: &'static str = "span.bv-secondary-rating-summary-rating";

/// An optional text, or an empty one.
pub open spec fn or_empty(o: Option<Seq<char>>) -> Seq<char> {
    match o {
        Some(t) => t,
        None => Seq::empty(),
    }
}

/// A link, when the row has one that is not empty.
pub open spec fn link_of(href: Option<Seq<char>>) -> Option<Seq<char>> {
    match href {
        Some(u) => if u.len() > 0 {
            Some(u)
        } else {
            None
        },
        None => None,
    }
}

/// Whether `rows` are the rows of the search grid of page `d`, in the order `Html::select` yields them.
pub open spec fn rows_of(d: Html, rows: Seq<ListingRow>) -> bool {
    &&& rows.len() == match_count(d, GRID@)
    &&& forall|i: int|
        0 <= i < rows.len() ==> {
            &&& (#[trigger] rows[i]).full_name@ == row_name(
                or_empty(inner_within(d, GRID@, i, "span.product-brand"@)),
                or_empty(attribute_within(d, GRID@, i, "h3"@, "title"@)),
            )
            &&& opt_text(rows[i].url) == link_of(attribute_within(d, GRID@, i, "a"@, "href"@))
        }
}

/// The tone in row `i` of the tone rows of product page `d`.
pub open spec fn tone_row(d: Html, i: int) -> crate::product::ToneView {
    tone_of(
        inner_in_first(d, TONE_LIST@, TONE_ROW@, i, "div.variation-title"@),
        inner_in_first(d, TONE_LIST@, TONE_ROW@, i, "span.dot-green"@) is Some,
        inner_in_first(d, TONE_LIST@, TONE_ROW@, i, "span.price-sales"@),
    )
}

/// Whether `r` is the product read from a page with these texts and tones: the
/// name (empty when missing), the brand trimmed, the rating, no price of its own,
/// and no tones when none is listed.
pub open spec fn product_read(
    r: Product,
    name: Option<Seq<char>>,
    brand: Option<Seq<char>>,
    rating: Option<Seq<char>>,
    link: Seq<char>,
    tones: Seq<Tone>,
) -> bool {
    &&& r.wf()
    &&& r.name@ == or_empty(name)
    &&& opt_text(r.brand) == match brand {
        Some(b) => Some(trim(b)),
        None => None,
    }
    &&& r.link@ == link
    &&& r.similarity == 0
    &&& r.available
    &&& r.price_standard is None
    &&& r.price_sales is None
    &&& r.rating == rating_of(rating, MAX_RATING)
    &&& tones.len() == 0 ==> r.tones is None
    &&& tones.len() > 0 ==> r.tones is Some && r.tones->0@ == tones
}

/// Reading sephora.es.
pub struct SephoraSpain {
    pub config: Configuration,
}

impl SephoraSpain {
    /// An adapter that searches under `config`.
    pub fn new(config: &Configuration) -> (r: Self)
        ensures
            r.config == *config,
    {
        SephoraSpain { config: *config }
    }

    /// The address of a search for `name`.
    pub fn search_url(name: &str) -> (r: String)
        ensures
            r@ == search_address(name@),
    {
        let prefix = chars_of(SEARCH_PREFIX);
        let words = chars_of(name);
        let joined = chars_replaced(&words, ' ', '+');
        let all = chars_concat(&prefix, &joined);
        string_of(&all)
    }

    /// Whether the search was redirected to the page of a single product.
    pub fn is_product_page(url: &str) -> (r: bool)
        ensures
            r == occurs_in(PRODUCT_PATH@, url@),
    {
        let chars = chars_of(url);
        let path = chars_of(PRODUCT_PATH);
        chars_contain(&chars, &path)
    }

    /// Chooses the links to follow among the rows of the search grid.
    pub fn search_results_urls(&self, rows: &Vec<ListingRow>, similarities: &Vec<u32>) -> (r: Result<
        Vec<String>,
        SearchError,
    >)
        requires
            similarities@.len() == rows@.len(),
            self.config.wf(),
        ensures
            result_view(r) == selection(rows@, similarities@, self.config, false),
    {
        select_result_urls(rows, similarities, &self.config, false)
    }

    /// A result row from the texts found in it: a missing brand or title counts as
/// empty, and an empty link as none.
    pub fn row_from_texts(brand: Option<String>, title: Option<String>, url: Option<String>) -> (r:
        ListingRow)
        ensures
            r.full_name@ == row_name(
                match opt_text(brand) {
                    Some(b) => b,
                    None => Seq::empty(),
                },
                match opt_text(title) {
                    Some(t) => t,
                    None => Seq::empty(),
                },
            ),
            opt_text(r.url) == link_of(opt_text(url)),
    {
        let b = match &brand {
            Some(s) => chars_of(s.as_str()),
            None => Vec::new(),
        };
        let t = match &title {
            Some(s) => chars_of(s.as_str()),
            None => Vec::new(),
        };
        let mut space: Vec<char> = Vec::new();
        space.push(' ');
        let bs = chars_concat(&b, &space);
        let all = chars_concat(&bs, &t);
        let link = match url {
            Some(u) => if u.as_str().is_empty() {
                None
            } else {
                Some(u)
            },
            None => None,
        };
        ListingRow { full_name: string_of(&all), url: link }
    }

    /// The rows of the search grid, in the order `Html::select` yields them; a missing text counts as empty.
    pub fn listing_rows(document: &Html) -> (r: Vec<ListingRow>)
        ensures
            rows_of(*document, r@),
    {
        let n = document_count(document, GRID);
        let mut rows: Vec<ListingRow> = Vec::new();
        let mut i: usize = 0;
        while i < n
            invariant
                i <= n,
                n as nat == match_count(*document, GRID@),
                rows@.len() == i,
                forall|k: int|
                    0 <= k < i ==> {
                        &&& (#[trigger] rows@[k]).full_name@ == row_name(
                            or_empty(inner_within(*document, GRID@, k, "span.product-brand"@)),
                            or_empty(attribute_within(*document, GRID@, k, "h3"@, "title"@)),
                        )
                        &&& opt_text(rows@[k].url) == link_of(
                            attribute_within(*document, GRID@, k, "a"@, "href"@),
                        )
                    },
            decreases n - i,
        {
            let brand = row_inner(document, GRID, i, "span.product-brand");
            let title = row_attribute(document, GRID, i, "h3", "title");
            let url = row_attribute(document, GRID, i, "a", "href");
            rows.push(Self::row_from_texts(brand, title, url));
            i = i + 1;
        }
        rows
    }

    /// The price of a tone, read as `tone_price` says.
    pub fn tone_price(text: &str) -> (r: Option<u64>)
        ensures
            r == tone_price(text@),
    {
        let chars = chars_of(text);
        let nl = crate::text::find_char(&chars, '\n');
        if nl < chars.len() {
            let rest = chars_after(&chars, '\n');
            let line = chars_before(&rest, '\n');
            let s = string_of(&line);
            parse_price_string(s.as_str())
        } else {
            None
        }
    }

    /// A tone from the texts of its row: its title, whether it shows the in-stock
    /// dot, and its price block.
    pub fn tone_from_texts(title: Option<String>, in_stock: bool, price: Option<String>) -> (r: Tone)
        ensures
            r@ == tone_of(opt_text(title), in_stock, opt_text(price)),
    {
        let name = match &title {
            Some(t) => {
                let chars = chars_of(t.as_str());
                let bare = trimmed(&chars);
                Some(string_of(&bare))
            },
            None => None,
        };
        let price_standard = match &price {
            Some(p) => Self::tone_price(p.as_str()),
            None => None,
        };
        Tone::new(name, price_standard, None, in_stock, None, None)
    }

    /// A tone from its row on a product page.
    pub fn create_tone(element: &ElementRef) -> (r: Tone)
        ensures
            r@ == tone_of(
                element_inner(*element, "div.variation-title"@),
                element_inner(*element, "span.dot-green"@) is Some,
                element_inner(*element, "span.price-sales"@),
            ),
    {
        let title = inner_html_opt(element, "div.variation-title");
        let in_stock = has_html_selector(element, "span.dot-green");
        let price = inner_html_opt(element, "span.price-sales");
        Self::tone_from_texts(title, in_stock, price)
    }

    /// A product from the texts of its page and the tones listed on it. The name
    /// is empty when missing, the brand is trimmed, and the product has no tones
    /// when none is listed.
    pub fn product_from_texts(
        name: Option<String>,
        brand: Option<String>,
        rating: Option<String>,
        link: String,
        tones: Vec<Tone>,
    ) -> (r: Product)
        ensures
            product_read(r, opt_text(name), opt_text(brand), opt_text(rating), link@, tones@),
    {
        let product_name = match name {
            Some(n) => n,
            None => {
                let empty: Vec<char> = Vec::new();
                string_of(&empty)
            },
        };
        let product_brand = match &brand {
            Some(b) => {
                let chars = chars_of(b.as_str());
                let bare = trimmed(&chars);
                Some(string_of(&bare))
            },
            None => None,
        };
        let rating_value = rating_from(&rating, MAX_RATING);
        let product_tones = if tones.len() > 0 {
            Some(tones)
        } else {
            None
        };
        Product::new(
            product_name,
            product_brand,
            link,
            None,
            None,
            product_tones,
            rating_value,
            0,
            true,
        )
    }

    /// A product from its page, found at `link`, with the tones its tone rows list.
    pub fn create_product(document: &Html, link: String) -> (r: Product)
        ensures
            product_read(
                r,
                first_attribute(*document, "h1>meta"@, "content"@),
                first_inner(*document, "span.brand-name"@),
                first_inner(*document, RATING@),
                link@,
                match r.tones {
                    Some(v) => v@,
                    None => Seq::<Tone>::empty(),
                },
            ),
            r.tones is None <==> count_in_first(*document, TONE_LIST@, TONE_ROW@) == 0,
            r.tones is Some ==> r.tones->0@.len() == count_in_first(*document, TONE_LIST@, TONE_ROW@)
                && forall|i: int|
                0 <= i < r.tones->0@.len() ==> (#[trigger] r.tones->0@[i])@ == tone_row(*document, i),
    {
        let name = document_attribute(document, "h1>meta", "content");
        let brand = document_inner(document, "span.brand-name");
        let rating = document_inner(document, RATING);
        let n = first_block_count(document, TONE_LIST, TONE_ROW);
        let mut tones: Vec<Tone> = Vec::new();
        let mut i: usize = 0;
        while i < n
            invariant
                i <= n,
                n as nat == count_in_first(*document, TONE_LIST@, TONE_ROW@),
                tones@.len() == i,
                forall|k: int| 0 <= k < i ==> (#[trigger] tones@[k])@ == tone_row(*document, k),
            decreases n - i,
        {
            let title = first_block_inner(document, TONE_LIST, TONE_ROW, i, "div.variation-title");
            let in_stock = first_block_inner(document, TONE_LIST, TONE_ROW, i, "span.dot-green").is_some();
            let price = first_block_inner(document, TONE_LIST, TONE_ROW, i, "span.price-sales");
            tones.push(Self::tone_from_texts(title, in_stock, price));
            i = i + 1;
        }
        let ghost read = tones@;
        let r = Self::product_from_texts(name, brand, rating, link, tones);
        assert(read.len() > 0 ==> r.tones->0@ == read);
        r
    }
}

} // verus!
