//! The adapter for maquillalia.com.
//!
//! A search lists twenty products a page; further pages are asked for with
//! `&page=n` until the count that the page reports is reached. The listing shows
//! every tone of a product as a row of its own, titled `{Brand} - {Name} - {Tone}`:
//! rows are folded to one per product by their title without the tone part. A
//! product page links each of its tones to a page of its own.
use vstd::prelude::*;
use scraper::Html;
use crate::configuration::Configuration;
use crate::fields::{layout_prices, prices_from, rating_from, rating_of};
use crate::listing::{select_result_urls, selection, result_view, urls_view, ListingRow};
use crate::product::{opt_text, Product, Tone};
use crate::scrappable::SearchError;
use crate::scrapping::{
    attribute_within, document_attribute, document_count, document_inner, first_attribute,
    first_inner, inner_within, match_count, row_attribute, row_inner,
};
use crate::utilities::{count_of, parse_count};
use crate::text::{
    after, before, chars_after, chars_before, chars_concat, chars_of, chars_replaced,
    chars_widened, chars_without, decimal, decimal_chars, index_of, replace_char, string_of,
    trim, trim_end, trimmed, trimmed_end, widen_double_spaces, without,
};

verus! {

/// The search page of the site.
pub const SEARCH_PREFIX: &'static str = "https://www.maquillalia.com/search.php?buscar=";

/// What comes before the page number in a search address.
pub const PAGE_PREFIX: &'static str = "&page=";

/// How many products a search page lists.
pub const ITEMS_PER_PAGE: u64 = 20;

/// The top of the site's rating scale, in hundredths: five stars.
pub const MAX_RATING: u64 = 500;

/// A title `{Brand} - {Name} - {Tone}` cut down to `{Brand} - {Name}`: the first
/// segment, then the second without its trailing white space, with the double
/// space left where the dash was widened back to `" - "`.
pub open spec fn name_without_tone(full_name: Seq<char>) -> Seq<char> {
    widen_double_spaces(
        before(full_name, '-') + trim_end(before(after(full_name, '-'), '-')),
    )
}

/// The tone part of a title `{Brand} - {Name} - {Tone}`: everything after the
/// second dash, with any further dashes dropped; empty when there is no second dash.
pub open spec fn tone_name(full_name: Seq<char>) -> Seq<char> {
    without(after(after(full_name, '-'), '-'), '-')
}

/// Brand and name read from a product title: the title without its tone, trimmed,
/// gives the brand before its first dash and the name between the first and the
/// second dash. Without a dash there is neither.
pub open spec fn brand_and_name(title: Seq<char>) -> (Option<Seq<char>>, Seq<char>) {
    let t = trim(name_without_tone(title));
    if index_of(t, '-') < t.len() {
        (Some(before(t, '-')), before(after(t, '-'), '-'))
    } else {
        (None, Seq::empty())
    }
}

/// The address of page `page` of a search for `name`, words joined by `+`.
pub open spec fn search_address(name: Seq<char>, page: nat) -> Seq<char> {
    SEARCH_PREFIX@ + replace_char(name, ' ', '+') + PAGE_PREFIX@ + decimal(page)
}

/// Whether page `page`, of a search that reports `total_results` results, is the
/// last: the pages up to it hold them all.
pub open spec fn is_last_page(page: nat, total_results: nat) -> bool {
    page * ITEMS_PER_PAGE >= total_results
}

/// Where a paged search stands: the next page to ask for, the links gathered so
/// far and whether it is over.
pub struct SearchPages {
    pub page: u64,
    pub urls: Vec<String>,
    pub finished: bool,
}

impl SearchPages {
    /// A search that has read no page yet.
    pub fn new() -> (r: Self)
        ensures
            r.page == 1,
            r.urls@.len() == 0,
            !r.finished,
    {
        SearchPages { page: 1, urls: Vec::new(), finished: false }
    }
}

/// The links kept after a page: those gathered so far followed by the page's own,
/// cut to `max_results`.
pub open spec fn gathered(earlier: Seq<Seq<char>>, page: Seq<Seq<char>>, max_results: nat) -> Seq<
    Seq<char>,
> {
    let all = earlier + page;
    if all.len() <= max_results {
        all
    } else {
        all.take(max_results as int)
    }
}

/// The fields of a tone read from the texts of its page, as `create_tone` reads them.
pub open spec fn tone_of(
    title: Option<Seq<char>>,
    struck: Option<Seq<char>>,
    emphasised: Option<Seq<char>>,
    rating: Option<Seq<char>>,
) -> crate::product::ToneView {
    crate::product::ToneView {
        name: match title {
            Some(t) => Some(trim(tone_name(t))),
            None => None,
        },
        price_standard: layout_prices(struck, emphasised).0,
        price_sales: layout_prices(struck, emphasised).1,
        available: true,
        url: None,
        rating: rating_of(rating, MAX_RATING),
    }
}

/// The notice a search page shows when nothing matched.
pub const NO_RESULTS: &'static str = "div.msje-wrng>div.msje-icon";

/// The rows of a search page.
pub const ROWS: &'static str = "div.ListProds>div";

/// The title link inside a row.
pub const ROW_TITLE: &'static str = "h3.Title>a";

/// The number of results a search page reports.
pub const TOTAL: &'static str = "div.NumPro>strong";

/// The entries of a product page that link to its tones.
pub const TONE_LINKS: &'static str = "ul.familasColores>li";

/// The title of a product or tone page.
pub const TITLE: &'static str = "h1.Title";

/// The struck-out list price of a page.
pub const STRUCK_PRICE: &'static str = "table>tbody>tr>td>div.Price>del";

/// The emphasised price of a page.
pub const EMPHASISED_PRICE: &'static str = "table>tbody>tr>td>div.Price>strong";

/// The stars of a page, whose `data-rating` holds the rating.
pub const STARS: &'static str = "div.Rating>span.Stars";

/// An optional text, or an empty one.
pub open spec fn or_empty(o: Option<Seq<char>>) -> Seq<char> {
    match o {
        Some(t) => t,
        None => Seq::empty(),
    }
}

/// The name a row of a search page stands for: its title without the tone part,
/// or nothing without a title.
pub open spec fn row_product(title: Option<Seq<char>>) -> Seq<char> {
    match title {
        Some(t) => name_without_tone(t),
        None => Seq::empty(),
    }
}

/// Whether `rows` are the rows of search page `d`, in the order `Html::select` yields them.
pub open spec fn rows_of(d: Html, rows: Seq<ListingRow>) -> bool {
    &&& rows.len() == match_count(d, ROWS@)
    &&& forall|i: int|
        0 <= i < rows.len() ==> {
            &&& (#[trigger] rows[i]).full_name@ == row_product(inner_within(d, ROWS@, i, ROW_TITLE@))
            &&& opt_text(rows[i].url) == attribute_within(d, ROWS@, i, ROW_TITLE@, "href"@)
        }
}

/// The links of the first `n` tone entries of page `d` that have one.
pub open spec fn tone_links(d: Html, n: int) -> Seq<Seq<char>>
    decreases n,
{
    if n <= 0 {
        Seq::empty()
    } else {
        match attribute_within(d, TONE_LINKS@, n - 1, "a"@, "href"@) {
            Some(u) => tone_links(d, n - 1).push(u),
            None => tone_links(d, n - 1),
        }
    }
}

/// Whether `r` is the product read from a page with these texts and these tones:
/// brand and name from the title; with tones, no price or rating of its own;
/// without, prices as `layout_prices` reads them and the rating.
pub open spec fn product_read(
    r: Product,
    title: Option<Seq<char>>,
    struck: Option<Seq<char>>,
    emphasised: Option<Seq<char>>,
    rating: Option<Seq<char>>,
    tones: Seq<Tone>,
) -> bool {
    let bn = brand_and_name(or_empty(title));
    &&& r.wf()
    &&& opt_text(r.brand) == bn.0
    &&& r.name@ == bn.1
    &&& r.link@.len() == 0
    &&& r.similarity == 0
    &&& r.available
    &&& tones.len() == 0 ==> r.tones is None
    &&& tones.len() > 0 ==> r.tones is Some && r.tones->0@ == tones
    &&& tones.len() == 0 ==> (r.price_standard, r.price_sales) == layout_prices(struck, emphasised)
    &&& tones.len() == 0 ==> r.rating == rating_of(rating, MAX_RATING)
    &&& tones.len() > 0 ==> r.price_standard is None && r.price_sales is None && r.rating is None
}

/// Reading maquillalia.com.
pub struct Maquillalia {
    pub config: Configuration,
}

impl Maquillalia {
    /// An adapter that searches under `config`.
    pub fn new(config: &Configuration) -> (r: Self)
        ensures
            r.config == *config,
    {
        Maquillalia { config: *config }
    }

    /// The name of a product without the tone part of its title.
    pub fn get_name_without_tone(full_name: &str) -> (r: String)
        ensures
            r@ == name_without_tone(full_name@),
    {
        let chars = chars_of(full_name);
        let first = chars_before(&chars, '-');
        let rest = chars_after(&chars, '-');
        let second = chars_before(&rest, '-');
        let second_end = trimmed_end(&second);
        let joined = chars_concat(&first, &second_end);
        let widened = chars_widened(&joined);
        string_of(&widened)
    }

    /// The tone part of a title.
    pub fn get_tone_name(full_name: &str) -> (r: String)
        ensures
            r@ == tone_name(full_name@),
    {
        let chars = chars_of(full_name);
        let rest = chars_after(&chars, '-');
        let tone = chars_after(&rest, '-');
        let bare = chars_without(&tone, '-');
        string_of(&bare)
    }

    /// Brand and name of a product from its title.
    pub fn brand_and_name(title: &str) -> (r: (Option<String>, String))
        ensures
            opt_text(r.0) == brand_and_name(title@).0,
            r.1@ == brand_and_name(title@).1,
    {
        let name = Self::get_name_without_tone(title);
        let chars = chars_of(name.as_str());
        let t = trimmed(&chars);
        let dash = crate::text::find_char(&t, '-');
        if dash < t.len() {
            let brand = chars_before(&t, '-');
            let rest = chars_after(&t, '-');
            let second = chars_before(&rest, '-');
            (Some(string_of(&brand)), string_of(&second))
        } else {
            let empty: Vec<char> = Vec::new();
            (None, string_of(&empty))
        }
    }

    /// The address of page `page` of a search for `name`.
    pub fn search_url(name: &str, page: u64) -> (r: String)
        ensures
            r@ == search_address(name@, page as nat),
    {
        let prefix = chars_of(SEARCH_PREFIX);
        let words = chars_of(name);
        let joined = chars_replaced(&words, ' ', '+');
        let page_prefix = chars_of(PAGE_PREFIX);
        let number = decimal_chars(page);
        let a = chars_concat(&prefix, &joined);
        let b = chars_concat(&a, &page_prefix);
        let c = chars_concat(&b, &number);
        string_of(&c)
    }

    /// Chooses the links to follow among the rows of one search page, one per product.
    pub fn search_results_urls(&self, rows: &Vec<ListingRow>, similarities: &Vec<u32>) -> (r: Result<
        Vec<String>,
        SearchError,
    >)
        requires
            similarities@.len() == rows@.len(),
            self.config.wf(),
        ensures
            result_view(r) == selection(rows@, similarities@, self.config, true),
    {
        select_result_urls(rows, similarities, &self.config, true)
    }

    /// Takes in one search page: its links join those gathered, cut to the cap,
    /// and the search is over once the cap is reached or the page was the last.
    pub fn next_page(&self, pages: &mut SearchPages, page_urls: Vec<String>, total_results: u64)
        requires
            self.config.wf(),
            !old(pages).finished,
            old(pages).page < u64::MAX,
            old(pages).urls@.len() <= self.config.max_results,
        ensures
            final(pages).page == old(pages).page + 1,
            urls_view(final(pages).urls@) == gathered(
                urls_view(old(pages).urls@),
                urls_view(page_urls@),
                self.config.max_results as nat,
            ),
            final(pages).finished == (self.config.max_results <= old(pages).urls@.len()
                + page_urls@.len() || is_last_page(old(pages).page as nat, total_results as nat)),
            final(pages).urls@.len() <= self.config.max_results,
    {
        let ghost earlier = urls_view(pages.urls@);
        let ghost fresh = urls_view(page_urls@);
        let mut i: usize = 0;
        while i < page_urls.len()
            invariant
                i <= page_urls@.len(),
                earlier == urls_view(old(pages).urls@),
                fresh == urls_view(page_urls@),
                pages.urls@.len() == old(pages).urls@.len() + i,
                urls_view(pages.urls@) == earlier + fresh.take(i as int),
                pages.page == old(pages).page,
                !pages.finished,
            decreases page_urls@.len() - i,
        {
            let u = page_urls[i].clone();
            let ghost before_push = pages.urls@;
            pages.urls.push(u);
            assert(pages.urls@ == before_push.push(u));
            assert(u@ == fresh[i as int]);
            assert(fresh.take(i as int + 1) =~= fresh.take(i as int).push(fresh[i as int]));
            assert(urls_view(pages.urls@) =~= urls_view(before_push).push(u@));
            i = i + 1;
            assert(urls_view(pages.urls@) =~= earlier + fresh.take(i as int));
        }
        assert(fresh.take(page_urls@.len() as int) =~= fresh);
        let count = pages.urls.len();
        let read = pages.page;
        pages.page = pages.page + 1;
        let pages_needed: u64 = total_results / ITEMS_PER_PAGE + if total_results % ITEMS_PER_PAGE
            == 0 {
            0
        } else {
            1
        };
        proof {
            let p = read as int;
            let t = total_results as int;
            assert((p * 20 >= t) == (p >= t / 20 + if t % 20 == 0 {
                0int
            } else {
                1int
            })) by (nonlinear_arith)
                requires
                    p >= 0,
                    t >= 0,
            ;
        }
        pages.finished = self.config.max_results <= count || read >= pages_needed;
        if pages.urls.len() > self.config.max_results {
            pages.urls.truncate(self.config.max_results);
            assert(urls_view(pages.urls@) =~= (earlier + fresh).take(
                self.config.max_results as int,
            ));
        }
    }

    /// The rows of a search page, or `NotFound` when the page shows the notice that
    /// nothing matched.
    pub fn listing_rows(document: &Html) -> (r: Result<Vec<ListingRow>, SearchError>)
        ensures
            r is Err <==> first_inner(*document, NO_RESULTS@) is Some,
            r is Err ==> r->Err_0 == SearchError::NotFound,
            r is Ok ==> rows_of(*document, r->Ok_0@),
    {
        if document_inner(document, NO_RESULTS).is_some() {
            return Err(SearchError::NotFound);
        }
        let n = document_count(document, ROWS);
        let mut rows: Vec<ListingRow> = Vec::new();
        let mut i: usize = 0;
        while i < n
            invariant
                i <= n,
                n as nat == match_count(*document, ROWS@),
                rows@.len() == i,
                forall|k: int|
                    0 <= k < i ==> {
                        &&& (#[trigger] rows@[k]).full_name@ == row_product(
                            inner_within(*document, ROWS@, k, ROW_TITLE@),
                        )
                        &&& opt_text(rows@[k].url) == attribute_within(
                            *document,
                            ROWS@,
                            k,
                            ROW_TITLE@,
                            "href"@,
                        )
                    },
            decreases n - i,
        {
            let title = row_inner(document, ROWS, i, ROW_TITLE);
            let full_name = match &title {
                Some(t) => Self::get_name_without_tone(t.as_str()),
                None => String::new(),
            };
            let url = row_attribute(document, ROWS, i, ROW_TITLE, "href");
            rows.push(ListingRow { full_name, url });
            i = i + 1;
        }
        Ok(rows)
    }

    /// The number of results that a search page reports; zero when it reports none
    /// or not as a whole number.
    pub fn total_results(document: &Html) -> (r: u64)
        ensures
            r == match first_inner(*document, TOTAL@) {
                Some(t) => match count_of(t) {
                    Some(n) => n,
                    None => 0,
                },
                None => 0,
            },
    {
        match document_inner(document, TOTAL) {
            Some(text) => match parse_count(text.as_str()) {
                Some(n) => n,
                None => 0,
            },
            None => 0,
        }
    }

    /// The links to the pages of a product's tones, in the order `Html::select` yields them.
    pub fn tone_urls(document: &Html) -> (r: Vec<String>)
        ensures
            urls_view(r@) == tone_links(*document, match_count(*document, TONE_LINKS@) as int),
    {
        let n = document_count(document, TONE_LINKS);
        let mut urls: Vec<String> = Vec::new();
        let mut i: usize = 0;
        while i < n
            invariant
                i <= n,
                n as nat == match_count(*document, TONE_LINKS@),
                urls_view(urls@) == tone_links(*document, i as int),
            decreases n - i,
        {
            match row_attribute(document, TONE_LINKS, i, "a", "href") {
                Some(u) => {
                    let ghost before_push = urls@;
                    urls.push(u);
                    assert(urls_view(urls@) =~= urls_view(before_push).push(u@));
                },
                None => {},
            }
            i = i + 1;
        }
        urls
    }

    /// A tone from the texts of its page: the title, the struck-out and the
    /// emphasised price and the rating.
    pub fn tone_from_texts(
        title: Option<String>,
        struck: Option<String>,
        emphasised: Option<String>,
        rating: Option<String>,
    ) -> (r: Tone)
        ensures
            r@ == tone_of(opt_text(title), opt_text(struck), opt_text(emphasised), opt_text(rating)),
    {
        let name = match &title {
            Some(t) => {
                let tone = Self::get_tone_name(t.as_str());
                let chars = chars_of(tone.as_str());
                let bare = trimmed(&chars);
                Some(string_of(&bare))
            },
            None => None,
        };
        let (price_standard, price_sales) = prices_from(&struck, &emphasised);
        let rating_value = rating_from(&rating, MAX_RATING);
        Tone::new(name, price_standard, price_sales, true, None, rating_value)
    }

    /// A tone from its own page.
    pub fn create_tone(document: &Html) -> (r: Tone)
        ensures
            r@ == tone_of(
                first_inner(*document, TITLE@),
                first_inner(*document, STRUCK_PRICE@),
                first_inner(*document, EMPHASISED_PRICE@),
                first_attribute(*document, STARS@, "data-rating"@),
            ),
    {
        let title = document_inner(document, TITLE);
        let struck = document_inner(document, STRUCK_PRICE);
        let emphasised = document_inner(document, EMPHASISED_PRICE);
        let rating = document_attribute(document, STARS, "data-rating");
        Self::tone_from_texts(title, struck, emphasised, rating)
    }

    /// A product from the texts of its page and its tones, fetched from their own
    /// pages. With tones, the product's own prices and rating stay absent.
    pub fn product_from_texts(
        title: Option<String>,
        struck: Option<String>,
        emphasised: Option<String>,
        rating: Option<String>,
        tones: Vec<Tone>,
    ) -> (r: Product)
        ensures
            product_read(
                r,
                opt_text(title),
                opt_text(struck),
                opt_text(emphasised),
                opt_text(rating),
                tones@,
            ),
    {
        let (brand, name) = match &title {
            Some(t) => Self::brand_and_name(t.as_str()),
            None => Self::brand_and_name(""),
        };
        proof {
            reveal_strlit("");
            assert(""@ =~= Seq::<char>::empty());
        }
        let empty: Vec<char> = Vec::new();
        let link = string_of(&empty);
        if tones.len() > 0 {
            Product::new(name, brand, link, None, None, Some(tones), None, 0, true)
        } else {
            let (price_standard, price_sales) = prices_from(&struck, &emphasised);
            let rating_value = rating_from(&rating, MAX_RATING);
            Product::new(name, brand, link, price_standard, price_sales, None, rating_value, 0, true)
        }
    }

    /// A product from its page and the tones read from the pages that `tone_urls` gives.
    pub fn create_product(document: &Html, tones: Vec<Tone>) -> (r: Product)
        ensures
            product_read(
                r,
                first_inner(*document, TITLE@),
                first_inner(*document, STRUCK_PRICE@),
                first_inner(*document, EMPHASISED_PRICE@),
                first_attribute(*document, STARS@, "data-rating"@),
                tones@,
            ),
    {
        let title = document_inner(document, TITLE);
        let struck = document_inner(document, STRUCK_PRICE);
        let emphasised = document_inner(document, EMPHASISED_PRICE);
        let rating = document_attribute(document, STARS, "data-rating");
        Self::product_from_texts(title, struck, emphasised, rating, tones)
    }
}

} // verus!
