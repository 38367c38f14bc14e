use scrapped_webs::configuration::Configuration;
use scrapped_webs::listing::ListingRow;
use scrapped_webs::scrappable::SearchError;
use scrapped_webs::scrapping::{parse_document, root_element};
use scrapped_webs::sephora::SephoraSpain;

#[test]
fn sephora_spain_instantiation() {
    let conf: Configuration = Configuration::new(0, usize::MAX);
    let s = SephoraSpain::new(&conf);
    assert_eq!(s.config.max_results(), usize::MAX);
}

#[test]
fn search_url_and_redirect() {
    assert_eq!(
        SephoraSpain::search_url("RARE BEAUTY Kind Words"),
        "https://www.sephora.es/buscar?q=RARE+BEAUTY+Kind+Words"
    );
    assert!(SephoraSpain::is_product_page(
        "https://www.sephora.es/p/softsculpt-shaping-stick---contorno-en-barra-P10044136.html"
    ));
    assert!(!SephoraSpain::is_product_page("https://www.sephora.es/buscar?q=labial"));
}

fn row(name: &str, url: Option<&str>) -> ListingRow {
    ListingRow { full_name: name.to_string(), url: url.map(|u| u.to_string()) }
}

#[test]
fn rows_without_link_are_skipped_and_cap_applies() {
    let s = SephoraSpain::new(&Configuration::new(500_000, 2));
    let rows = vec![row("a", None), row("b", Some("/p/b.html")), row("c", Some("/p/c.html")), row("d", Some("/p/d.html"))];
    let r = s.search_results_urls(&rows, &vec![900_000; 4]).unwrap();
    assert_eq!(r, vec!["/p/b.html".to_string(), "/p/c.html".to_string()]);
}

#[test]
fn empty_grid_and_weak_grid_differ() {
    let s = SephoraSpain::new(&Configuration::new(950_000, 10));
    assert_eq!(s.search_results_urls(&vec![], &vec![]), Err(SearchError::NotFound));
    let rows = vec![row("Iluminador", Some("/p/i.html"))];
    assert_eq!(
        s.search_results_urls(&rows, &vec![700_000]),
        Err(SearchError::NotEnoughSimilarity)
    );
}

#[test]
fn tone_price_reads_the_second_line() {
    assert_eq!(SephoraSpain::tone_price("\n 33,99 €\n\n"), Some(3399));
    assert_eq!(SephoraSpain::tone_price("\nN/A\n"), None);
    assert_eq!(SephoraSpain::tone_price("\n\n"), None);
    assert_eq!(SephoraSpain::tone_price("33,99 €"), None);
}

#[test]
fn product_page_is_read() {
    let html = "<html><head></head><body>\
        <h1><meta content=\"SoftSculpt Shaping Stick\"></h1>\
        <span class=\"brand-name\">  ISDIN </span>\
        <span class=\"bv-secondary-rating-summary-rating\">4.2</span>\
        <div id=\"colorguide-colors\"><div class=\"colorguide-variations-list\">\
          <div class=\"variation-button-line\"><div class=\"variation-title\"> Light + 10.5g </div>\
            <span class=\"dot-green\"></span><span class=\"price-sales\">\n33,99 €\n</span></div>\
          <div class=\"variation-button-line\"><div class=\"variation-title\">Deep</div>\
            <span class=\"price-sales\">\nN/A\n</span></div>\
        </div></div></body></html>";
    let document = parse_document(html);
    let product = SephoraSpain::create_product(&document, "https://www.sephora.es/p/x.html".to_string());
    assert_eq!(product.name, "SoftSculpt Shaping Stick");
    assert_eq!(product.brand.as_deref(), Some("ISDIN"));
    assert_eq!(product.link, "https://www.sephora.es/p/x.html");
    assert_eq!(product.rating, Some(420));
    let tones = product.tones.unwrap();
    assert_eq!(tones.len(), 2);
    assert_eq!(tones[0].name.as_deref(), Some("Light + 10.5g"));
    assert_eq!(tones[0].price_standard, Some(3399));
    assert!(tones[0].available);
    assert_eq!(tones[1].price_standard, None);
    assert!(!tones[1].available);

    let root_doc = parse_document("<html><body><div class=\"variation-title\">X</div></body></html>");
    let t = SephoraSpain::create_tone(&root_element(&root_doc).unwrap());
    assert_eq!(t.name.as_deref(), Some("X"));
    assert_eq!(t.price_standard, None);
}

/// A listing with one Rare Beauty row, as the search page shows it, scored with
/// Jaro-Winkler on lower-cased text.
#[test]
fn end_to_end_listing_fixture() {
    let html = r#"<html><body><ul id="search-result-items"><li><div>
        <div class="product-info-wrapper"><div class="product-info">
          <span class="product-brand">Rare Beauty</span>
          <h3 title="Kind Words - Barra de labios mate">Kind Words</h3>
          <a href="/p/x.html">ver</a>
        </div></div></div></li></ul></body></html>"#;
    let document = parse_document(html);
    let rows = SephoraSpain::listing_rows(&document);
    assert_eq!(rows.len(), 1);
    assert_eq!(rows[0].full_name, "Rare Beauty Kind Words - Barra de labios mate");
    let query = "Rare Beauty Kind Words";
    let sims: Vec<u32> = rows
        .iter()
        .map(|r| {
            let s = strsim::jaro_winkler(&query.to_lowercase(), &r.full_name.to_lowercase());
            (s * 1_000_000.0).floor() as u32
        })
        .collect();
    let s = SephoraSpain::new(&Configuration::new(500_000, 50));
    assert_eq!(s.search_results_urls(&rows, &sims).unwrap(), vec!["/p/x.html".to_string()]);
}

#[test]
fn grid_rows_are_read() {
    let html = r#"<html><body><ul id="search-result-items">
        <li><div><div class="product-info-wrapper"><div class="product-info">
          <span class="product-brand">Brand</span><h3 title="Title"></h3><a href="">x</a>
        </div></div></div></li>
        <li><div><div class="product-info-wrapper"><div class="product-info">
          <h3 title="Only title"></h3><a href="/p/y.html">y</a>
        </div></div></div></li></ul></body></html>"#;
    let document = parse_document(html);
    let rows = SephoraSpain::listing_rows(&document);
    assert_eq!(rows, vec![row("Brand Title", None), row(" Only title", Some("/p/y.html"))]);
}

#[test]
fn product_without_tone_rows_has_no_tones() {
    let document = parse_document("<html><body><span class=\"brand-name\">B</span></body></html>");
    let product = SephoraSpain::create_product(&document, String::from("l"));
    assert!(product.tones.is_none());
    assert_eq!(product.name, "");
    assert_eq!(product.brand.as_deref(), Some("B"));
    assert_eq!(product.rating, None);
}

#[test]
fn only_the_first_tone_list_is_read() {
    let html = "<html><body><div id=\"colorguide-colors\">\
        <div class=\"colorguide-variations-list\">\
          <div class=\"variation-button-line\"><div class=\"variation-title\">One</div></div></div>\
        <div class=\"colorguide-variations-list\">\
          <div class=\"variation-button-line\"><div class=\"variation-title\">Two</div></div></div>\
        </div></body></html>";
    let document = parse_document(html);
    let product = SephoraSpain::create_product(&document, String::new());
    let tones = product.tones.unwrap();
    assert_eq!(tones.len(), 1);
    assert_eq!(tones[0].name.as_deref(), Some("One"));
}
