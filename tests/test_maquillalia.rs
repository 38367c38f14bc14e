use scrapped_webs::configuration::Configuration;
use scrapped_webs::listing::ListingRow;
use scrapped_webs::maquillalia::{Maquillalia, SearchPages};
use scrapped_webs::scrappable::SearchError;
use scrapped_webs::scrapping::parse_document;

#[test]
fn maquillalia_instantiation() {
    let config: Configuration = Configuration::new(500_000, 100);
    let m = Maquillalia::new(&config);
    assert_eq!(m.config, config);
}

#[test]
fn get_product_without_tone() {
    let full_name: String =
        String::from("Maybelline - Labial líquido SuperStay Vinyl Ink - 35: Cheeky");
    let product_name: String = Maquillalia::get_name_without_tone(&full_name);
    assert_eq!(product_name, "Maybelline - Labial líquido SuperStay Vinyl Ink");
}

#[test]
fn get_tone_name() {
    let full_name: String =
        String::from("Maybelline - Labial líquido SuperStay Vinyl Ink - 35: Cheeky");
    let tone_name: String = Maquillalia::get_tone_name(&full_name);
    assert_eq!(tone_name, " 35: Cheeky");
}

#[test]
fn names_without_enough_dashes() {
    assert_eq!(Maquillalia::get_name_without_tone("Solo"), "Solo");
    assert_eq!(Maquillalia::get_tone_name("Brand - Name"), "");
    assert_eq!(Maquillalia::get_tone_name("Solo"), "");
}

#[test]
fn brand_and_name_from_a_title() {
    let (brand, name) = Maquillalia::brand_and_name("Milani - Labial Líquido Amore Mettallics - 01");
    assert_eq!(brand.as_deref(), Some("Milani "));
    assert_eq!(name, " Labial Líquido Amore Mettallics");
    let (brand, name) = Maquillalia::brand_and_name("Untitled");
    assert_eq!(brand, None);
    assert_eq!(name, "");
}

#[test]
fn search_url_joins_words_and_page() {
    assert_eq!(
        Maquillalia::search_url("super stay vinyl", 12),
        "https://www.maquillalia.com/search.php?buscar=super+stay+vinyl&page=12"
    );
}

fn urls(n: usize, prefix: &str) -> Vec<String> {
    (0..n).map(|i| format!("{prefix}{i}")).collect()
}

#[test]
fn pages_stop_at_the_cap() {
    let m = Maquillalia::new(&Configuration::new(0, 21));
    let mut pages = SearchPages::new();
    m.next_page(&mut pages, urls(20, "a"), 1500);
    assert!(!pages.finished);
    assert_eq!(pages.page, 2);
    m.next_page(&mut pages, urls(20, "b"), 1500);
    assert!(pages.finished);
    assert_eq!(pages.urls.len(), 21);
    assert_eq!(pages.urls[20], "b0");
}

#[test]
fn pages_stop_at_the_last_page() {
    let m = Maquillalia::new(&Configuration::new(0, 100));
    let mut pages = SearchPages::new();
    m.next_page(&mut pages, urls(20, "a"), 25);
    assert!(!pages.finished);
    m.next_page(&mut pages, urls(5, "b"), 25);
    assert!(pages.finished);
    assert_eq!(pages.urls.len(), 25);
    let mut one = SearchPages::new();
    m.next_page(&mut one, urls(20, "a"), 20);
    assert!(one.finished);
    let mut two = SearchPages::new();
    m.next_page(&mut two, urls(20, "a"), 40);
    assert!(!two.finished);
    m.next_page(&mut two, urls(20, "b"), 40);
    assert!(two.finished);
}

fn row(name: &str, url: Option<&str>) -> ListingRow {
    ListingRow { full_name: name.to_string(), url: url.map(|u| u.to_string()) }
}

#[test]
fn four_tone_rows_give_one_link() {
    let m = Maquillalia::new(&Configuration::new(0, 50));
    let rows = vec![
        row("Milani - Labial", Some("/t1")),
        row("Milani - Labial", Some("/t2")),
        row("Milani - Labial", Some("/t3")),
        row("Milani - Labial", Some("/t4")),
    ];
    let r = m.search_results_urls(&rows, &vec![900_000; 4]).unwrap();
    assert_eq!(r, vec!["/t1".to_string()]);
}

#[test]
fn tone_rows_below_threshold_do_not_hide_a_later_match() {
    let m = Maquillalia::new(&Configuration::new(500_000, 50));
    let rows = vec![row("A - B", Some("/weak")), row("A - B", Some("/strong"))];
    let r = m.search_results_urls(&rows, &vec![100_000, 600_000]).unwrap();
    assert_eq!(r, vec!["/strong".to_string()]);
}

#[test]
fn no_results_marker_gives_not_found() {
    let html = r#"<html><body><div class="msje-wrng"><div class="msje-icon">!</div></div></body></html>"#;
    let document = parse_document(html);
    assert_eq!(Maquillalia::listing_rows(&document), Err(SearchError::NotFound));
}

#[test]
fn listing_rows_and_total_are_read() {
    let html = r#"<html><body>
        <div class="NumPro"><strong>45</strong></div>
        <div class="ListProds">
          <div><h3 class="Title"><a href="/first">Maybelline - Vinyl Ink - 35: Cheeky</a></h3></div>
          <div><h3 class="Title"><a href="/second">Maybelline - Vinyl Ink - 40: Peachy</a></h3></div>
          <div><span>no title</span></div>
        </div></body></html>"#;
    let document = parse_document(html);
    let rows = Maquillalia::listing_rows(&document).unwrap();
    assert_eq!(rows.len(), 3);
    assert_eq!(rows[0], row("Maybelline - Vinyl Ink", Some("/first")));
    assert_eq!(rows[1], row("Maybelline - Vinyl Ink", Some("/second")));
    assert_eq!(rows[2], row("", None));
    assert_eq!(Maquillalia::total_results(&document), 45);
}

#[test]
fn product_and_tone_pages_are_read() {
    let html = r#"<html><body>
        <h1 class="Title">Agrado - Bruma facial solar SPF50+</h1>
        <table><tbody><tr><td><div class="Price"><del>12,50 €</del><strong>9,95 €</strong></div></td></tr></tbody></table>
        <div class="Rating"><span class="Stars" data-rating="4.5"></span></div>
        <ul class="familasColores"><li><a href="/tone-1">1</a></li><li><a href="/tone-2">2</a></li></ul>
        </body></html>"#;
    let document = parse_document(html);
    assert_eq!(Maquillalia::tone_urls(&document), vec!["/tone-1".to_string(), "/tone-2".to_string()]);
    let product = Maquillalia::create_product(&document, vec![]);
    assert_eq!(product.name, " Bruma facial solar SPF50+");
    assert_eq!(product.brand.as_deref(), Some("Agrado "));
    assert_eq!(product.price_standard, Some(1250));
    assert_eq!(product.price_sales, Some(995));
    assert_eq!(product.rating, Some(450));
    assert!(product.tones.is_none());

    let tone_page = r#"<html><body>
        <h1 class="Title">Milani - Labial - 01 Rosa</h1>
        <table><tbody><tr><td><div class="Price"><strong>8,00 €</strong></div></td></tr></tbody></table>
        </body></html>"#;
    let tone_document = parse_document(tone_page);
    let tone = Maquillalia::create_tone(&tone_document);
    assert_eq!(tone.name.as_deref(), Some("01 Rosa"));
    assert_eq!(tone.price_standard, Some(800));
    assert_eq!(tone.price_sales, None);
    assert!(tone.available);
    assert_eq!(tone.rating, None);

    let with_tones = Maquillalia::create_product(&document, vec![tone.clone()]);
    assert_eq!(with_tones.tones, Some(vec![tone]));
    assert_eq!(with_tones.price_standard, None);
    assert_eq!(with_tones.rating, None);
}

#[test]
fn empty_link_is_kept_as_a_link() {
    let html = r#"<html><body><div class="ListProds">
          <div><h3 class="Title"><a href="">Brand - Name - Tone</a></h3></div>
        </div></body></html>"#;
    let document = parse_document(html);
    let rows = Maquillalia::listing_rows(&document).unwrap();
    assert_eq!(rows, vec![row("Brand - Name", Some(""))]);
}

#[test]
fn sale_price_above_list_price_is_dropped() {
    let html = r#"<html><body>
        <h1 class="Title">Brand - Name</h1>
        <table><tbody><tr><td><div class="Price"><del>5,00 €</del><strong>9,95 €</strong></div></td></tr></tbody></table>
        </body></html>"#;
    let document = parse_document(html);
    let product = Maquillalia::create_product(&document, vec![]);
    assert_eq!(product.price_standard, Some(500));
    assert_eq!(product.price_sales, None);
    let tone = Maquillalia::create_tone(&document);
    assert_eq!(tone.price_standard, Some(500));
    assert_eq!(tone.price_sales, None);
}
