use scrapped_webs::product::{Product, Tone};

/// A price or rating in hundredths from a number of units.
fn hundredths(x: f32) -> u64 {
    (x as f64 * 100.0).round() as u64
}

/// A similarity in millionths from a fraction.
fn millionths(x: f32) -> u32 {
    (x as f64 * 1_000_000.0).round() as u32
}

fn check_tone_fields() {
    let name: Option<String> = Some(String::from("Tone1"));
    let price_standard: Option<u64> = Some(hundredths(50.0));
    let price_sales: Option<u64> = Some(hundredths(25.0));
    let available: bool = true;
    let url: Option<String> = Some(String::from("www.tone.es"));
    let rating: Option<u64> = Some(hundredths(5.0));
    let mut tone: Tone = Tone::new(
        name.clone(),
        price_standard,
        price_sales,
        available,
        url.clone(),
        rating.clone(),
    );

    // Getters
    assert_eq!(*tone.name.as_ref().unwrap(), name.unwrap());
    assert_eq!(tone.price_standard.unwrap(), price_standard.unwrap());
    assert_eq!(tone.price_sales.unwrap(), price_sales.unwrap());
    assert_eq!(tone.available, available);
    assert_eq!(tone.url.as_ref().unwrap(), &url.unwrap());
    assert_eq!(tone.rating.unwrap(), rating.unwrap());

    // Setters
    let set_name = String::from("Tone2");
    let set_price_standard: u64 = hundredths(100.0);
    let set_price_sales: Option<u64> = Some(hundredths(50.0));
    let set_available: bool = false;
    let set_url: Option<String> = Some(String::from("www.tone2.es"));
    let set_rating: Option<u64> = Some(hundredths(4.0));

    tone.name = Some(set_name.clone());
    tone.price_standard = Some(set_price_standard);
    tone.price_sales = set_price_sales.clone();
    tone.available = set_available;
    tone.url = set_url.clone();
    tone.rating = set_rating.clone();

    println!("Testing Debug trait implementation for Tone: {:?}", tone);
    println!("Testing Display trait implementation for Tone: {}", tone.terminal_format());
}

fn check_product_fields() {
    let name: String = String::from("Test");
    let brand: Option<String> = Some(String::from("Test Brand"));
    let link: String = String::from("http://test.es");
    let tone_name: Option<String> = Some(String::from("Tone 1"));
    let price_standard: Option<u64> = Some(hundredths(50.0));
    let price_sales: Option<u64> = Some(hundredths(25.0));
    let available: bool = true;
    let url: Option<String> = Some(String::from("www.tone.es"));
    let tone_rating: Option<u64> = Some(hundredths(5.0));
    let tones: Option<Vec<Tone>> = Some(vec![Tone::new(
        tone_name.clone(),
        price_standard,
        price_sales,
        available,
        url.clone(),
        tone_rating.clone(),
    )]);
    let rating: Option<u64> = Some(hundredths(4.5));
    let similarity: u32 = millionths(0.86);
    let mut product: Product = Product::new(
        name.clone(),
        brand.clone(),
        link.clone(),
        price_standard,
        price_sales,
        tones,
        rating,
        similarity,
        available,
    );

    // Getters
    assert_eq!(product.name, name);
    assert_eq!(*product.brand.as_ref().unwrap(), brand.unwrap());
    assert_eq!(product.link, link);
    assert_eq!(product.price_standard.unwrap(), price_standard.unwrap());
    assert_eq!(product.price_sales.unwrap(), price_sales.unwrap());
    assert_eq!(product.rating.unwrap(), rating.unwrap());
    assert_eq!(product.similarity, similarity);
    assert_eq!(product.available, available);

    let first = product.tones.as_ref().unwrap().first().unwrap().clone();
    assert_eq!(*first.name.as_ref().unwrap(), tone_name.unwrap());
    assert_eq!(first.price_standard.unwrap(), price_standard.unwrap());
    assert_eq!(first.price_sales.unwrap(), price_sales.unwrap());
    assert_eq!(first.available, available);
    assert_eq!(first.url.as_deref().unwrap(), url.unwrap());
    assert_eq!(first.rating.unwrap(), tone_rating.unwrap());

    // Setters
    let set_tones: Option<Vec<Tone>> = Some(vec![Tone::new(
        Some(String::from("Tone 2")),
        Some(hundredths(100.0)),
        Some(hundredths(50.0)),
        false,
        Some(String::from("www.tone2.es")),
        Some(hundredths(4.0)),
    )]);
    product.name = String::from("Test 2");
    product.brand = Some(String::from("Test Brand 2"));
    product.link = String::from("http://test2.es");
    product.price_standard = Some(hundredths(100.0));
    product.price_sales = Some(hundredths(50.0));
    product.tones = set_tones.clone();
    product.rating = Some(hundredths(4.0));
    product.similarity = millionths(0.75);
    product.available = false;

    println!("Testing Debug trait implementation for Product: {:?}", product);
    println!("Testing Display trait implementation for Product: {}", product.terminal_format());
}

#[test]
fn product_tone_instantiation_getters_and_setters() {
    check_tone_fields();
}

#[test]
fn test_product_tone_instantiation_getters_and_setters() {
    check_tone_fields();
}

#[test]
fn product_product_instantiation_getters_and_setters() {
    check_product_fields();
}

#[test]
fn test_product_product_instantiation_getters_and_setters() {
    check_product_fields();
}

fn tone(price_standard: Option<f32>, price_sales: Option<f32>, available: bool, rating: Option<f32>) -> Tone {
    Tone {
        name: Some(String::from("Tone 1")),
        price_standard: price_standard.map(hundredths),
        price_sales: price_sales.map(hundredths),
        available,
        url: None,
        rating: rating.map(hundredths),
    }
}

#[test]
fn price_all_paths() {
    let tone_on_sale = tone(Some(10.0), Some(5.0), true, Some(9.5));
    assert_eq!(tone_on_sale.price(), Some(hundredths(5.0)));

    let tone_without_sale = tone(Some(10.0), None, true, Some(9.5));
    assert_eq!(tone_without_sale.price(), Some(hundredths(10.0)));
}

#[test]
fn product_format_terminal_without_tones() {
    let product: Product = Product {
        name: String::from("Product 1"),
        brand: Some(String::from("Brand")),
        link: String::from("http://www.test.com"),
        price_standard: Some(hundredths(10.0)),
        price_sales: None,
        rating: Some(hundredths(9.5)),
        similarity: millionths(0.9),
        available: true,
        tones: None,
    };
    assert_eq!(
        product.terminal_format(),
        "- 90.00%. Product 1 - Brand - 10€ - 9.5⭐: http://www.test.com"
    );

    let product_on_sale: Product = Product {
        price_sales: Some(hundredths(5.0)),
        ..product.clone()
    };
    let line = product_on_sale.terminal_format();
    assert!(line.starts_with("- 90.00%. Product 1 - Brand - "));
    assert!(line.contains("10"));
    assert!(line.ends_with("€ 5€(50%) - 9.5⭐: http://www.test.com"));
}

#[test]
fn product_format_terminal_with_tones() {
    let plain = tone(Some(50.99), None, true, None);
    let on_sale = tone(Some(10.0), Some(5.0), true, None);
    let product: Product = Product {
        name: String::from("Product 1"),
        brand: Some(String::from("Brand")),
        link: String::from("http://www.test.com"),
        price_standard: Some(hundredths(10.0)),
        price_sales: Some(hundredths(5.0)),
        rating: Some(hundredths(9.5)),
        similarity: millionths(0.95421),
        available: true,
        tones: Some(vec![plain, on_sale]),
    };
    assert_eq!(
        product.terminal_format(),
        "- 95.42%. Product 1 - Brand - 5€-50.99€ - 9.5⭐: http://www.test.com"
    );
}

#[test]
fn tone_format_terminal_available_on_sale_with_rating() {
    let t = tone(Some(10.0), Some(5.0), true, Some(9.5));
    let line = t.terminal_format();
    assert!(line.starts_with("    - ✔️   Tone 1 - "));
    assert!(line.ends_with("€ 5€(50%) - 9.5⭐"));
}

#[test]
fn tone_format_terminal_unavailable_without_rating() {
    let t = tone(Some(10.0), None, false, None);
    assert_eq!(t.terminal_format(), "    - ❌   Tone 1 - 10€");
}

#[test]
fn tone_format_terminal_unavailable_with_rating() {
    let t = tone(Some(10.0), None, false, Some(9.5));
    assert_eq!(t.terminal_format(), "    - ❌   Tone 1 - 10€ - 9.5⭐");
}

#[test]
fn tone_format_terminal_unavailable_on_sale_without_rating() {
    let t = tone(Some(10.0), Some(5.0), false, None);
    let line = t.terminal_format();
    assert!(line.starts_with("    - ❌   Tone 1 - "));
    assert!(line.ends_with("€ 5€(50%)"));
}

#[test]
fn strikethrough_wraps_the_list_price() {
    let t = tone(Some(10.0), Some(5.0), false, None);
    assert_eq!(t.terminal_format(), "    - ❌   Tone 1 - \u{1b}[9m10\u{1b}[0m€ 5€(50%)");
}

#[test]
fn add_tone_starts_and_extends_the_list() {
    let mut p = Product::new(String::from("P"), None, String::new(), None, None, None, None, 0, true);
    p.add_tone(tone(Some(1.0), None, true, None));
    p.add_tone(tone(Some(2.0), None, true, None));
    assert_eq!(p.tones.as_ref().unwrap().len(), 2);
    assert_eq!(p.tones.as_ref().unwrap()[1].price_standard, Some(200));
}

#[test]
fn full_name_joins_brand_and_name() {
    let p = Product::new(
        String::from("Kind Words"),
        Some(String::from("Rare Beauty")),
        String::new(),
        None,
        None,
        None,
        None,
        0,
        true,
    );
    assert_eq!(p.full_name(), "Rare Beauty Kind Words");
}

#[test]
fn set_similarity_changes_only_the_score() {
    let mut p = Product::new(String::from("P"), None, String::from("l"), Some(100), None, None, None, 0, true);
    p.set_similarity(1_000_000);
    assert_eq!(p.similarity, 1_000_000);
    assert_eq!(p.price_standard, Some(100));
    assert_eq!(p.terminal_format(), "- 100.00%. P -  - 1€: l");
}
