use scrapped_webs::scrapping::{
    attribute_html_value, has_html_selector, inner_html_value, parse_document, root_element,
    HtmlSearchError,
};
use scrapped_webs::utilities::{discount, normalized_rating, parse_hundredths, parse_price_string};

/// An amount in hundredths read as a number.
fn amount(h: u64) -> f32 {
    h as f32 / 100.0
}

#[test]
fn discount_with_price_sales() {
    let (discount_value, percentage_discount) = discount(10_000, Some(7_500)).unwrap();
    assert_eq!(amount(discount_value), 25.0);
    assert_eq!(percentage_discount, 25);
}

#[test]
#[should_panic]
fn discount_without_price_sales() {
    let (_discount_value, _percentage_discount) = discount(5_000, None).unwrap();
}

#[test]
fn discount_of_half() {
    let (value, percent) = discount(3_000, Some(1_500)).unwrap();
    assert_eq!(amount(value), 15.0);
    assert_eq!(percent, 50);
}

#[test]
fn discount_rounds_half_up() {
    assert_eq!(discount(300, Some(100)), Some((200, 67)));
    assert_eq!(discount(800, Some(796)), Some((4, 1)));
    assert_eq!(discount(0, Some(0)), Some((0, 0)));
}

#[test]
fn parse_price_string_all_cases() {
    assert_eq!(38.95, amount(parse_price_string("38,95 €").unwrap()));
    assert_eq!(38.95, amount(parse_price_string("38.95 $").unwrap()));
    assert_eq!(38.0, amount(parse_price_string("38 $").unwrap()));
    assert_eq!(38.0, amount(parse_price_string("38€").unwrap()));
    assert_eq!(38.3, amount(parse_price_string("38,3€").unwrap()));
}

#[test]
fn parse_price_string_rejects_what_is_not_a_number() {
    assert_eq!(parse_price_string(""), None);
    assert_eq!(parse_price_string("N/A"), None);
    assert_eq!(parse_price_string("1.234,56 €"), None);
    assert_eq!(parse_price_string("99999999999999999999 €"), None);
    assert_eq!(parse_price_string("  12,999 € "), Some(1299));
}

#[test]
fn parse_hundredths_of_a_rating() {
    assert_eq!(parse_hundredths(" 4.5 "), Some(450));
    assert_eq!(parse_hundredths("4"), Some(400));
    assert_eq!(parse_hundredths(""), None);
}

#[test]
fn normalized_rating_all_cases() {
    assert_eq!(1.0, amount(normalized_rating(2_000, 10_000)));
    assert_eq!(5.0, amount(normalized_rating(500, 500)));
    assert_eq!(0.5, amount(normalized_rating(100, 1_000)));
}

#[test]
fn normalized_rating_rounds_half_up() {
    assert_eq!(normalized_rating(100, 300), 167);
    assert_eq!(normalized_rating(0, 300), 0);
}

const PAGE: &str = r#"
            <!DOCTYPE html>
            <meta charset="utf-8">
            <title>Hello, world!</title>
            <h1 class="foo">Hello, <i>world!</i></h1>
        "#;

#[test]
fn inner_html_value_all_cases() {
    let document = parse_document(PAGE);
    let element = root_element(&document).unwrap();
    let ok_result = inner_html_value(&element, "h1");
    assert!(Result::is_ok(&ok_result));
    assert_eq!(ok_result.unwrap(), "Hello, <i>world!</i>");

    let element_not_found_result = inner_html_value(&element, "h2");
    assert!(Result::is_err(&element_not_found_result));
    assert_eq!(
        element_not_found_result.unwrap_err(),
        HtmlSearchError::ElementNotFound("h2".to_string())
    );
}

#[test]
fn attribute_html_value_all_cases() {
    let document = parse_document(PAGE);
    let element = root_element(&document).unwrap();
    let ok_result = attribute_html_value(&element, "h1", "class");
    assert!(Result::is_ok(&ok_result));
    assert_eq!(ok_result.unwrap(), "foo");

    let element_not_found_result = attribute_html_value(&element, "h2", "class");
    assert!(Result::is_err(&element_not_found_result));
    assert_eq!(
        element_not_found_result.clone().unwrap_err(),
        HtmlSearchError::ElementNotFound("h2".to_string())
    );
    println!(
        "Testing Debug trait for HtmlSearchError::ElementNotFound: {:?}",
        element_not_found_result.unwrap_err()
    );

    let attribute_not_found_result = attribute_html_value(&element, "h1", "id");
    assert!(Result::is_err(&attribute_not_found_result));
    assert_eq!(
        attribute_not_found_result.clone().unwrap_err(),
        HtmlSearchError::AttributeNotFound("id".to_string())
    );
    println!(
        "Testing Debug trait for HtmlSearchError::AttributeNotFound: {:?}",
        attribute_not_found_result.unwrap_err()
    );
}

#[test]
fn has_html_selector_all_cases() {
    let document = parse_document(PAGE);
    let element = root_element(&document).unwrap();
    assert!(has_html_selector(&element, "h1"));
    assert!(!has_html_selector(&element, "h2"));
}

#[test]
fn invalid_selector_finds_nothing() {
    let document = parse_document(PAGE);
    let element = root_element(&document).unwrap();
    assert!(!has_html_selector(&element, ">>"));
}

#[test]
fn html_search_error_messages() {
    assert_eq!(
        HtmlSearchError::ElementNotFound("h2".to_string()).message(),
        "selector: \"h2\" not found."
    );
    assert_eq!(
        HtmlSearchError::AttributeNotFound("id".to_string()).message(),
        "attribute: \"id\" not found."
    );
}

#[test]
fn parse_count_reads_whole_numbers() {
    assert_eq!(scrapped_webs::utilities::parse_count(" 1500 "), Some(1500));
    assert_eq!(scrapped_webs::utilities::parse_count("45.5"), None);
    assert_eq!(scrapped_webs::utilities::parse_count(""), None);
}

#[test]
fn root_element_of_a_document_without_elements() {
    let empty = scraper::Html::new_document();
    assert!(root_element(&empty).is_none());
    let parsed = parse_document("");
    assert!(root_element(&parsed).is_some());
}
