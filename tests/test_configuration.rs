use scrapped_webs::configuration::{Configuration, MAX_RESULTS};
use scrapped_webs::parameters::{ParametersProcessor, SortingType, Website};

/// A threshold in millionths read as a fraction.
fn fraction(ppm: u32) -> f32 {
    ppm as f32 / 1_000_000.0
}

#[test]
fn configuration_creation() {
    let configuration = Configuration::new(100_000, 10);
    assert_eq!(fraction(configuration.min_similarity()), 0.1);
    assert_eq!(configuration.max_results(), 10);
}

/// Sets up a processor as a command line would.
fn tear_up(
    product: String,
    max_results: usize,
    min_similarity: f32,
    websites: Vec<Website>,
    sort_by: SortingType,
) -> ParametersProcessor {
    let ppm = (min_similarity as f64 * 1_000_000.0).round() as u64;
    ParametersProcessor::new(product, max_results, ppm, websites, sort_by)
}

#[test]
fn new_happy_path() {
    let parameters_processor = tear_up(
        String::from("Pintalabios"),
        15,
        0.0,
        vec![Website::SephoraSpain],
        SortingType::Similarity,
    );
    assert_eq!(parameters_processor.product(), "Pintalabios");
    assert_eq!(parameters_processor.configuration().max_results(), 15);
    assert_eq!(fraction(parameters_processor.configuration().min_similarity()), 0.0);
    assert_eq!(parameters_processor.websites(), &vec![Website::SephoraSpain]);
}

#[test]
fn new_max_results_greater_than_max_allowed() {
    let parameters_processor = tear_up(
        String::from("Pintalabios"),
        1000,
        0.0,
        vec![Website::SephoraSpain],
        SortingType::Similarity,
    );
    assert_eq!(parameters_processor.configuration().max_results(), MAX_RESULTS);
}

#[test]
fn new_min_similarity_greater_than_1() {
    let parameters_processor = tear_up(
        String::from("Pintalabios"),
        15,
        1.1,
        vec![Website::SephoraSpain],
        SortingType::Similarity,
    );
    assert_eq!(fraction(parameters_processor.configuration().min_similarity()), 1.0);
}

#[test]
fn configuration() {
    let max_results = 15;
    let min_similarity = 0.0;
    let parameters_processor = tear_up(
        String::from("Pintalabios"),
        max_results,
        min_similarity,
        vec![Website::SephoraSpain],
        SortingType::Similarity,
    );
    assert_eq!(parameters_processor.configuration().max_results(), max_results);
    assert_eq!(
        fraction(parameters_processor.configuration().min_similarity()),
        min_similarity
    );
}

#[test]
fn websites() {
    let websites = vec![Website::SephoraSpain];
    let parameters_processor = tear_up(
        String::from("Pintalabios"),
        15,
        0.0,
        websites.clone(),
        SortingType::Similarity,
    );
    assert_eq!(
        *parameters_processor.websites().first().unwrap(),
        *websites.first().unwrap()
    );
}

#[test]
fn product() {
    let product = String::from("Pintalabios");
    let parameters_processor = tear_up(
        product.clone(),
        15,
        0.0,
        vec![Website::SephoraSpain],
        SortingType::Similarity,
    );
    assert_eq!(*parameters_processor.product(), product);
}

#[test]
fn zero_cap_becomes_one() {
    let c = Configuration::clamped(0, 0);
    assert_eq!(c.max_results(), 1);
    assert_eq!(c.min_similarity(), 0);
}

#[test]
fn sorting_type_names() {
    assert_eq!(SortingType::Name.to_string(), "name");
    assert_eq!(SortingType::Price.to_string(), "price");
    assert_eq!(SortingType::Similarity.to_string(), "similarity");
    assert_eq!(SortingType::Brand.to_string(), "brand");
    assert_eq!(SortingType::Rating.to_string(), "rating");
}

#[test]
fn all_websites_expand_to_every_retailer() {
    assert_eq!(scrapped_webs::parameters::retailers_to_search(&vec![Website::All]), (true, true));
    assert_eq!(
        scrapped_webs::parameters::retailers_to_search(&vec![Website::Maquillalia]),
        (false, true)
    );
    assert_eq!(scrapped_webs::parameters::retailers_to_search(&vec![]), (false, false));
}
