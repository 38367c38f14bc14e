//! Finds cosmetics on retailer websites and ranks what it finds against the query.
//!
//! Amounts are whole numbers: prices in cents, ratings in hundredths of a star on
//! a five-star scale, similarities in millionths of a perfect match.
//!
//! - `text`: character-level string rules (trim, split on a dash, decimals).
//! - `utilities`: prices, discounts and ratings.
//! - `scrapping`: lookups in parsed HTML by CSS selector.
//! - `product`, `scrappable`, `configuration`, `parameters`: the data a search uses and yields.
//! - `fields`: page texts turned into record fields.
//! - `listing`: which rows of a results page are followed.
//! - `sephora`, `maquillalia`: the two retailers.
//! - `ranking`: ordering and gathering products.
//! - `display`: the terminal lines of products and tones.
//! - `laws`: properties of a search proved for all inputs.
pub mod configuration;
pub mod display;
pub mod fields;
pub mod laws;
pub mod listing;
pub mod maquillalia;
pub mod parameters;
pub mod product;
pub mod ranking;
pub mod scrappable;
pub mod scrapping;
pub mod sephora;
pub mod text;
pub mod utilities;
