//! What a user chooses: which retailers to ask and how to order what they return.
use vstd::prelude::*;
use crate::configuration::Configuration;

verus! {

/// A retailer, or all of them.
#[derive(Clone, Copy, Debug, Hash, PartialEq, Eq, Structural, PartialOrd, Ord)]
pub enum Website {
    /// All the websites.
    All,
    /// www.sephora.es
    SephoraSpain,
    /// www.maquillalia.com
    Maquillalia,
}

/// The order in which results are listed.
#[derive(Clone, Copy, Debug, Hash, PartialEq, Eq, Structural, PartialOrd, Ord)]
pub enum SortingType {
    /// By name, A to Z.
    Name,
    /// By price, highest first.
    Price,
    /// By similarity to the query, closest first.
    Similarity,
    /// By brand, A to Z.
    Brand,
    /// By rating, best first.
    Rating,
}

impl SortingType {
    /// The word that names this order.
    pub fn to_string(&self) -> (r: String)
        ensures
            *self == SortingType::Name ==> r@ == "name"@,
            *self == SortingType::Price ==> r@ == "price"@,
            *self == SortingType::Similarity ==> r@ == "similarity"@,
            *self == SortingType::Brand ==> r@ == "brand"@,
            *self == SortingType::Rating ==> r@ == "rating"@,
    {
        match self {
            SortingType::Name => "name".to_string(),
            SortingType::Price => "price".to_string(),
            SortingType::Similarity => "similarity".to_string(),
            SortingType::Brand => "brand".to_string(),
            SortingType::Rating => "rating".to_string(),
        }
    }
}

/// Whether a choice of websites asks for `site`: named itself, or through `All`.
pub open spec fn asks_for(websites: Seq<Website>, site: Website) -> bool {
    exists|i: int| 0 <= i < websites.len() && (#[trigger] websites[i] == site || websites[i] == Website::All)
}

/// Whether Sephora and Maquillalia, in that order, are to be searched.
pub fn retailers_to_search(websites: &Vec<Website>) -> (r: (bool, bool))
    ensures
        r.0 == asks_for(websites@, Website::SephoraSpain),
        r.1 == asks_for(websites@, Website::Maquillalia),
{
    let mut sephora = false;
    let mut maquillalia = false;
    let mut i: usize = 0;
    while i < websites.len()
        invariant
            i <= websites@.len(),
            sephora == exists|k: int|
                0 <= k < i && (#[trigger] websites@[k] == Website::SephoraSpain || websites@[k]
                    == Website::All),
            maquillalia == exists|k: int|
                0 <= k < i && (#[trigger] websites@[k] == Website::Maquillalia || websites@[k]
                    == Website::All),
        decreases websites@.len() - i,
    {
        let w = websites[i];
        if w == Website::SephoraSpain || w == Website::All {
            sephora = true;
        }
        if w == Website::Maquillalia || w == Website::All {
            maquillalia = true;
        }
        i = i + 1;
    }
    (sephora, maquillalia)
}

/// What a user asked for: the product, the settings, the retailers and the order.
pub struct ParametersProcessor {
    configuration: Configuration,
    websites: Vec<Website>,
    product: String,
    sorting_type: SortingType,
}

impl ParametersProcessor {
    pub closed spec fn spec_configuration(&self) -> Configuration {
        self.configuration
    }

    pub closed spec fn spec_websites(&self) -> Seq<Website> {
        self.websites@
    }

    pub closed spec fn spec_product(&self) -> Seq<char> {
        self.product@
    }

    pub closed spec fn spec_sorting_type(&self) -> SortingType {
        self.sorting_type
    }

    /// The parameters of a search, with the threshold (in millionths) and the cap
    /// brought into range as `Configuration::clamped` does.
    pub fn new(
        product: String,
        max_results: usize,
        min_similarity: u64,
        websites: Vec<Website>,
        sorting_type: SortingType,
    ) -> (r: Self)
        ensures
            r.spec_configuration() == Configuration::clamped_spec(min_similarity, max_results),
            r.spec_configuration().wf(),
            r.spec_websites() == websites@,
            r.spec_product() == product@,
            r.spec_sorting_type() == sorting_type,
    {
        let configuration = Configuration::clamped(min_similarity, max_results);
        ParametersProcessor { configuration, websites, product, sorting_type }
    }

    /// The settings for the search.
    pub fn configuration(&self) -> (r: &Configuration)
        ensures
            *r == self.spec_configuration(),
    {
        &self.configuration
    }

    /// The product to search for.
    pub fn product(&self) -> (r: &String)
        ensures
            r@ == self.spec_product(),
    {
        &self.product
    }

    /// The retailers to search.
    pub fn websites(&self) -> (r: &Vec<Website>)
        ensures
            r@ == self.spec_websites(),
    {
        &self.websites
    }

    /// The order of the results.
    pub fn sorting_type(&self) -> (r: &SortingType)
        ensures
            *r == self.spec_sorting_type(),
    {
        &self.sorting_type
    }
}

} // verus!
