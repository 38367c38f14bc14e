//! How a search on a retailer can come out empty.
use vstd::prelude::*;

verus! {

/// Why a search on a retailer produced no usable results.
#[derive(Clone, Copy, Debug, PartialEq, Eq, Structural, PartialOrd, Ord, Hash)]
pub enum SearchError {
    /// The retailer did not answer in time.
    Timeout,
    /// Results were listed, but none came close enough to the query.
    NotEnoughSimilarity,
    /// The retailer listed no result at all.
    NotFound,
}

impl SearchError {
    /// The message shown to a user for this outcome.
    pub fn to_string(&self) -> (r: String)
        ensures
            *self == SearchError::Timeout ==> r@ == "timeout when doing the petition."@,
            *self == SearchError::NotEnoughSimilarity ==> r@
                == "not found any result above the minimum similarity rate."@,
            *self == SearchError::NotFound ==> r@ == "not found any result."@,
    {
        match self {
            SearchError::Timeout => "timeout when doing the petition.".to_string(),
            SearchError::NotEnoughSimilarity => {
                "not found any result above the minimum similarity rate.".to_string()
            },
            SearchError::NotFound => "not found any result.".to_string(),
        }
    }
}

} // verus!
