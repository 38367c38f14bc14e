//! The settings that every search runs under.
use vstd::prelude::*;

verus! {

/// Similarities are millionths: this stands for a perfect match.
pub const SIMILARITY_SCALE: u32 = 1_000_000;

/// The most results that a search may be asked for.
pub const MAX_RESULTS: usize = 200;

/// The threshold and the cap that a search runs under.
#[derive(Clone, Copy, Debug, PartialEq, Eq, Structural)]
pub struct Configuration {
    /// The least similarity, in millionths, that a result needs to be kept.
    pub min_similarity: u32,
    /// The most results to keep.
    pub max_results: usize,
}

impl Configuration {
    /// Whether the settings are in range: a threshold no higher than a perfect
    /// match and a cap of at least one.
    pub open spec fn wf(&self) -> bool {
        self.min_similarity <= SIMILARITY_SCALE && self.max_results >= 1
    }

    /// Settings with this threshold (in millionths) and this cap.
    pub fn new(min_similarity: u32, max_results: usize) -> (r: Self)
        requires
            min_similarity <= SIMILARITY_SCALE,
            max_results >= 1,
        ensures
            r.min_similarity == min_similarity,
            r.max_results == max_results,
            r.wf(),
    {
        Configuration { min_similarity, max_results }
    }

    /// Settings from values a user gave, brought into range: a threshold above a
    /// perfect match becomes a perfect match, a cap above `MAX_RESULTS` becomes
    /// `MAX_RESULTS`, and a cap of zero becomes one.
    pub open spec fn clamped_spec(min_similarity: u64, max_results: usize) -> Configuration {
        Configuration {
            min_similarity: if min_similarity > SIMILARITY_SCALE {
                SIMILARITY_SCALE
            } else {
                min_similarity as u32
            },
            max_results: if max_results > MAX_RESULTS {
                MAX_RESULTS
            } else if max_results == 0 {
                1
            } else {
                max_results
            },
        }
    }

    /// Settings from values a user gave, brought into range as `clamped_spec` says.
    pub fn clamped(min_similarity: u64, max_results: usize) -> (r: Self)
        ensures
            r == Self::clamped_spec(min_similarity, max_results),
            r.wf(),
    {
        let s: u32 = if min_similarity > SIMILARITY_SCALE as u64 {
            SIMILARITY_SCALE
        } else {
            min_similarity as u32
        };
        let m: usize = if max_results > MAX_RESULTS {
            MAX_RESULTS
        } else if max_results == 0 {
            1
        } else {
            max_results
        };
        Configuration { min_similarity: s, max_results: m }
    }

    /// The least similarity, in millionths, that a result needs.
    pub fn min_similarity(&self) -> (r: u32)
        ensures
            r == self.min_similarity,
    {
        self.min_similarity
    }

    /// The most results to keep.
    pub fn max_results(&self) -> (r: usize)
        ensures
            r == self.max_results,
    {
        self.max_results
    }
}

} // verus!
