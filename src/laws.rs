//! Properties that hold across the functions of a search, proved once for all inputs.
use vstd::prelude::*;
use crate::configuration::Configuration;
use crate::listing::{accepted, selected_urls, selection, ListingRow};
use crate::maquillalia::gathered;
use crate::product::Product;
use crate::ranking::succeeded;
use crate::scrappable::SearchError;

verus! {

/// All the links that a sequence of pages offered, page after page.
pub open spec fn all_links(pages: Seq<Seq<Seq<char>>>) -> Seq<Seq<char>>
    decreases pages.len(),
{
    if pages.len() == 0 {
        Seq::empty()
    } else {
        all_links(pages.drop_last()) + pages.last()
    }
}

/// The links a paged search holds after taking in `pages` one after the other.
pub open spec fn paged(pages: Seq<Seq<Seq<char>>>, max_results: nat) -> Seq<Seq<char>>
    decreases pages.len(),
{
    if pages.len() == 0 {
        Seq::empty()
    } else {
        gathered(paged(pages.drop_last(), max_results), pages.last(), max_results)
    }
}

/// The first `max_results` of `s`, or all of it when it is shorter.
pub open spec fn first_at_most(s: Seq<Seq<char>>, max_results: nat) -> Seq<Seq<char>> {
    if s.len() <= max_results {
        s
    } else {
        s.take(max_results as int)
    }
}

/// How many fetches failed.
pub open spec fn failures(results: Seq<Option<Product>>) -> nat
    decreases results.len(),
{
    if results.len() == 0 {
        0
    } else {
        failures(results.drop_last()) + if results.last() is None {
            1nat
        } else {
            0nat
        }
    }
}

/// However many pages a search reads, it holds exactly the first `max_results`
/// links that the pages offered: all of them when there are fewer, never more.
pub proof fn paging_keeps_the_first_links(pages: Seq<Seq<Seq<char>>>, max_results: nat)
    ensures
        paged(pages, max_results) == first_at_most(all_links(pages), max_results),
    decreases pages.len(),
{
    if pages.len() > 0 {
        paging_keeps_the_first_links(pages.drop_last(), max_results);
        let earlier = all_links(pages.drop_last());
        let last = pages.last();
        if earlier.len() > max_results {
            assert((earlier.take(max_results as int) + last).take(max_results as int) =~= (earlier
                + last).take(max_results as int));
        }
    }
}

proof fn lemma_nothing_selected(rows: Seq<ListingRow>, sims: Seq<u32>, min_similarity: u32, fold_tones: bool, n: int)
    requires
        0 <= n <= rows.len(),
        sims.len() == rows.len(),
        forall|i: int| 0 <= i < n ==> sims[i] < min_similarity,
    ensures
        selected_urls(rows, sims, min_similarity, fold_tones, n).len() == 0,
    decreases n,
{
    if n > 0 {
        lemma_nothing_selected(rows, sims, min_similarity, fold_tones, n - 1);
    }
}

/// A page with rows, none of which comes close enough to the query, gives
/// `NotEnoughSimilarity`; a page without rows gives `NotFound`.
pub proof fn threshold_excludes_weak_matches(
    rows: Seq<ListingRow>,
    sims: Seq<u32>,
    config: Configuration,
    fold_tones: bool,
)
    requires
        sims.len() == rows.len(),
        forall|i: int| 0 <= i < rows.len() ==> sims[i] < config.min_similarity,
    ensures
        rows.len() > 0 ==> selection(rows, sims, config, fold_tones) == Err::<
            Seq<Seq<char>>,
            SearchError,
        >(SearchError::NotEnoughSimilarity),
        rows.len() == 0 ==> selection(rows, sims, config, fold_tones) == Err::<
            Seq<Seq<char>>,
            SearchError,
        >(SearchError::NotFound),
{
    lemma_nothing_selected(rows, sims, config.min_similarity, fold_tones, rows.len() as int);
}

proof fn lemma_selected_has_passing_row(
    rows: Seq<ListingRow>,
    sims: Seq<u32>,
    min_similarity: u32,
    n: int,
)
    requires
        0 <= n <= rows.len(),
        sims.len() == rows.len(),
        selected_urls(rows, sims, min_similarity, true, n).len() > 0,
    ensures
        exists|j: int| 0 <= j < n && sims[j] >= min_similarity,
    decreases n,
{
    if n > 0 {
        if selected_urls(rows, sims, min_similarity, true, n - 1).len() > 0 {
            lemma_selected_has_passing_row(rows, sims, min_similarity, n - 1);
        } else {
            assert(sims[n - 1] >= min_similarity);
        }
    }
}

/// Rows that all show one name, such as the tones of one product, give at most
/// one link when tone rows are folded.
pub proof fn tone_rows_fold_to_one_link(
    rows: Seq<ListingRow>,
    sims: Seq<u32>,
    min_similarity: u32,
    n: int,
)
    requires
        0 <= n <= rows.len(),
        sims.len() == rows.len(),
        forall|i: int, j: int|
            0 <= i < n && 0 <= j < n ==> #[trigger] rows[i].full_name@ == #[trigger] rows[j].full_name@,
    ensures
        selected_urls(rows, sims, min_similarity, true, n).len() <= 1,
    decreases n,
{
    if n > 0 {
        tone_rows_fold_to_one_link(rows, sims, min_similarity, n - 1);
        if selected_urls(rows, sims, min_similarity, true, n - 1).len() > 0 {
            lemma_selected_has_passing_row(rows, sims, min_similarity, n - 1);
            let j = choose|j: int| 0 <= j < n - 1 && sims[j] >= min_similarity;
            assert(rows[j].full_name@ == rows[n - 1].full_name@);
            assert(!accepted(rows, sims, min_similarity, true, n - 1));
        }
    }
}

/// A failed fetch costs its own product and no other: the products kept are as
/// many as the fetches less the failures.
pub proof fn failures_drop_only_themselves(results: Seq<Option<Product>>)
    ensures
        succeeded(results).len() + failures(results) == results.len(),
    decreases results.len(),
{
    if results.len() > 0 {
        failures_drop_only_themselves(results.drop_last());
    }
}

/// Rows that all show one name, the first of which comes close enough to the
/// query and has a link, give exactly that link when tone rows are folded.
pub proof fn tone_rows_give_the_first_link(
    rows: Seq<ListingRow>,
    sims: Seq<u32>,
    min_similarity: u32,
    n: int,
)
    requires
        1 <= n <= rows.len(),
        sims.len() == rows.len(),
        forall|i: int| 0 <= i < n ==> #[trigger] rows[i].full_name@ == rows[0].full_name@,
        sims[0] >= min_similarity,
        rows[0].url is Some,
    ensures
        selected_urls(rows, sims, min_similarity, true, n) == seq![rows[0].url->0@],
    decreases n,
{
    if n == 1 {
        assert(accepted(rows, sims, min_similarity, true, 0));
        assert(selected_urls(rows, sims, min_similarity, true, 0) =~= Seq::<Seq<char>>::empty());
        assert(Seq::<Seq<char>>::empty().push(rows[0].url->0@) =~= seq![rows[0].url->0@]);
    } else {
        tone_rows_give_the_first_link(rows, sims, min_similarity, n - 1);
        assert(rows[0].full_name@ == rows[n - 1].full_name@);
        assert(!accepted(rows, sims, min_similarity, true, n - 1));
    }
}

} // verus!
