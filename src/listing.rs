//! Choosing, from the rows of a search-results page, the product pages worth fetching.
use vstd::prelude::*;
use crate::configuration::Configuration;
use crate::scrappable::SearchError;
use crate::text::{chars_equal, chars_of};

verus! {

/// One result on a search-results page: the name it shows and the link it holds,
/// if any.
#[derive(Clone, Debug, PartialEq)]
pub struct ListingRow {
    pub full_name: String,
    pub url: Option<String>,
}

/// Whether row `i` is kept: it is close enough to the query and, where tone rows
/// are folded together, no earlier kept-by-threshold row shows the same name.
pub open spec fn accepted(
    rows: Seq<ListingRow>,
    sims: Seq<u32>,
    min_similarity: u32,
    fold_tones: bool,
    i: int,
) -> bool {
    sims[i] >= min_similarity && (!fold_tones || !exists|j: int|
        0 <= j < i && sims[j] >= min_similarity && #[trigger] rows[j].full_name@
            == rows[i].full_name@)
}

/// The links of the kept rows among the first `n`, in page order.
pub open spec fn selected_urls(
    rows: Seq<ListingRow>,
    sims: Seq<u32>,
    min_similarity: u32,
    fold_tones: bool,
    n: int,
) -> Seq<Seq<char>>
    decreases n,
{
    if n <= 0 {
        Seq::empty()
    } else {
        let earlier = selected_urls(rows, sims, min_similarity, fold_tones, n - 1);
        if accepted(rows, sims, min_similarity, fold_tones, n - 1) && rows[n - 1].url is Some {
            earlier.push(rows[n - 1].url->0@)
        } else {
            earlier
        }
    }
}

/// The characters of each link.
pub open spec fn urls_view(urls: Seq<String>) -> Seq<Seq<char>> {
    urls.map_values(|u: String| u@)
}

/// The outcome of choosing among `rows`: `NotFound` for an empty page,
/// `NotEnoughSimilarity` when no row is kept, else the first `max_results` links kept.
pub open spec fn selection(
    rows: Seq<ListingRow>,
    sims: Seq<u32>,
    config: Configuration,
    fold_tones: bool,
) -> Result<Seq<Seq<char>>, SearchError> {
    let all = selected_urls(rows, sims, config.min_similarity, fold_tones, rows.len() as int);
    if rows.len() == 0 {
        Err(SearchError::NotFound)
    } else if all.len() == 0 {
        Err(SearchError::NotEnoughSimilarity)
    } else if all.len() <= config.max_results {
        Ok(all)
    } else {
        Ok(all.take(config.max_results as int))
    }
}

/// What a `Result` of links holds, as characters.
pub open spec fn result_view(r: Result<Vec<String>, SearchError>) -> Result<
    Seq<Seq<char>>,
    SearchError,
> {
    match r {
        Ok(v) => Ok(urls_view(v@)),
        Err(e) => Err(e),
    }
}

/// Selected links only grow as more rows are read.
pub proof fn lemma_selected_prefix(
    rows: Seq<ListingRow>,
    sims: Seq<u32>,
    min_similarity: u32,
    fold_tones: bool,
    m: int,
    n: int,
)
    requires
        0 <= m <= n,
    ensures
        selected_urls(rows, sims, min_similarity, fold_tones, m)
            == selected_urls(rows, sims, min_similarity, fold_tones, n).take(
            selected_urls(rows, sims, min_similarity, fold_tones, m).len() as int,
        ),
        selected_urls(rows, sims, min_similarity, fold_tones, m).len() <= selected_urls(
            rows,
            sims,
            min_similarity,
            fold_tones,
            n,
        ).len(),
    decreases n - m,
{
    if m < n {
        lemma_selected_prefix(rows, sims, min_similarity, fold_tones, m, n - 1);
        let a = selected_urls(rows, sims, min_similarity, fold_tones, m);
        let b = selected_urls(rows, sims, min_similarity, fold_tones, n - 1);
        let c = selected_urls(rows, sims, min_similarity, fold_tones, n);
        assert(c == b || c == b.push(rows[n - 1].url->0@));
        assert(c.take(a.len() as int) =~= b.take(a.len() as int));
    } else {
        let a = selected_urls(rows, sims, min_similarity, fold_tones, m);
        assert(a.take(a.len() as int) =~= a);
    }
}

/// Whether some row before `i` passes the threshold and shows the same name as row `i`.
fn seen_before(
    names: &Vec<Vec<char>>,
    rows: &Vec<ListingRow>,
    sims: &Vec<u32>,
    min_similarity: u32,
    i: usize,
) -> (r: bool)
    requires
        names@.len() == rows@.len(),
        sims@.len() == rows@.len(),
        i < rows@.len(),
        forall|k: int| 0 <= k < rows@.len() ==> #[trigger] names@[k]@ == rows@[k].full_name@,
    ensures
        r == exists|j: int|
            0 <= j < i && sims@[j] >= min_similarity && #[trigger] rows@[j].full_name@
                == rows@[i as int].full_name@,
{
    let mut j: usize = 0;
    while j < i
        invariant
            names@.len() == rows@.len(),
            sims@.len() == rows@.len(),
            i < rows@.len(),
            j <= i,
            forall|k: int| 0 <= k < rows@.len() ==> #[trigger] names@[k]@ == rows@[k].full_name@,
            forall|k: int|
                0 <= k < j ==> !(sims@[k] >= min_similarity && #[trigger] rows@[k].full_name@
                    == rows@[i as int].full_name@),
        decreases i - j,
    {
        if sims[j] >= min_similarity && chars_equal(&names[j], &names[i]) {
            assert(names@[j as int]@ == rows@[j as int].full_name@);
            assert(names@[i as int]@ == rows@[i as int].full_name@);
            return true;
        }
        j = j + 1;
    }
    false
}

/// Chooses which rows of a search-results page to follow.
///
/// `similarities[i]` is how close row `i` comes to the query, in millionths. A row
/// is kept when that reaches the configured threshold and it has a link; with
/// `fold_tones`, a row that repeats the name of an earlier row that reached the
/// threshold is a tone of that product and is skipped. At most
/// `config.max_results` links come back, in page order.
pub fn select_result_urls(
    rows: &Vec<ListingRow>,
    similarities: &Vec<u32>,
    config: &Configuration,
    fold_tones: bool,
) -> (r: Result<Vec<String>, SearchError>)
    requires
        similarities@.len() == rows@.len(),
        config.wf(),
    ensures
        result_view(r) == selection(rows@, similarities@, *config, fold_tones),
{
    let ghost min = config.min_similarity;
    let mut names: Vec<Vec<char>> = Vec::new();
    let mut k: usize = 0;
    while k < rows.len()
        invariant
            k <= rows@.len(),
            names@.len() == k,
            forall|q: int| 0 <= q < k ==> #[trigger] names@[q]@ == rows@[q].full_name@,
        decreases rows@.len() - k,
    {
        names.push(chars_of(rows[k].full_name.as_str()));
        k = k + 1;
    }
    let mut urls: Vec<String> = Vec::new();
    let mut i: usize = 0;
    while i < rows.len()
        invariant
            similarities@.len() == rows@.len(),
            config.wf(),
            min == config.min_similarity,
            names@.len() == rows@.len(),
            forall|q: int| 0 <= q < rows@.len() ==> #[trigger] names@[q]@ == rows@[q].full_name@,
            i <= rows@.len(),
            urls@.len() < config.max_results,
            urls_view(urls@) == selected_urls(rows@, similarities@, min, fold_tones, i as int),
        decreases rows@.len() - i,
    {
        let passes = similarities[i] >= config.min_similarity;
        let repeat = if passes && fold_tones {
            seen_before(&names, rows, similarities, config.min_similarity, i)
        } else {
            false
        };
        let link: Option<String> = match &rows[i].url {
            Some(u) => Some(u.clone()),
            None => None,
        };
        if passes && !repeat && link.is_some() {
            let u = link.unwrap();
            urls.push(u);
            assert(urls_view(urls@) =~= selected_urls(
                rows@,
                similarities@,
                min,
                fold_tones,
                i as int + 1,
            ));
            if urls.len() == config.max_results {
                proof {
                    lemma_selected_prefix(
                        rows@,
                        similarities@,
                        min,
                        fold_tones,
                        i as int + 1,
                        rows@.len() as int,
                    );
                    let all = selected_urls(
                        rows@,
                        similarities@,
                        min,
                        fold_tones,
                        rows@.len() as int,
                    );
                    assert(all.take(config.max_results as int) == urls_view(urls@));
                    if all.len() <= config.max_results {
                        assert(all.take(config.max_results as int) =~= all);
                    }
                }
                return Ok(urls);
            }
        } else {
            assert(urls_view(urls@) =~= selected_urls(
                rows@,
                similarities@,
                min,
                fold_tones,
                i as int + 1,
            ));
        }
        i = i + 1;
    }
    if rows.len() == 0 {
        Err(SearchError::NotFound)
    } else if urls.len() == 0 {
        Err(SearchError::NotEnoughSimilarity)
    } else {
        Ok(urls)
    }
}

} // verus!
