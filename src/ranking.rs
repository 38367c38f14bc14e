//! Ordering the products that a retailer returned, and gathering them.
use vstd::prelude::*;
use vstd::multiset::Multiset;
use crate::parameters::SortingType;
use crate::product::{effective_price, Product};
use crate::text::chars_of;

verus! {

/// Whether `a` comes strictly before `b` in the order of character codes.
pub open spec fn text_lt(a: Seq<char>, b: Seq<char>) -> bool
    decreases a.len(),
{
    if a.len() == 0 {
        b.len() > 0
    } else if b.len() == 0 {
        false
    } else if a[0] != b[0] {
        (a[0] as u32) < (b[0] as u32)
    } else {
        text_lt(a.drop_first(), b.drop_first())
    }
}

/// Whether an optional text comes strictly before another; an absent one comes first.
pub open spec fn opt_text_lt(a: Option<String>, b: Option<String>) -> bool {
    match (a, b) {
        (None, Some(_)) => true,
        (Some(x), Some(y)) => text_lt(x@, y@),
        _ => false,
    }
}

/// Whether price `a` ranks strictly before price `b`: higher first, absent last.
pub open spec fn price_lt(a: Option<u64>, b: Option<u64>) -> bool {
    match (a, b) {
        (Some(_), None) => true,
        (Some(x), Some(y)) => x > y,
        _ => false,
    }
}

/// A rating, with an absent one read as zero.
pub open spec fn rating_or_zero(r: Option<u64>) -> u64 {
    match r {
        Some(x) => x,
        None => 0,
    }
}

/// Whether `p` comes strictly before `q` when ordering `by` a criterion.
pub open spec fn precedes(p: Product, q: Product, by: SortingType) -> bool {
    match by {
        SortingType::Name => text_lt(p.name@, q.name@),
        SortingType::Brand => opt_text_lt(p.brand, q.brand),
        SortingType::Similarity => p.similarity > q.similarity,
        SortingType::Price => price_lt(
            effective_price(p.price_standard, p.price_sales),
            effective_price(q.price_standard, q.price_sales),
        ),
        SortingType::Rating => rating_or_zero(p.rating) > rating_or_zero(q.rating),
    }
}

/// Whether no product of `s` comes strictly before one listed ahead of it.
pub open spec fn sorted_by(s: Seq<Product>, by: SortingType) -> bool {
    forall|i: int, j: int| 0 <= i < j < s.len() ==> !#[trigger] precedes(s[j], s[i], by)
}

proof fn lemma_text_lt_transitive(a: Seq<char>, b: Seq<char>, c: Seq<char>)
    requires
        text_lt(a, b),
        text_lt(b, c),
    ensures
        text_lt(a, c),
    decreases a.len(),
{
    if a.len() > 0 && b.len() > 0 && c.len() > 0 && a[0] == b[0] && b[0] == c[0] {
        lemma_text_lt_transitive(a.drop_first(), b.drop_first(), c.drop_first());
    }
}

proof fn lemma_text_lt_asymmetric(a: Seq<char>, b: Seq<char>)
    requires
        text_lt(a, b),
    ensures
        !text_lt(b, a),
    decreases a.len(),
{
    if a.len() > 0 && b.len() > 0 && a[0] == b[0] {
        lemma_text_lt_asymmetric(a.drop_first(), b.drop_first());
    }
}

/// Coming strictly before is transitive, whatever the criterion.
pub proof fn lemma_precedes_transitive(p: Product, q: Product, r: Product, by: SortingType)
    requires
        precedes(p, q, by),
        precedes(q, r, by),
    ensures
        precedes(p, r, by),
{
    match by {
        SortingType::Name => lemma_text_lt_transitive(p.name@, q.name@, r.name@),
        SortingType::Brand => {
            if p.brand is Some {
                lemma_text_lt_transitive(p.brand->0@, q.brand->0@, r.brand->0@);
            }
        },
        _ => {},
    }
}

/// No product comes strictly before one that comes strictly before it.
pub proof fn lemma_precedes_asymmetric(p: Product, q: Product, by: SortingType)
    requires
        precedes(p, q, by),
    ensures
        !precedes(q, p, by),
{
    match by {
        SortingType::Name => lemma_text_lt_asymmetric(p.name@, q.name@),
        SortingType::Brand => {
            if p.brand is Some {
                lemma_text_lt_asymmetric(p.brand->0@, q.brand->0@);
            }
        },
        _ => {},
    }
}

fn chars_lt(a: &Vec<char>, b: &Vec<char>) -> (r: bool)
    ensures
        r == text_lt(a@, b@),
{
    let mut i: usize = 0;
    assert(a@.skip(0) =~= a@);
    assert(b@.skip(0) =~= b@);
    while i < a.len() && i < b.len() && a[i] == b[i]
        invariant
            i <= a@.len(),
            i <= b@.len(),
            forall|k: int| 0 <= k < i ==> a@[k] == b@[k],
            text_lt(a@, b@) == text_lt(a@.skip(i as int), b@.skip(i as int)),
        decreases a@.len() - i,
    {
        proof {
            assert(a@.skip(i as int).drop_first() =~= a@.skip(i as int + 1));
            assert(b@.skip(i as int).drop_first() =~= b@.skip(i as int + 1));
        }
        i = i + 1;
    }
    if i == a.len() {
        i < b.len()
    } else if i == b.len() {
        false
    } else {
        assert(a@.skip(i as int)[0] == a@[i as int]);
        assert(b@.skip(i as int)[0] == b@[i as int]);
        assert(a@[i as int] != b@[i as int]);
        assert(text_lt(a@.skip(i as int), b@.skip(i as int)) == ((a@[i as int] as u32) < (
            b@[i as int] as u32)));
        (a[i] as u32) < (b[i] as u32)
    }
}

fn text_less(a: &String, b: &String) -> (r: bool)
    ensures
        r == text_lt(a@, b@),
{
    let x = chars_of(a.as_str());
    let y = chars_of(b.as_str());
    chars_lt(&x, &y)
}

/// Whether `p` comes strictly before `q` when ordering `by` a criterion.
pub fn comes_before(p: &Product, q: &Product, by: SortingType) -> (r: bool)
    ensures
        r == precedes(*p, *q, by),
{
    match by {
        SortingType::Name => text_less(&p.name, &q.name),
        SortingType::Brand => match (&p.brand, &q.brand) {
            (None, Some(_)) => true,
            (Some(x), Some(y)) => text_less(x, y),
            _ => false,
        },
        SortingType::Similarity => p.similarity > q.similarity,
        SortingType::Price => match (p.price(), q.price()) {
            (Some(_), None) => true,
            (Some(x), Some(y)) => x > y,
            _ => false,
        },
        SortingType::Rating => {
            let a: u64 = match p.rating {
                Some(x) => x,
                None => 0,
            };
            let b: u64 = match q.rating {
                Some(x) => x,
                None => 0,
            };
            a > b
        },
    }
}

proof fn lemma_insert_multiset(s: Seq<Product>, i: int, x: Product)
    requires
        0 <= i <= s.len(),
    ensures
        s.insert(i, x).to_multiset() =~= s.to_multiset().insert(x),
{
    broadcast use vstd::seq_lib::group_to_multiset_ensures;

    let t = s.insert(i, x);
    assert(t.remove(i) =~= s);
    assert(t[i] == x);
    t.to_multiset_ensures();
    assert(t.contains(x));
    assert(t.to_multiset().count(x) > 0);
}

/// Puts `products` in the order that `by` sets. The result holds the same products.
pub fn sort_products(products: &mut Vec<Product>, by: SortingType)
    ensures
        final(products)@.to_multiset() == old(products)@.to_multiset(),
        sorted_by(final(products)@, by),
{
    broadcast use vstd::seq_lib::group_to_multiset_ensures;

    let mut input: Vec<Product> = Vec::new();
    std::mem::swap(products, &mut input);
    let ghost start = input@;
    let mut out: Vec<Product> = Vec::new();
    while input.len() > 0
        invariant
            out@.to_multiset().add(input@.to_multiset()) =~= start.to_multiset(),
            sorted_by(out@, by),
        decreases input@.len(),
    {
        let ghost before_input = input@;
        let p = input.remove(0);
        assert(input@ =~= before_input.remove(0));
        assert(p == before_input[0]);
        assert(before_input.contains(p));
        proof {
            before_input.to_multiset_ensures();
        }
        assert(before_input.to_multiset().count(p) > 0);
        let mut pos: usize = 0;
        while pos < out.len() && !comes_before(&p, &out[pos], by)
            invariant
                pos <= out@.len(),
                forall|k: int| 0 <= k < pos ==> !#[trigger] precedes(p, out@[k], by),
            decreases out@.len() - pos,
        {
            pos = pos + 1;
        }
        let ghost before_out = out@;
        proof {
            lemma_insert_multiset(before_out, pos as int, p);
        }
        out.insert(pos, p);
        proof {
            assert(out@ == before_out.insert(pos as int, p));
            assert forall|i: int, j: int| 0 <= i < j < out@.len() implies !#[trigger] precedes(
                out@[j],
                out@[i],
                by,
            ) by {
                if i == pos {
                    if precedes(out@[j], p, by) {
                        let k = j - 1;
                        assert(out@[j] == before_out[k]);
                        assert(pos < before_out.len());
                        assert(precedes(p, before_out[pos as int], by));
                        if k == pos {
                            lemma_precedes_asymmetric(before_out[k], p, by);
                        } else {
                            lemma_precedes_transitive(before_out[k], p, before_out[pos as int], by);
                            assert(!precedes(before_out[k], before_out[pos as int], by));
                        }
                    }
                } else if j == pos {
                    assert(out@[i] == before_out[i]);
                } else {
                    let bi = if i < pos { i } else { i - 1 };
                    let bj = if j < pos { j } else { j - 1 };
                    assert(out@[i] == before_out[bi]);
                    assert(out@[j] == before_out[bj]);
                    assert(!precedes(before_out[bj], before_out[bi], by));
                }
            }
            assert(before_input.to_multiset() =~= input@.to_multiset().insert(p));
        }
    }
    assert(input@.to_multiset() =~= Multiset::<Product>::empty());
    *products = out;
}

/// The products of the fetches that succeeded, in the order they were asked for.
pub open spec fn succeeded(results: Seq<Option<Product>>) -> Seq<Product>
    decreases results.len(),
{
    if results.len() == 0 {
        Seq::empty()
    } else {
        let earlier = succeeded(results.drop_last());
        match results.last() {
            Some(p) => earlier.push(p),
            None => earlier,
        }
    }
}

/// Keeps the products of the fetches that succeeded and drops the failed ones.
pub fn gather_products(results: Vec<Option<Product>>) -> (r: Vec<Product>)
    ensures
        r@ == succeeded(results@),
{
    let mut out: Vec<Product> = Vec::new();
    let mut rest = results;
    let ghost all = rest@;
    let mut reversed: Vec<Option<Product>> = Vec::new();
    while rest.len() > 0
        invariant
            reversed@.len() + rest@.len() == all.len(),
            rest@ == all.take(rest@.len() as int),
            forall|k: int| 0 <= k < reversed@.len() ==> #[trigger] reversed@[k] == all[all.len() - 1 - k],
        decreases rest@.len(),
    {
        let last = rest.pop().unwrap();
        assert(rest@ =~= all.take(rest@.len() as int));
        reversed.push(last);
    }
    while reversed.len() > 0
        invariant
            reversed@.len() <= all.len(),
            forall|k: int| 0 <= k < reversed@.len() ==> #[trigger] reversed@[k] == all[all.len() - 1 - k],
            out@ == succeeded(all.take(all.len() - reversed@.len())),
        decreases reversed@.len(),
    {
        let next = reversed.pop().unwrap();
        let ghost n = all.len() - reversed@.len();
        proof {
            let t = all.take(n as int);
            assert(t.drop_last() =~= all.take(n - 1));
            assert(t.last() == next);
        }
        match next {
            Some(p) => out.push(p),
            None => {},
        }
    }
    assert(all.take(all.len() as int) =~= all);
    out
}

} // verus!
