//! The product catalog: filtering by type and the product listing.

use vstd::prelude::*;
use crate::models::{Product, ProductView, products_view};

verus! {

/// Whether a product is of the given type.
pub open spec fn has_type(t: Seq<char>) -> spec_fn(ProductView) -> bool {
    |p: ProductView| p.product_type == t
}

/// The products that `filter_products_by_type` keeps: those of type `t`, in
/// their order, or all of them when no type is given.
pub open spec fn spec_filter_by_type(ps: Seq<ProductView>, t: Option<Seq<char>>) -> Seq<ProductView> {
    match t {
        Some(t) => ps.filter(has_type(t)),
        None => ps,
    }
}

/// The text of an optional string slice.
pub open spec fn opt_str_view(o: Option<&str>) -> Option<Seq<char>> {
    match o {
        Some(s) => Some(s@),
        None => None,
    }
}

/// Copies of the products, in order.
fn copy_all(products: &[Product]) -> (r: Vec<Product>)
    ensures
        products_view(r@) == products_view(products@),
{
    let mut r: Vec<Product> = Vec::new();
    let mut i: usize = 0;
    while i < products.len()
        invariant
            i <= products@.len(),
            products_view(r@) == products_view(products@.take(i as int)),
        decreases products@.len() - i,
    {
        let ghost before = r@;
        r.push(products[i].duplicate());
        assert(products@.take(i + 1) == products@.take(i as int).push(products@[i as int]));
        assert(products_view(r@) == products_view(before).push(products@[i as int]@));
        assert(products_view(products@.take(i + 1)) == products_view(products@.take(i as int)).push(products@[i as int]@));
        i = i + 1;
    }
    assert(products@.take(products@.len() as int) == products@);
    r
}

/// Copies of the products whose type is `t`, in order.
fn copy_of_type(products: &[Product], t: &str) -> (r: Vec<Product>)
    ensures
        products_view(r@) == products_view(products@).filter(has_type(t@)),
{
    let wanted = t.to_owned();
    let mut r: Vec<Product> = Vec::new();
    let mut i: usize = 0;
    while i < products.len()
        invariant
            i <= products@.len(),
            wanted@ == t@,
            products_view(r@) == products_view(products@.take(i as int)).filter(has_type(t@)),
        decreases products@.len() - i,
    {
        let ghost before = products_view(products@.take(i as int));
        assert(products_view(products@.take(i + 1)) == before.push(products@[i as int]@)) by {
            assert(products@.take(i + 1) == products@.take(i as int).push(products@[i as int]));
        }
        assert(before.push(products@[i as int]@).drop_last() == before);
        reveal(Seq::filter);
        if products[i].product_type == wanted {
            let ghost old_r = r@;
            r.push(products[i].duplicate());
            assert(products_view(r@) == products_view(old_r).push(products@[i as int]@));
        }
        i = i + 1;
    }
    assert(products@.take(products@.len() as int) == products@);
    r
}

/// The products of the given type, in catalog order; all products when no
/// type is given.
pub fn filter_products_by_type(products: &[Product], allowed_type: Option<&str>) -> (r: Vec<Product>)
    ensures
        products_view(r@) == spec_filter_by_type(products_view(products@), opt_str_view(allowed_type)),
{
    match allowed_type {
        Some(product_type) => copy_of_type(products, product_type),
        None => copy_all(products),
    }
}

/// How many products the listings of the types `ts` hold together.
pub open spec fn listed_by_types(ps: Seq<ProductView>, ts: Seq<Seq<char>>) -> int
    decreases ts.len(),
{
    if ts.len() == 0 {
        0
    } else {
        listed_by_types(ps, ts.drop_last()) + spec_filter_by_type(ps, Some(ts.last())).len()
    }
}

/// Whether some product of `ps` is of type `t`.
pub open spec fn type_occurs(ps: Seq<ProductView>, t: Seq<char>) -> bool {
    exists|i: int| 0 <= i < ps.len() && #[trigger] ps[i].product_type == t
}

/// Adding a product to the catalog adds it to the listing of its type only.
proof fn lemma_filter_push(ps: Seq<ProductView>, x: ProductView, t: Seq<char>)
    ensures
        ps.push(x).filter(has_type(t)).len() == ps.filter(has_type(t)).len() + if x.product_type == t {
            1int
        } else {
            0int
        },
{
    reveal(Seq::filter);
    assert(ps.push(x).drop_last() == ps);
}

/// Adding a product adds one to the listings of `ts` when its type is among them.
proof fn lemma_listed_push(ps: Seq<ProductView>, x: ProductView, ts: Seq<Seq<char>>)
    requires
        ts.no_duplicates(),
    ensures
        listed_by_types(ps.push(x), ts) == listed_by_types(ps, ts) + if ts.contains(x.product_type) {
            1int
        } else {
            0int
        },
    decreases ts.len(),
{
    if ts.len() > 0 {
        let rest = ts.drop_last();
        assert(rest.no_duplicates());
        lemma_listed_push(ps, x, rest);
        lemma_filter_push(ps, x, ts.last());
        if x.product_type == ts.last() {
            assert(ts.contains(x.product_type)) by {
                assert(ts[ts.len() - 1] == x.product_type);
            }
            if rest.contains(x.product_type) {
                let j = choose|j: int| 0 <= j < rest.len() && rest[j] == x.product_type;
                assert(ts[j] == ts[ts.len() - 1]);
            }
        } else {
            if ts.contains(x.product_type) {
                let j = choose|j: int| 0 <= j < ts.len() && ts[j] == x.product_type;
                assert(rest[j] == x.product_type);
            }
            if rest.contains(x.product_type) {
                let j = choose|j: int| 0 <= j < rest.len() && rest[j] == x.product_type;
                assert(ts[j] == x.product_type);
            }
        }
    }
}

/// The listings of an empty catalog are empty.
proof fn lemma_listed_empty(ts: Seq<Seq<char>>)
    ensures
        listed_by_types(Seq::empty(), ts) == 0,
    decreases ts.len(),
{
    reveal(Seq::filter);
    if ts.len() > 0 {
        lemma_listed_empty(ts.drop_last());
    }
}

/// The listings by type partition the catalog: listing a type that no product
/// has gives nothing, and the listings of a list of distinct types that
/// includes every product's type hold, together, each product exactly once.
pub proof fn lemma_type_listings_partition(ps: Seq<ProductView>, ts: Seq<Seq<char>>)
    requires
        ts.no_duplicates(),
        forall|i: int| 0 <= i < ps.len() ==> ts.contains(#[trigger] ps[i].product_type),
    ensures
        listed_by_types(ps, ts) == ps.len(),
        forall|t: Seq<char>| !type_occurs(ps, t) ==> spec_filter_by_type(ps, Some(t)).len() == 0,
    decreases ps.len(),
{
    if ps.len() == 0 {
        lemma_listed_empty(ts);
        assert(ps == Seq::<ProductView>::empty());
    } else {
        let rest = ps.drop_last();
        let x = ps.last();
        assert forall|i: int| 0 <= i < rest.len() implies ts.contains(#[trigger] rest[i].product_type) by {
            assert(rest[i] == ps[i]);
        }
        lemma_type_listings_partition(rest, ts);
        assert(rest.push(x) == ps);
        lemma_listed_push(rest, x, ts);
        assert(ts.contains(ps[ps.len() - 1].product_type));
        assert forall|t: Seq<char>| !type_occurs(ps, t) implies spec_filter_by_type(ps, Some(t)).len() == 0 by {
            if type_occurs(rest, t) {
                let i = choose|i: int| 0 <= i < rest.len() && #[trigger] rest[i].product_type == t;
                assert(ps[i] == rest[i]);
            }
            lemma_filter_push(rest, x, t);
        }
    }
}

/// Listing without a type gives the whole catalog in order; listing a type
/// gives only products of that type, each one from the catalog, every catalog
/// product of that type among them, and no more products than the catalog.
pub proof fn lemma_filter_meaning(ps: Seq<ProductView>, t: Seq<char>)
    ensures
        spec_filter_by_type(ps, None) == ps,
        spec_filter_by_type(ps, Some(t)).len() <= ps.len(),
        forall|i: int|
            0 <= i < spec_filter_by_type(ps, Some(t)).len() ==> (#[trigger] spec_filter_by_type(
                ps,
                Some(t),
            )[i]).product_type == t && ps.contains(spec_filter_by_type(ps, Some(t))[i]),
        forall|i: int|
            0 <= i < ps.len() && (#[trigger] ps[i]).product_type == t ==> spec_filter_by_type(
                ps,
                Some(t),
            ).contains(ps[i]),
{
    let f = spec_filter_by_type(ps, Some(t));
    ps.lemma_filter_len(has_type(t));
    assert forall|i: int| 0 <= i < f.len() implies (#[trigger] f[i]).product_type == t && ps.contains(f[i]) by {
        ps.lemma_filter_pred(has_type(t), i);
        assert(f.contains(f[i]));
        ps.lemma_filter_contains_rev(has_type(t), f[i]);
    }
    assert forall|i: int| 0 <= i < ps.len() && (#[trigger] ps[i]).product_type == t implies f.contains(ps[i]) by {
        ps.lemma_filter_contains(has_type(t), i);
    }
}

} // verus!
