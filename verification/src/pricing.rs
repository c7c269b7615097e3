//! Pricing an order against the catalog.

use vstd::prelude::*;
use crate::models::{
    ApiError, OrderDetail, OrderDetailView, PaymentRequestItem, Product, STATUS_BAD_REQUEST,
    details_view,
};

verus! {

/// The catalog entry for `uuid`: when several entries share a uuid, the last
/// of them in catalog order.
pub open spec fn spec_lookup(products: Seq<Product>, uuid: Seq<char>) -> Option<Product>
    decreases products.len(),
{
    if products.len() == 0 {
        None
    } else if products.last().uuid@ == uuid {
        Some(products.last())
    } else {
        spec_lookup(products.drop_last(), uuid)
    }
}

/// What pricing an order comes to.
pub enum PricingOutcome {
    /// Every line is valid: the priced lines, in request order, and their total.
    Priced { details: Seq<OrderDetailView>, total: int },
    /// The first invalid line asks for a quantity of zero or less.
    InvalidQuantity { uuid: Seq<char> },
    /// The first invalid line names a product that is not in the catalog.
    ProductNotFound { uuid: Seq<char> },
}

/// The priced line for `item` at the catalog entry `p`.
pub open spec fn detail_of(item: PaymentRequestItem, p: Product) -> OrderDetailView {
    OrderDetailView {
        uuid: item.uuid@,
        name: p.name@,
        qty: item.qty,
        unit_price: p.price_xof,
        subtotal: p.price_xof * item.qty,
    }
}

/// Prices `items` in order after the lines `details` totalling `total`: the
/// first line with a quantity below 1, or else with an unknown product, ends
/// the pricing with that error.
pub open spec fn price_from(
    products: Seq<Product>,
    items: Seq<PaymentRequestItem>,
    details: Seq<OrderDetailView>,
    total: int,
) -> PricingOutcome
    decreases items.len(),
{
    if items.len() == 0 {
        PricingOutcome::Priced { details, total }
    } else {
        let it = items[0];
        if it.qty <= 0 {
            PricingOutcome::InvalidQuantity { uuid: it.uuid@ }
        } else {
            match spec_lookup(products, it.uuid@) {
                None => PricingOutcome::ProductNotFound { uuid: it.uuid@ },
                Some(p) => price_from(
                    products,
                    items.drop_first(),
                    details.push(detail_of(it, p)),
                    total + p.price_xof * it.qty,
                ),
            }
        }
    }
}

/// What pricing `items` against the catalog `products` comes to.
pub open spec fn spec_price_order(products: Seq<Product>, items: Seq<PaymentRequestItem>) -> PricingOutcome {
    price_from(products, items, Seq::empty(), 0)
}

/// Whether `x` is an `i32`.
pub open spec fn in_i32(x: int) -> bool {
    i32::MIN <= x <= i32::MAX
}

/// Whether every line priced after a running `total`, and every running
/// total, is an `i32`, up to the first invalid line.
pub open spec fn fits_from(products: Seq<Product>, items: Seq<PaymentRequestItem>, total: int) -> bool
    decreases items.len(),
{
    if items.len() == 0 {
        true
    } else {
        let it = items[0];
        if it.qty <= 0 {
            true
        } else {
            match spec_lookup(products, it.uuid@) {
                None => true,
                Some(p) => {
                    &&& in_i32(p.price_xof * it.qty)
                    &&& in_i32(total + p.price_xof * it.qty)
                    &&& fits_from(products, items.drop_first(), total + p.price_xof * it.qty)
                },
            }
        }
    }
}

/// Whether pricing `items` computes every subtotal and running total within
/// `i32`, as the server's `i32` arithmetic needs (it panics otherwise).
pub open spec fn order_fits_i32(products: Seq<Product>, items: Seq<PaymentRequestItem>) -> bool {
    fits_from(products, items, 0)
}

/// The sum of the subtotals of `details`.
pub open spec fn sum_subtotals(details: Seq<OrderDetailView>) -> int
    decreases details.len(),
{
    if details.len() == 0 {
        0
    } else {
        sum_subtotals(details.drop_last()) + details.last().subtotal
    }
}

/// A priced order: its lines in request order and their total.
#[derive(Debug)]
pub struct PricedOrder {
    pub order_details: Vec<OrderDetail>,
    pub total_price: i32,
}

/// The index of the catalog entry for `uuid` (the last one with that uuid).
pub(crate) fn find_product(products: &[Product], uuid: &String) -> (r: Option<usize>)
    ensures
        match r {
            Some(i) => i < products@.len() && spec_lookup(products@, uuid@) == Some(products@[i as int]),
            None => spec_lookup(products@, uuid@) is None,
        },
{
    let mut i: usize = products.len();
    assert(products@.take(i as int) == products@);
    while i > 0
        invariant
            i <= products@.len(),
            spec_lookup(products@, uuid@) == spec_lookup(products@.take(i as int), uuid@),
        decreases i,
    {
        let ghost prefix = products@.take(i as int);
        assert(prefix.last() == products@[i - 1]);
        assert(prefix.drop_last() == products@.take(i - 1));
        if products[i - 1].uuid == *uuid {
            return Some(i - 1);
        }
        i = i - 1;
    }
    assert(products@.take(0) == Seq::<Product>::empty());
    None
}

/// The message of a refused line: `prefix` followed by the line's uuid.
fn line_error(prefix: &str, uuid: &String) -> (e: ApiError)
    ensures
        e.status == STATUS_BAD_REQUEST,
        e.body.error@ == prefix@ + uuid@,
{
    let mut m = String::from_str(prefix);
    m.append(uuid.as_str());
    ApiError::new(STATUS_BAD_REQUEST, m)
}

/// Whether pricing `items` stays within `i32`; the server checks this before
/// pricing and, like the `i32` arithmetic it stands for, panics when it fails.
pub fn order_fits(products: &[Product], items: &[PaymentRequestItem]) -> (b: bool)
    ensures
        b == order_fits_i32(products@, items@),
{
    let mut total: i64 = 0;
    let mut i: usize = 0;
    assert(items@.skip(0) == items@);
    while i < items.len()
        invariant
            i <= items@.len(),
            in_i32(total as int),
            order_fits_i32(products@, items@) == fits_from(products@, items@.skip(i as int), total as int),
        decreases items@.len() - i,
    {
        let ghost rest = items@.skip(i as int);
        assert(rest[0] == items@[i as int]);
        assert(rest.drop_first() == items@.skip(i + 1));
        let item = &items[i];
        if item.qty <= 0 {
            return true;
        }
        match find_product(products, &item.uuid) {
            None => {
                return true;
            },
            Some(k) => {
                let price = products[k].price_xof as i64;
                let qty = item.qty as i64;
                assert(-0x8000_0000 <= price <= 0x7fff_ffff);
                assert(0 < qty <= 0x7fff_ffff);
                assert(-0x4000_0000_0000_0000 <= price * qty <= 0x4000_0000_0000_0000) by (nonlinear_arith)
                    requires
                        -0x8000_0000 <= price <= 0x7fff_ffff,
                        0 < qty <= 0x7fff_ffff,
                ;
                let subtotal = price * qty;
                if subtotal < -0x8000_0000 || subtotal > 0x7fff_ffff {
                    return false;
                }
                let next = total + subtotal;
                if next < -0x8000_0000 || next > 0x7fff_ffff {
                    return false;
                }
                total = next;
            },
        }
        i = i + 1;
    }
    assert(items@.skip(i as int).len() == 0);
    true
}

/// Prices `items` against the catalog, in request order: the first line
/// with a quantity below 1 is refused with 400 "Invalid quantity for
/// product: <uuid>", the first with an unknown product with 400 "Product not
/// found: <uuid>"; otherwise every line is priced at the catalog price.
pub fn price_order(products: &[Product], items: &[PaymentRequestItem]) -> (r: Result<PricedOrder, ApiError>)
    requires
        order_fits_i32(products@, items@),
    ensures
        match spec_price_order(products@, items@) {
            PricingOutcome::Priced { details, total } => r matches Ok(o) && details_view(
                o.order_details@,
            ) == details && o.total_price as int == total,
            PricingOutcome::InvalidQuantity { uuid } => r matches Err(e) && e.status
                == STATUS_BAD_REQUEST && e.body.error@ == "Invalid quantity for product: "@ + uuid,
            PricingOutcome::ProductNotFound { uuid } => r matches Err(e) && e.status
                == STATUS_BAD_REQUEST && e.body.error@ == "Product not found: "@ + uuid,
        },
{
    let mut details: Vec<OrderDetail> = Vec::new();
    let mut total: i32 = 0;
    let mut i: usize = 0;
    assert(items@.skip(0) == items@);
    assert(details_view(details@) == Seq::<OrderDetailView>::empty());
    while i < items.len()
        invariant
            i <= items@.len(),
            spec_price_order(products@, items@) == price_from(
                products@,
                items@.skip(i as int),
                details_view(details@),
                total as int,
            ),
            fits_from(products@, items@.skip(i as int), total as int),
        decreases items@.len() - i,
    {
        let ghost rest = items@.skip(i as int);
        assert(rest[0] == items@[i as int]);
        assert(rest.drop_first() == items@.skip(i + 1));
        let item = &items[i];
        if item.qty <= 0 {
            return Err(line_error("Invalid quantity for product: ", &item.uuid));
        }
        let k = match find_product(products, &item.uuid) {
            Some(k) => k,
            None => {
                return Err(line_error("Product not found: ", &item.uuid));
            },
        };
        let product = &products[k];
        let subtotal = product.price_xof * item.qty;
        let detail = OrderDetail {
            uuid: item.uuid.clone(),
            name: product.name.clone(),
            qty: item.qty,
            unit_price: product.price_xof,
            subtotal,
        };
        let ghost before = details@;
        details.push(detail);
        assert(details_view(details@) == details_view(before).push(detail_of(items@[i as int], products@[k as int])));
        total = total + subtotal;
        i = i + 1;
    }
    assert(items@.skip(i as int).len() == 0);
    Ok(PricedOrder { order_details: details, total_price: total })
}

/// Pricing only appends lines: what `price_from` reaches extends `details`
/// by one line per item and adds their subtotals to `total`.
proof fn lemma_price_from_sum(
    products: Seq<Product>,
    items: Seq<PaymentRequestItem>,
    details: Seq<OrderDetailView>,
    total: int,
)
    requires
        price_from(products, items, details, total) is Priced,
    ensures
        ({
            let out = price_from(products, items, details, total);
            &&& out->Priced_details.len() == details.len() + items.len()
            &&& out->Priced_details.take(details.len() as int) == details
            &&& out->Priced_total - total == sum_subtotals(out->Priced_details) - sum_subtotals(details)
        }),
    decreases items.len(),
{
    if items.len() > 0 {
        let it = items[0];
        let p = spec_lookup(products, it.uuid@)->0;
        let next = details.push(detail_of(it, p));
        lemma_price_from_sum(products, items.drop_first(), next, total + p.price_xof * it.qty);
        let out = price_from(products, items, details, total);
        assert(out->Priced_details.take(next.len() as int).take(details.len() as int)
            == out->Priced_details.take(details.len() as int));
        assert(next.drop_last() == details);
    } else {
        assert(details.take(details.len() as int) == details);
    }
}

/// Line `i` of `items` is priced as line `offset + i` of `ds`.
pub open spec fn line_priced(
    products: Seq<Product>,
    items: Seq<PaymentRequestItem>,
    ds: Seq<OrderDetailView>,
    offset: int,
    i: int,
) -> bool {
    &&& items[i].qty > 0
    &&& spec_lookup(products, items[i].uuid@) is Some
    &&& ds[offset + i] == detail_of(items[i], spec_lookup(products, items[i].uuid@)->0)
}

/// The total of a priced order is the sum of its lines' subtotals, and it has
/// one line per requested item: each names the item's product and quantity
/// at the catalog price (a positive quantity of a product in the catalog),
/// with subtotal = unit price × quantity.
pub proof fn lemma_priced_order_total(products: Seq<Product>, items: Seq<PaymentRequestItem>)
    requires
        spec_price_order(products, items) is Priced,
    ensures
        ({
            let out = spec_price_order(products, items);
            &&& out->Priced_total == sum_subtotals(out->Priced_details)
            &&& out->Priced_details.len() == items.len()
            &&& forall|i: int|
                0 <= i < items.len() ==> #[trigger] line_priced(products, items, out->Priced_details, 0, i)
            &&& forall|i: int|
                0 <= i < items.len() ==> (#[trigger] out->Priced_details[i]).subtotal
                    == out->Priced_details[i].unit_price * out->Priced_details[i].qty
        }),
{
    lemma_price_from_sum(products, items, Seq::empty(), 0);
    lemma_price_from_lines(products, items, Seq::empty(), 0);
    let out = spec_price_order(products, items);
    assert forall|i: int| 0 <= i < items.len() implies (#[trigger] out->Priced_details[i]).subtotal
        == out->Priced_details[i].unit_price * out->Priced_details[i].qty by {
        assert(line_priced(products, items, out->Priced_details, 0, i));
    }
}

/// Each line that `price_from` appends is the priced line of its item.
proof fn lemma_price_from_lines(
    products: Seq<Product>,
    items: Seq<PaymentRequestItem>,
    details: Seq<OrderDetailView>,
    total: int,
)
    requires
        price_from(products, items, details, total) is Priced,
    ensures
        forall|i: int|
            0 <= i < items.len() ==> #[trigger] line_priced(
                products,
                items,
                price_from(products, items, details, total)->Priced_details,
                details.len() as int,
                i,
            ),
    decreases items.len(),
{
    if items.len() > 0 {
        let it = items[0];
        let p = spec_lookup(products, it.uuid@)->0;
        let next = details.push(detail_of(it, p));
        let t2 = total + p.price_xof * it.qty;
        lemma_price_from_lines(products, items.drop_first(), next, t2);
        lemma_price_from_sum(products, items.drop_first(), next, t2);
        let out = price_from(products, items, details, total);
        assert(it.qty > 0);
        assert(spec_lookup(products, it.uuid@) is Some);
        assert(out == price_from(products, items.drop_first(), next, t2));
        let ds = out->Priced_details;
        assert forall|i: int| 0 <= i < items.len() implies #[trigger] line_priced(
            products,
            items,
            ds,
            details.len() as int,
            i,
        ) by {
            if i == 0 {
                assert(ds.take(next.len() as int)[details.len() as int] == next[details.len() as int]);
            } else {
                assert(items.drop_first()[i - 1] == items[i]);
                assert(line_priced(products, items.drop_first(), ds, next.len() as int, i - 1));
            }
        }
    }
}

/// The catalog lookup finds an entry with exactly the requested uuid, the
/// last such entry in catalog order, and finds nothing exactly when no entry
/// has that uuid.
pub proof fn lemma_lookup_exact(products: Seq<Product>, uuid: Seq<char>)
    ensures
        spec_lookup(products, uuid) is None <==> forall|j: int|
            0 <= j < products.len() ==> #[trigger] products[j].uuid@ != uuid,
        spec_lookup(products, uuid) matches Some(p) ==> exists|j: int|
            0 <= j < products.len() && #[trigger] products[j] == p && p.uuid@ == uuid && forall|k: int|
                j < k < products.len() ==> #[trigger] products[k].uuid@ != uuid,
    decreases products.len(),
{
    if products.len() > 0 {
        let rest = products.drop_last();
        lemma_lookup_exact(rest, uuid);
        let n = products.len() - 1;
        if products.last().uuid@ == uuid {
            assert(products[n] == products.last());
        } else {
            assert forall|j: int| 0 <= j < rest.len() implies rest[j] == products[j] by {}
            if spec_lookup(rest, uuid) is None {
                assert forall|j: int| 0 <= j < products.len() implies #[trigger] products[j].uuid@ != uuid by {
                    if j < n {
                        assert(rest[j] == products[j]);
                    }
                }
            } else {
                let p = spec_lookup(rest, uuid)->0;
                let j = choose|j: int|
                    0 <= j < rest.len() && #[trigger] rest[j] == p && p.uuid@ == uuid && forall|k: int|
                        j < k < rest.len() ==> #[trigger] rest[k].uuid@ != uuid;
                assert(products[j] == p);
                assert forall|k: int| j < k < products.len() implies #[trigger] products[k].uuid@ != uuid by {
                    if k < n {
                        assert(rest[k] == products[k]);
                    }
                }
                assert(products[j].uuid@ == uuid);
            }
        }
    }
}

/// A line that pricing accepts: a quantity of at least 1 of a product that
/// some catalog entry carries.
pub open spec fn line_ok(products: Seq<Product>, item: PaymentRequestItem) -> bool {
    &&& item.qty > 0
    &&& exists|j: int| 0 <= j < products.len() && #[trigger] products[j].uuid@ == item.uuid@
}

/// The refusals of `price_from`, whatever lines and total it starts from.
proof fn lemma_price_from_outcome(
    products: Seq<Product>,
    items: Seq<PaymentRequestItem>,
    details: Seq<OrderDetailView>,
    total: int,
)
    ensures
        price_from(products, items, details, total) is Priced <==> forall|i: int|
            0 <= i < items.len() ==> line_ok(products, #[trigger] items[i]),
        price_from(products, items, details, total) matches PricingOutcome::InvalidQuantity { uuid }
            ==> exists|i: int|
            0 <= i < items.len() && (#[trigger] items[i]).qty <= 0 && items[i].uuid@ == uuid && forall|k: int|
                0 <= k < i ==> line_ok(products, #[trigger] items[k]),
        price_from(products, items, details, total) matches PricingOutcome::ProductNotFound { uuid }
            ==> exists|i: int|
            0 <= i < items.len() && (#[trigger] items[i]).qty > 0 && items[i].uuid@ == uuid && (forall|j: int|
                0 <= j < products.len() ==> #[trigger] products[j].uuid@ != uuid) && forall|k: int|
                0 <= k < i ==> line_ok(products, #[trigger] items[k]),
    decreases items.len(),
{
    if items.len() > 0 {
        let it = items[0];
        let rest = items.drop_first();
        lemma_lookup_exact(products, it.uuid@);
        assert forall|i: int| 0 <= i < rest.len() implies rest[i] == items[i + 1] by {}
        if it.qty <= 0 {
            assert(!line_ok(products, items[0]));
        } else if spec_lookup(products, it.uuid@) is None {
            assert(!line_ok(products, items[0]));
        } else {
            let p = spec_lookup(products, it.uuid@)->0;
            let j0 = choose|j: int|
                0 <= j < products.len() && #[trigger] products[j] == p && p.uuid@ == it.uuid@ && forall|k: int|
                    j < k < products.len() ==> #[trigger] products[k].uuid@ != it.uuid@;
            assert(products[j0].uuid@ == items[0].uuid@);
            assert(line_ok(products, items[0]));
            let d2 = details.push(detail_of(it, p));
            let t2 = total + p.price_xof * it.qty;
            lemma_price_from_outcome(products, rest, d2, t2);
            let out = price_from(products, items, details, total);
            assert(out == price_from(products, rest, d2, t2));
            if forall|i: int| 0 <= i < rest.len() ==> line_ok(products, #[trigger] rest[i]) {
                assert forall|i: int| 0 <= i < items.len() implies line_ok(products, #[trigger] items[i]) by {
                    if i > 0 {
                        assert(items[i] == rest[i - 1]);
                    }
                }
            } else {
                let i = choose|i: int| 0 <= i < rest.len() && !line_ok(products, #[trigger] rest[i]);
                assert(items[i + 1] == rest[i]);
                assert(!(forall|i: int| 0 <= i < items.len() ==> line_ok(products, #[trigger] items[i])));
            }
            match out {
                PricingOutcome::InvalidQuantity { uuid } => {
                    let i = choose|i: int|
                        0 <= i < rest.len() && (#[trigger] rest[i]).qty <= 0 && rest[i].uuid@ == uuid && forall|k: int|
                            0 <= k < i ==> line_ok(products, #[trigger] rest[k]);
                    assert(items[i + 1] == rest[i]);
                    assert forall|k: int| 0 <= k < i + 1 implies line_ok(products, #[trigger] items[k]) by {
                        if k > 0 {
                            assert(items[k] == rest[k - 1]);
                        }
                    }
                },
                PricingOutcome::ProductNotFound { uuid } => {
                    let i = choose|i: int|
                        0 <= i < rest.len() && (#[trigger] rest[i]).qty > 0 && rest[i].uuid@ == uuid && (forall|j: int|
                            0 <= j < products.len() ==> #[trigger] products[j].uuid@ != uuid) && forall|k: int|
                            0 <= k < i ==> line_ok(products, #[trigger] rest[k]);
                    assert(items[i + 1] == rest[i]);
                    assert forall|k: int| 0 <= k < i + 1 implies line_ok(products, #[trigger] items[k]) by {
                        if k > 0 {
                            assert(items[k] == rest[k - 1]);
                        }
                    }
                },
                _ => {},
            }
        }
    }
}

/// An order is refused only for a bad line, and the first bad line decides:
/// it is priced exactly when every line asks for at least 1 of a product in
/// the catalog; a refusal for quantity names a line with quantity below 1,
/// and one for an unknown product names a line whose uuid no catalog entry
/// carries, every line before it being good.
pub proof fn lemma_price_order_outcome(products: Seq<Product>, items: Seq<PaymentRequestItem>)
    ensures
        spec_price_order(products, items) is Priced <==> forall|i: int|
            0 <= i < items.len() ==> line_ok(products, #[trigger] items[i]),
        spec_price_order(products, items) matches PricingOutcome::InvalidQuantity { uuid } ==> exists|i: int|
            0 <= i < items.len() && (#[trigger] items[i]).qty <= 0 && items[i].uuid@ == uuid && forall|k: int|
                0 <= k < i ==> line_ok(products, #[trigger] items[k]),
        spec_price_order(products, items) matches PricingOutcome::ProductNotFound { uuid } ==> exists|i: int|
            0 <= i < items.len() && (#[trigger] items[i]).qty > 0 && items[i].uuid@ == uuid && (forall|j: int|
                0 <= j < products.len() ==> #[trigger] products[j].uuid@ != uuid) && forall|k: int|
                0 <= k < i ==> line_ok(products, #[trigger] items[k]),
{
    lemma_price_from_outcome(products, items, Seq::empty(), 0);
}

/// Each line of a priced order is the requested uuid and quantity at the
/// name and price of the last catalog entry with exactly that uuid, with
/// subtotal = unit price × quantity; and the total is the sum of the subtotals.
pub proof fn lemma_priced_lines_from_catalog(products: Seq<Product>, items: Seq<PaymentRequestItem>)
    requires
        spec_price_order(products, items) is Priced,
    ensures
        ({
            let ds = spec_price_order(products, items)->Priced_details;
            &&& ds.len() == items.len()
            &&& spec_price_order(products, items)->Priced_total == sum_subtotals(ds)
            &&& forall|i: int|
                0 <= i < items.len() ==> {
                    let d = #[trigger] ds[i];
                    &&& d.uuid == items[i].uuid@
                    &&& d.qty == items[i].qty
                    &&& d.subtotal == d.unit_price * d.qty
                    &&& exists|j: int|
                        0 <= j < products.len() && (#[trigger] products[j]).uuid@ == items[i].uuid@
                            && d.name == products[j].name@ && d.unit_price == products[j].price_xof
                            && forall|k: int| j < k < products.len() ==> #[trigger] products[k].uuid@ != items[i].uuid@
                }
        }),
{
    lemma_priced_order_total(products, items);
    let ds = spec_price_order(products, items)->Priced_details;
    assert forall|i: int| 0 <= i < items.len() implies {
        let d = #[trigger] ds[i];
        &&& d.uuid == items[i].uuid@
        &&& d.qty == items[i].qty
        &&& d.subtotal == d.unit_price * d.qty
        &&& exists|j: int|
            0 <= j < products.len() && (#[trigger] products[j]).uuid@ == items[i].uuid@
                && d.name == products[j].name@ && d.unit_price == products[j].price_xof
                && forall|k: int| j < k < products.len() ==> #[trigger] products[k].uuid@ != items[i].uuid@
    } by {
        assert(line_priced(products, items, ds, 0, i));
        assert(ds[0 + i] == ds[i]);
        lemma_lookup_exact(products, items[i].uuid@);
        let p = spec_lookup(products, items[i].uuid@)->0;
        let j = choose|j: int|
            0 <= j < products.len() && #[trigger] products[j] == p && p.uuid@ == items[i].uuid@ && forall|k: int|
                j < k < products.len() ==> #[trigger] products[k].uuid@ != items[i].uuid@;
        assert(products[j].uuid@ == items[i].uuid@);
    }
}

} // verus!
