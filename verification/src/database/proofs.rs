//! Lemmas about the rows of the store.

use crate::database::models::{Product, User};
use crate::database::{
    box_index, candidate_of, ident_of, product_index, stocked, user_index, DatabaseView,
};
use crate::models::Order;
use crate::models::ProductIdent;
use crate::selector::{lemma_pick_is_stretch, pick, total_weight};
use vstd::prelude::*;

verus! {

/// With unique ids, a row that carries the id is the row of that id.
pub proof fn lemma_user_row(db: DatabaseView, id: u128, i: int)
    requires
        db.rows_valid(),
        0 <= i < db.users.len(),
        db.users[i].id == id,
    ensures
        db.has_user(id),
        db.user_row(id) == i,
{
    let j = user_index(db.users, id);
    if j < i {
        assert(db.users[j].id != db.users[i].id);
    } else if i < j {
        assert(db.users[i].id != db.users[j].id);
    }
}

/// With unique ids, a row that carries the id is the row of that id.
pub proof fn lemma_box_row(db: DatabaseView, id: u128, i: int)
    requires
        db.rows_valid(),
        0 <= i < db.boxes.len(),
        db.boxes[i].id == id,
    ensures
        db.has_box(id),
        db.box_row(id) == i,
{
    let j = box_index(db.boxes, id);
    if j < i {
        assert(db.boxes[j].id != db.boxes[i].id);
    } else if i < j {
        assert(db.boxes[i].id != db.boxes[j].id);
    }
}

/// With unique ids, a row that carries the id is the row of that id.
pub proof fn lemma_product_row(db: DatabaseView, id: u128, i: int)
    requires
        db.rows_valid(),
        0 <= i < db.products.len(),
        db.products[i].id == id,
    ensures
        db.has_product(id),
        db.product_row(id) == i,
{
    let j = product_index(db.products, id);
    if j < i {
        assert(db.products[j].id != db.products[i].id);
    } else if i < j {
        assert(db.products[i].id != db.products[j].id);
    }
}

/// Every candidate of a draw from a box comes from a row of that box with
/// stock left.
pub proof fn lemma_stocked_origin(products: Seq<Product>, box_id: u128, k: int)
    requires
        0 <= k < stocked(products, box_id).len(),
    ensures
        exists|j: int|
            0 <= j < products.len() && products[j].box_id == box_id && products[j].amount > 0
                && #[trigger] ident_of(products[j]) == stocked(products, box_id)[k],
    decreases products.len(),
{
    if products.len() > 0 {
        let rest = products.drop_last();
        let last = products.len() - 1;
        if candidate_of(box_id)(products.last()) is Some && k == stocked(rest, box_id).len() {
            assert(ident_of(products[last]) == stocked(products, box_id)[k]);
        } else {
            lemma_stocked_origin(rest, box_id, k);
            let j = choose|j: int|
                0 <= j < rest.len() && rest[j].box_id == box_id && rest[j].amount > 0
                    && #[trigger] ident_of(rest[j]) == stocked(rest, box_id)[k];
            assert(products[j] == rest[j]);
            assert(ident_of(products[j]) == stocked(products, box_id)[k]);
        }
    }
}

/// What a commit that the store does not refuse changes: the balance of the
/// buyer, the stock and the flag of the product, and the journal. Nothing
/// else changes, and the store stays well-formed.
pub proof fn lemma_commit_effect(db: DatabaseView, order: Order, price: int)
    requires
        db.wf(),
        0 <= price,
        db.commit_refusal(order, price) is None,
    ensures
        ({
            let after = db.commit(order, price);
            let u = db.user_row(order.user_id);
            let p = db.product_row(order.product_id);
            let left = db.products[p].amount - 1;
            &&& after.wf()
            &&& after.boxes == db.boxes
            &&& after.orders == db.orders.push(order)
            &&& after.users == db.users.update(
                u,
                User { points: (db.users[u].points - price) as i32, ..db.users[u] },
            )
            &&& after.products == db.products.update(
                p,
                Product { amount: left as i32, status: left == 0, ..db.products[p] },
            )
        }),
{
    let u = db.user_row(order.user_id);
    let p = db.product_row(order.product_id);
    let paid = db.debit(order.user_id, price);
    let taken = paid.decrement(order.product_id);
    lemma_product_row(taken, order.product_id, p);
    let flagged = taken.mark_exhausted_if_zero(order.product_id);
    let after = flagged.append(order);
    let left = db.products[p].amount - 1;
    assert(after.products =~= db.products.update(
        p,
        Product { amount: left as i32, status: left == 0, ..db.products[p] },
    ));
    assert(after.users =~= db.users.update(
        u,
        User { points: (db.users[u].points - price) as i32, ..db.users[u] },
    ));
}

/// A purchase that succeeds is a commit that the store accepts, of a product
/// of the box that had stock left.
pub proof fn lemma_purchase_commits(
    db: DatabaseView,
    user_id: u128,
    box_id: u128,
    draw: nat,
    order_id: u128,
    now: i64,
)
    requires
        db.wf(),
        db.purchase(user_id, box_id, draw, order_id, now).1 is Ok,
    ensures
        ({
            let (after, result) = db.purchase(user_id, box_id, draw, order_id, now);
            let order = result.unwrap();
            let row = db.products[db.product_row(order.product_id)];
            &&& db.has_user(user_id)
            &&& db.has_box(box_id)
            &&& 0 <= db.price(box_id) <= db.balance(user_id)
            &&& db.has_product(order.product_id)
            &&& row.box_id == box_id
            &&& row.amount > 0
            &&& pick(db.in_stock(box_id), draw) matches Some(i) && db.in_stock(box_id)[i]
                == ident_of(row)
            &&& db.commit_refusal(order, db.price(box_id)) is None
            &&& after == db.commit(order, db.price(box_id))
        }),
{
    let candidates = db.in_stock(box_id);
    let i = pick(candidates, draw).unwrap();
    lemma_pick_is_stretch(candidates, draw);
    lemma_stocked_origin(db.products, box_id, i);
    let j = choose|j: int|
        0 <= j < db.products.len() && db.products[j].box_id == box_id && db.products[j].amount > 0
            && #[trigger] ident_of(db.products[j]) == candidates[i];
    lemma_product_row(db, candidates[i].id, j);
    let b = db.box_row(box_id);
    assert(0 <= b < db.boxes.len());
}

/// One more candidate adds its weight to the total.
pub proof fn lemma_total_weight_push(candidates: Seq<ProductIdent>, last: ProductIdent)
    ensures
        total_weight(candidates.push(last)) == total_weight(candidates) + last.total,
{
    assert(candidates.push(last).drop_last() =~= candidates);
}

/// When one product of a box loses one unit, the box has one unit less in
/// stock.
pub proof fn lemma_units_after_sale(products: Seq<Product>, p: int, box_id: u128, sold: Product)
    requires
        0 <= p < products.len(),
        products[p].box_id == box_id,
        products[p].amount > 0,
        sold.box_id == box_id,
        sold.id == products[p].id,
        sold.level == products[p].level,
        sold.amount == products[p].amount - 1,
    ensures
        total_weight(stocked(products.update(p, sold), box_id)) + 1 == total_weight(
            stocked(products, box_id),
        ),
    decreases products.len(),
{
    let after = products.update(p, sold);
    let rest = products.drop_last();
    let last = products.len() - 1;
    if p == last {
        assert(after.drop_last() =~= rest);
        lemma_total_weight_push(stocked(rest, box_id), ident_of(products[p]));
        lemma_total_weight_push(stocked(rest, box_id), ident_of(sold));
        assert(stocked(products, box_id) =~= stocked(rest, box_id).push(ident_of(products[p])));
        if sold.amount > 0 {
            assert(stocked(after, box_id) =~= stocked(rest, box_id).push(ident_of(sold)));
        } else {
            assert(stocked(after, box_id) =~= stocked(rest, box_id));
        }
    } else {
        lemma_units_after_sale(rest, p, box_id, sold);
        assert(after.drop_last() =~= rest.update(p, sold));
        assert(after.last() == products.last());
        match candidate_of(box_id)(products.last()) {
            Some(c) => {
                lemma_total_weight_push(stocked(rest, box_id), c);
                lemma_total_weight_push(stocked(rest.update(p, sold), box_id), c);
                assert(stocked(products, box_id) =~= stocked(rest, box_id).push(c));
                assert(stocked(after, box_id) =~= stocked(rest.update(p, sold), box_id).push(c));
            },
            None => {},
        }
    }
}

} // verus!
