//! What holds of every draw and of every purchase.

use crate::database::proofs::{
    lemma_commit_effect, lemma_product_row, lemma_purchase_commits,
    lemma_units_after_sale, lemma_user_row,
};
use crate::database::DatabaseView;
use crate::engine::{transition, Action, Phase, ReplyView, Request, Session};
use crate::error::PurchaseError;
use crate::models::{Order, OrderStatus, ProductIdent};
use crate::selector::{
    lemma_pick_is_stretch, lemma_weight_before_monotonic, lemma_weight_before_step, pick,
    total_weight, weight_before,
};
use vstd::prelude::*;
use vstd::set_lib::{lemma_int_range, set_int_range};

verus! {

/// The draws that pick candidate `i`.
pub open spec fn draws_picking(candidates: Seq<ProductIdent>, i: int) -> Set<int> {
    Set::new(|draw: int| 0 <= draw && pick(candidates, draw as nat) == Some(i))
}

/// Selection is in proportion to weight. Of the draws below the total
/// weight, each picks exactly one candidate, and the number of draws that
/// pick a given candidate is its weight, wherever it stands among the
/// others. So a draw that is uniform below the total picks each candidate
/// with probability weight / total, and a candidate without weight is never
/// picked.
pub proof fn law_selection_in_proportion_to_weight(candidates: Seq<ProductIdent>, i: int)
    requires
        0 <= i < candidates.len(),
    ensures
        draws_picking(candidates, i).finite(),
        draws_picking(candidates, i).len() == candidates[i].total,
        forall|draw: int| #[trigger]
            draws_picking(candidates, i).contains(draw) ==> draw < total_weight(candidates),
        forall|draw: nat|
            draw < total_weight(candidates) ==> #[trigger] pick(candidates, draw) is Some,
{
    let low = weight_before(candidates, i) as int;
    let high = low + candidates[i].total;
    assert forall|draw: int| #[trigger]
        draws_picking(candidates, i).contains(draw) <==> set_int_range(low, high).contains(
            draw,
        ) by {
        if 0 <= draw {
            lemma_pick_is_stretch(candidates, draw as nat);
            if low <= draw < high {
                lemma_weight_before_step(candidates, i);
                lemma_weight_before_monotonic(candidates, i + 1, candidates.len() as int);
                assert(candidates.take(candidates.len() as int) =~= candidates);
                let j = pick(candidates, draw as nat).unwrap();
                if j < i {
                    lemma_weight_before_step(candidates, j);
                    lemma_weight_before_monotonic(candidates, j + 1, i);
                } else if i < j {
                    lemma_weight_before_monotonic(candidates, i + 1, j);
                }
            }
        }
    }
    assert(draws_picking(candidates, i) =~= set_int_range(low, high));
    lemma_int_range(low, high);
    assert forall|draw: int| #[trigger]
        draws_picking(candidates, i).contains(draw) implies draw < total_weight(candidates) by {
        lemma_weight_before_step(candidates, i);
        lemma_weight_before_monotonic(candidates, i + 1, candidates.len() as int);
        assert(candidates.take(candidates.len() as int) =~= candidates);
    }
    assert forall|draw: nat| draw < total_weight(candidates) implies #[trigger] pick(
        candidates,
        draw,
    ) is Some by {
        lemma_pick_is_stretch(candidates, draw);
    }
}

/// Stock and flags stay valid. Whatever a purchase does to a well-formed
/// store, afterwards no product has negative stock and each product is
/// flagged as sold out exactly when its stock is zero.
pub proof fn law_stock_stays_valid(
    db: DatabaseView,
    user_id: u128,
    box_id: u128,
    draw: nat,
    order_id: u128,
    now: i64,
)
    requires
        db.wf(),
    ensures
        ({
            let after = db.purchase(user_id, box_id, draw, order_id, now).0;
            &&& after.wf()
            &&& forall|i: int|
                0 <= i < after.products.len() ==> after.products[i].amount >= 0
                    && after.products[i].status == (after.products[i].amount == 0)
        }),
{
    let (after, result) = db.purchase(user_id, box_id, draw, order_id, now);
    if let Ok(order) = result {
        lemma_purchase_commits(db, user_id, box_id, draw, order_id, now);
        lemma_commit_effect(db, order, db.price(box_id));
    }
}

/// The stock of a product changes by a sale only. A purchase that succeeds
/// takes exactly one unit from the product it sold, which had stock left,
/// and leaves every other product as it was.
pub proof fn law_sale_takes_one_unit(
    db: DatabaseView,
    user_id: u128,
    box_id: u128,
    draw: nat,
    order_id: u128,
    now: i64,
)
    requires
        db.wf(),
        db.purchase(user_id, box_id, draw, order_id, now).1 is Ok,
    ensures
        ({
            let (after, result) = db.purchase(user_id, box_id, draw, order_id, now);
            let sold = result.unwrap().product_id;
            &&& db.has_product(sold)
            &&& after.has_product(sold)
            &&& db.stock(sold) > 0
            &&& after.stock(sold) == db.stock(sold) - 1
            &&& after.products.len() == db.products.len()
            &&& forall|i: int|
                0 <= i < db.products.len() && db.products[i].id != sold ==> after.products[i]
                    == db.products[i]
        }),
{
    let (after, result) = db.purchase(user_id, box_id, draw, order_id, now);
    let order = result.unwrap();
    lemma_purchase_commits(db, user_id, box_id, draw, order_id, now);
    lemma_commit_effect(db, order, db.price(box_id));
    lemma_product_row(after, order.product_id, db.product_row(order.product_id));
}

/// No balance goes negative, and a purchase moves points only as it should.
/// A purchase that succeeds takes exactly the price of the box from the
/// balance of the buyer, which covered it, and leaves every other user as
/// they were. A purchase that fails leaves the whole store, and so every
/// balance, as it was.
pub proof fn law_balance_pays_the_price(
    db: DatabaseView,
    user_id: u128,
    box_id: u128,
    draw: nat,
    order_id: u128,
    now: i64,
)
    requires
        db.wf(),
    ensures
        ({
            let (after, result) = db.purchase(user_id, box_id, draw, order_id, now);
            &&& forall|i: int| 0 <= i < after.users.len() ==> after.users[i].points >= 0
            &&& result is Err ==> after == db
            &&& result is Ok ==> {
                &&& db.has_user(user_id)
                &&& after.has_user(user_id)
                &&& db.has_box(box_id)
                &&& db.balance(user_id) >= db.price(box_id)
                &&& after.balance(user_id) == db.balance(user_id) - db.price(box_id)
                &&& after.users.len() == db.users.len()
                &&& forall|i: int|
                    0 <= i < db.users.len() && db.users[i].id != user_id ==> after.users[i]
                        == db.users[i]
            }
        }),
{
    let (after, result) = db.purchase(user_id, box_id, draw, order_id, now);
    if let Ok(order) = result {
        lemma_purchase_commits(db, user_id, box_id, draw, order_id, now);
        lemma_commit_effect(db, order, db.price(box_id));
        lemma_user_row(after, user_id, db.user_row(user_id));
    }
}

/// One order for each purchase that succeeds, none for one that fails. A
/// purchase that succeeds adds exactly the order it returns to the end of
/// the journal: the order names the buyer, the box, the product that the
/// draw picked among the products in stock, and the time it was given, and
/// it is pending. No order that stood in the journal is changed or removed.
/// A purchase that fails leaves the journal as it was.
pub proof fn law_one_order_per_purchase(
    db: DatabaseView,
    user_id: u128,
    box_id: u128,
    draw: nat,
    order_id: u128,
    now: i64,
)
    requires
        db.wf(),
    ensures
        ({
            let (after, result) = db.purchase(user_id, box_id, draw, order_id, now);
            &&& result is Err ==> after.orders == db.orders
            &&& result matches Ok(order) ==> {
                &&& after.orders == db.orders.push(order)
                &&& order.id == order_id
                &&& order.user_id == user_id
                &&& order.box_id == box_id
                &&& order.created_at == now
                &&& order.status == OrderStatus::Pending
                &&& pick(db.in_stock(box_id), draw) matches Some(i) && order.product_id
                    == db.in_stock(box_id)[i].id
            }
        }),
{
    let (after, result) = db.purchase(user_id, box_id, draw, order_id, now);
    if let Ok(order) = result {
        lemma_purchase_commits(db, user_id, box_id, draw, order_id, now);
        lemma_commit_effect(db, order, db.price(box_id));
    }
}

/// One unit less in the box for each sale. A purchase that succeeds leaves
/// the box with exactly one unit less in stock; one that fails leaves the
/// stock as it was.
pub proof fn law_sale_empties_the_box_by_one(
    db: DatabaseView,
    user_id: u128,
    box_id: u128,
    draw: nat,
    order_id: u128,
    now: i64,
)
    requires
        db.wf(),
    ensures
        ({
            let (after, result) = db.purchase(user_id, box_id, draw, order_id, now);
            &&& result is Ok ==> after.units_in_stock(box_id) + 1 == db.units_in_stock(box_id)
            &&& result is Err ==> after.units_in_stock(box_id) == db.units_in_stock(box_id)
        }),
{
    let (after, result) = db.purchase(user_id, box_id, draw, order_id, now);
    if let Ok(order) = result {
        lemma_purchase_commits(db, user_id, box_id, draw, order_id, now);
        lemma_commit_effect(db, order, db.price(box_id));
        let p = db.product_row(order.product_id);
        lemma_units_after_sale(db.products, p, box_id, after.products[p]);
    }
}

/// A box without stock sells nothing. Whoever asks gets an error, and a
/// buyer who could pay gets `SelectionError`; the store stays as it was.
pub proof fn law_sold_out_box_sells_nothing(
    db: DatabaseView,
    user_id: u128,
    box_id: u128,
    draw: nat,
    order_id: u128,
    now: i64,
)
    requires
        db.wf(),
        db.units_in_stock(box_id) == 0,
    ensures
        ({
            let (after, result) = db.purchase(user_id, box_id, draw, order_id, now);
            &&& after == db
            &&& result is Err
            &&& db.funded(user_id, box_id) ==> result == Err::<Order, PurchaseError>(
                PurchaseError::SelectionError,
            )
        }),
{
    lemma_pick_is_stretch(db.in_stock(box_id), draw);
    let candidates = db.in_stock(box_id);
    if let Some(i) = pick(candidates, draw) {
        lemma_weight_before_step(candidates, i);
        lemma_weight_before_monotonic(candidates, i + 1, candidates.len() as int);
        assert(candidates.take(candidates.len() as int) =~= candidates);
    }
}

/// A buyer who can pay gets a product while there is stock. With a draw
/// below the units in stock, the purchase succeeds.
pub proof fn law_funded_purchase_succeeds(
    db: DatabaseView,
    user_id: u128,
    box_id: u128,
    draw: nat,
    order_id: u128,
    now: i64,
)
    requires
        db.wf(),
        db.funded(user_id, box_id),
        draw < db.units_in_stock(box_id),
    ensures
        db.purchase(user_id, box_id, draw, order_id, now).1 is Ok,
{
    lemma_pick_is_stretch(db.in_stock(box_id), draw);
}

/// One purchase as it is asked for: who buys from which box, and the draw,
/// the order id and the time that the purchase is made with.
pub struct Attempt {
    pub user_id: u128,
    pub box_id: u128,
    pub draw: u128,
    pub order_id: u128,
    pub now: i64,
}

/// The store after the attempts were made one after the other.
pub open spec fn store_after(db: DatabaseView, attempts: Seq<Attempt>) -> DatabaseView
    decreases attempts.len(),
{
    if attempts.len() == 0 {
        db
    } else {
        let a = attempts.last();
        store_after(db, attempts.drop_last()).purchase(
            a.user_id,
            a.box_id,
            a.draw as nat,
            a.order_id,
            a.now,
        ).0
    }
}

/// How attempt `k` ends when the attempts are made one after the other.
pub open spec fn outcome(db: DatabaseView, attempts: Seq<Attempt>, k: int) -> Result<
    Order,
    PurchaseError,
> {
    let a = attempts[k];
    store_after(db, attempts.take(k)).purchase(
        a.user_id,
        a.box_id,
        a.draw as nat,
        a.order_id,
        a.now,
    ).1
}

/// How many of the attempts succeed when they are made one after the other.
pub open spec fn sales(db: DatabaseView, attempts: Seq<Attempt>) -> nat
    decreases attempts.len(),
{
    if attempts.len() == 0 {
        0
    } else {
        let won: nat = if outcome(db, attempts, attempts.len() - 1) is Ok {
            1
        } else {
            0
        };
        sales(db, attempts.drop_last()) + won
    }
}

/// A box is never sold beyond its stock. However many purchases are made
/// from a box, one after the other, by whomever and with whatever draws:
/// each one that succeeds takes one unit, so the sales and the units left
/// add up to the units there were. With one unit in the box there is at
/// most one sale.
pub proof fn law_never_oversold(db: DatabaseView, attempts: Seq<Attempt>, box_id: u128)
    requires
        db.wf(),
        forall|k: int| 0 <= k < attempts.len() ==> attempts[k].box_id == box_id,
    ensures
        store_after(db, attempts).wf(),
        sales(db, attempts) + store_after(db, attempts).units_in_stock(box_id)
            == db.units_in_stock(box_id),
        sales(db, attempts) <= db.units_in_stock(box_id),
    decreases attempts.len(),
{
    if attempts.len() > 0 {
        let earlier = attempts.drop_last();
        let a = attempts.last();
        law_never_oversold(db, earlier, box_id);
        assert(attempts.take(attempts.len() - 1) =~= earlier);
        let before = store_after(db, earlier);
        law_stock_stays_valid(before, a.user_id, a.box_id, a.draw as nat, a.order_id, a.now);
        law_sale_empties_the_box_by_one(
            before,
            a.user_id,
            a.box_id,
            a.draw as nat,
            a.order_id,
            a.now,
        );
    }
}

/// Where the store stands once the last unit of a box is sold to the first
/// of the attempts: the box is empty, and but for the balance of that buyer
/// the users and the boxes are as they were.
spec fn settled(db: DatabaseView, now: DatabaseView, buyer: u128, box_id: u128) -> bool {
    &&& now.wf()
    &&& now.units_in_stock(box_id) == 0
    &&& now.boxes == db.boxes
    &&& now.users.len() == db.users.len()
    &&& forall|i: int| 0 <= i < db.users.len() ==> now.users[i].id == db.users[i].id
    &&& forall|i: int|
        0 <= i < db.users.len() && db.users[i].id != buyer ==> now.users[i] == db.users[i]
}

proof fn lemma_settled_after_first(
    db: DatabaseView,
    attempts: Seq<Attempt>,
    box_id: u128,
    k: int,
)
    requires
        db.wf(),
        db.units_in_stock(box_id) == 1,
        1 <= k <= attempts.len(),
        forall|j: int| 0 <= j < attempts.len() ==> attempts[j].box_id == box_id,
        db.funded(attempts[0].user_id, box_id),
        attempts[0].draw == 0,
    ensures
        outcome(db, attempts, 0) is Ok,
        settled(db, store_after(db, attempts.take(k)), attempts[0].user_id, box_id),
    decreases k,
{
    let first = attempts[0];
    assert(attempts.take(0) =~= Seq::<Attempt>::empty());
    law_funded_purchase_succeeds(
        db,
        first.user_id,
        box_id,
        first.draw as nat,
        first.order_id,
        first.now,
    );
    let earlier = attempts.take(k - 1);
    let a = attempts[k - 1];
    assert(attempts.take(k).drop_last() =~= earlier);
    assert(attempts.take(k).last() == a);
    if k == 1 {
        law_stock_stays_valid(db, a.user_id, box_id, a.draw as nat, a.order_id, a.now);
        law_sale_empties_the_box_by_one(db, a.user_id, box_id, a.draw as nat, a.order_id, a.now);
        law_balance_pays_the_price(db, a.user_id, box_id, a.draw as nat, a.order_id, a.now);
        let order = outcome(db, attempts, 0).unwrap();
        lemma_purchase_commits(db, a.user_id, box_id, a.draw as nat, a.order_id, a.now);
        lemma_commit_effect(db, order, db.price(box_id));
    } else {
        lemma_settled_after_first(db, attempts, box_id, k - 1);
        law_sold_out_box_sells_nothing(
            store_after(db, earlier),
            a.user_id,
            box_id,
            a.draw as nat,
            a.order_id,
            a.now,
        );
    }
}

/// The last unit is sold once. Take a box with one unit in stock and any
/// number of purchases from it, made one after the other, the first by a
/// buyer who can pay. Then the first purchase succeeds and every later one
/// fails: with `SelectionError` for a buyer who could have paid, and never
/// with a second sale.
pub proof fn law_last_unit_sold_once(db: DatabaseView, attempts: Seq<Attempt>, box_id: u128)
    requires
        db.wf(),
        db.units_in_stock(box_id) == 1,
        attempts.len() >= 1,
        forall|k: int| 0 <= k < attempts.len() ==> attempts[k].box_id == box_id,
        db.funded(attempts[0].user_id, box_id),
        attempts[0].draw == 0,
    ensures
        outcome(db, attempts, 0) is Ok,
        sales(db, attempts) == 1,
        forall|k: int| 1 <= k < attempts.len() ==> #[trigger] outcome(db, attempts, k) is Err,
        forall|k: int|
            1 <= k < attempts.len() && attempts[k].user_id != attempts[0].user_id && db.funded(
                attempts[k].user_id,
                box_id,
            ) ==> #[trigger] outcome(db, attempts, k) == Err::<Order, PurchaseError>(
                PurchaseError::SelectionError,
            ),
{
    lemma_settled_after_first(db, attempts, box_id, 1);
    assert(attempts.take(attempts.len() as int) =~= attempts);
    lemma_settled_after_first(db, attempts, box_id, attempts.len() as int);
    law_never_oversold(db, attempts, box_id);
    assert forall|k: int| 1 <= k < attempts.len() implies #[trigger] outcome(db, attempts, k)
        is Err && (attempts[k].user_id != attempts[0].user_id && db.funded(
        attempts[k].user_id,
        box_id,
    ) ==> outcome(db, attempts, k) == Err::<Order, PurchaseError>(
        PurchaseError::SelectionError,
    )) by {
        let a = attempts[k];
        let before = store_after(db, attempts.take(k));
        lemma_settled_after_first(db, attempts, box_id, k);
        law_sold_out_box_sells_nothing(
            before,
            a.user_id,
            box_id,
            a.draw as nat,
            a.order_id,
            a.now,
        );
        if a.user_id != attempts[0].user_id && db.funded(a.user_id, box_id) {
            let u = db.user_row(a.user_id);
            lemma_user_row(before, a.user_id, u);
        }
    }
}

/// The store after it answered the requests one after the other.
pub open spec fn store_after_requests(db: DatabaseView, requests: Seq<Request>) -> DatabaseView
    decreases requests.len(),
{
    if requests.len() == 0 {
        db
    } else {
        store_after_requests(db, requests.drop_last()).answer(requests.last()).0
    }
}

/// Whether the store, having answered the requests before it, commits
/// request `k`.
pub open spec fn commits(db: DatabaseView, requests: Seq<Request>, k: int) -> bool {
    store_after_requests(db, requests.take(k)).answer(requests[k]).1 == ReplyView::Committed
}

/// How many units of the product the store sells when it answers the
/// requests one after the other: the commits of orders for the product that
/// go through.
pub open spec fn units_sold(db: DatabaseView, requests: Seq<Request>, product_id: u128) -> nat
    decreases requests.len(),
{
    if requests.len() == 0 {
        0
    } else {
        let k = requests.len() - 1;
        let one: nat = match requests[k] {
            Request::Commit { order, price } => if order.product_id == product_id && commits(
                db,
                requests,
                k,
            ) {
                1
            } else {
                0
            },
            _ => 0,
        };
        units_sold(db, requests.drop_last(), product_id) + one
    }
}

/// How many points the user pays when the store answers the requests one
/// after the other: the prices of the commits of orders by the user that go
/// through.
pub open spec fn points_paid(db: DatabaseView, requests: Seq<Request>, user_id: u128) -> nat
    decreases requests.len(),
{
    if requests.len() == 0 {
        0
    } else {
        let k = requests.len() - 1;
        let paid: nat = match requests[k] {
            Request::Commit { order, price } => if order.user_id == user_id && commits(
                db,
                requests,
                k,
            ) {
                price as nat
            } else {
                0
            },
            _ => 0,
        };
        points_paid(db, requests.drop_last(), user_id) + paid
    }
}

/// No order of requests oversells a product or overdraws a balance. Let any
/// number of purchases run at once, their requests reaching the store in
/// any order: the store answers them one at a time, and whatever it is
/// asked, it stays well-formed. The units of a product that it sells and the
/// units left add up to the units there were, and the points that a user
/// pays and the points left add up to the points there were. So a product
/// with one unit is sold at most once, and a user never pays for more than
/// the balance covered.
pub proof fn law_no_order_of_requests_oversells(
    db: DatabaseView,
    requests: Seq<Request>,
    product_id: u128,
    user_id: u128,
)
    requires
        db.wf(),
    ensures
        ({
            let after = store_after_requests(db, requests);
            &&& after.wf()
            &&& after.has_product(product_id) == db.has_product(product_id)
            &&& after.has_user(user_id) == db.has_user(user_id)
            &&& db.has_product(product_id) ==> units_sold(db, requests, product_id)
                + after.stock(product_id) == db.stock(product_id) && after.stock(product_id) >= 0
            &&& db.has_user(user_id) ==> points_paid(db, requests, user_id) + after.balance(
                user_id,
            ) == db.balance(user_id) && after.balance(user_id) >= 0
        }),
    decreases requests.len(),
{
    if requests.len() > 0 {
        let earlier = requests.drop_last();
        law_no_order_of_requests_oversells(db, earlier, product_id, user_id);
        assert(requests.take(requests.len() - 1) =~= earlier);
        let before = store_after_requests(db, earlier);
        let after = before.answer(requests.last()).0;
        if before.has_product(product_id) {
            let p = before.product_row(product_id);
            assert(0 <= p < before.products.len());
            assert(before.products[p].amount >= 0);
        }
        if before.has_user(user_id) {
            let u = before.user_row(user_id);
            assert(0 <= u < before.users.len());
            assert(before.users[u].points >= 0);
        }
        match requests.last() {
            Request::Commit { order, price } => {
                if before.commit_refusal(order, price as int) is None {
                    lemma_commit_effect(before, order, price as int);
                    if before.has_product(product_id) {
                        lemma_product_row(after, product_id, before.product_row(product_id));
                    } else if after.has_product(product_id) {
                        lemma_product_row(before, product_id, after.product_row(product_id));
                    }
                    if before.has_user(user_id) {
                        lemma_user_row(after, user_id, before.user_row(user_id));
                    } else if after.has_user(user_id) {
                        lemma_user_row(before, user_id, after.user_row(user_id));
                    }
                }
            },
            _ => {},
        }
    }
}

/// A purchase succeeds only on a commit. Whatever state a session is in and
/// whatever it is told, it hands out an order only when the store has just
/// committed that very order for it.
pub proof fn law_success_needs_a_commit(
    session: Session,
    reply: ReplyView,
    draw: nat,
    order_id: u128,
    now: i64,
)
    ensures
        transition(session, reply, draw, order_id, now).1 matches Action::Finish(Ok(order)) ==> {
            &&& reply == ReplyView::Committed
            &&& session.phase matches Phase::Commit { order: committed, .. }
            &&& committed == order
        },
{
}

} // verus!
