//! The operations of the store, and the purchase run against it.
//!
//! Each operation is one atomic step: it checks and changes the rows it is
//! about in one go, and a refused operation changes nothing.

use crate::database::proofs::{
    lemma_box_row, lemma_product_row, lemma_stocked_origin, lemma_user_row,
};
use crate::database::{
    candidate_of, ident_of, shown, shown_in, stocked, Database, DatabaseView,
};
use crate::engine::{order_for, Action, Phase, Reply, Request, Session};
use crate::error::{ApiError, PurchaseError, StoreError};
use crate::models;
use crate::models::{Amount, Level, Order, ProductIdent};
use crate::outside::{fresh_uuid, is_random_uuid, now_micros, random_below};
use crate::selector::{lemma_pick_is_stretch, pick, select_with_draw, total_weight, total_weight_of};
use crate::web::ReqId;
use vstd::prelude::*;

verus! {

/// Handles all the queries to the store.
pub struct DatabaseHand;

/// Where a purchase that runs alone against the store stands: nothing has
/// changed yet, and the session is on the way that
/// [`DatabaseView::purchase`] describes.
spec fn on_track(
    before: DatabaseView,
    session: Session,
    request: Request,
    user_id: u128,
    box_id: u128,
    draw: nat,
    order_id: u128,
    now: i64,
) -> bool {
    let funded = before.funded(user_id, box_id);
    &&& session.user_id == user_id
    &&& session.box_id == box_id
    &&& match session.phase {
        Phase::Validate => request == (Request::Funds { user_id, box_id }),
        Phase::Snapshot { price, retries } => {
            &&& funded
            &&& price == before.price(box_id)
            &&& request == (Request::InStock { box_id })
        },
        Phase::Commit { price, retries, order } => {
            &&& funded
            &&& price == before.price(box_id)
            &&& request == (Request::Commit { order, price })
            &&& pick(before.in_stock(box_id), draw) matches Some(i) && order == order_for(
                user_id,
                box_id,
                before.in_stock(box_id)[i].id,
                order_id,
                now,
            )
        },
        Phase::Done => false,
    }
}

/// The requests that a purchase running alone has still to make.
spec fn turns_left(phase: Phase) -> nat {
    match phase {
        Phase::Validate => 3,
        Phase::Snapshot { .. } => 2,
        Phase::Commit { .. } => 1,
        Phase::Done => 0,
    }
}

fn find_user(db: &Database, id: u128) -> (found: Option<usize>)
    requires
        db@.rows_valid(),
    ensures
        found matches Some(i) ==> db@.has_user(id) && i == db@.user_row(id) && i
            < db.users.len() && db.users[i as int].id == id,
        found is None ==> !db@.has_user(id),
{
    let mut k: usize = 0;
    while k < db.users.len()
        invariant
            k <= db.users.len(),
            db@.rows_valid(),
            forall|j: int| 0 <= j < k ==> db.users[j].id != id,
        decreases db.users.len() - k,
    {
        if db.users[k].id == id {
            proof {
                lemma_user_row(db@, id, k as int);
            }
            return Some(k);
        }
        k = k + 1;
    }
    None
}

fn find_box(db: &Database, id: u128) -> (found: Option<usize>)
    requires
        db@.rows_valid(),
    ensures
        found matches Some(i) ==> db@.has_box(id) && i == db@.box_row(id) && i < db.boxes.len()
            && db.boxes[i as int].id == id,
        found is None ==> !db@.has_box(id),
{
    let mut k: usize = 0;
    while k < db.boxes.len()
        invariant
            k <= db.boxes.len(),
            db@.rows_valid(),
            forall|j: int| 0 <= j < k ==> db.boxes[j].id != id,
        decreases db.boxes.len() - k,
    {
        if db.boxes[k].id == id {
            proof {
                lemma_box_row(db@, id, k as int);
            }
            return Some(k);
        }
        k = k + 1;
    }
    None
}

fn find_product(db: &Database, id: u128) -> (found: Option<usize>)
    requires
        db@.rows_valid(),
    ensures
        found matches Some(i) ==> db@.has_product(id) && i == db@.product_row(id) && i
            < db.products.len() && db.products[i as int].id == id,
        found is None ==> !db@.has_product(id),
{
    let mut k: usize = 0;
    while k < db.products.len()
        invariant
            k <= db.products.len(),
            db@.rows_valid(),
            forall|j: int| 0 <= j < k ==> db.products[j].id != id,
        decreases db.products.len() - k,
    {
        if db.products[k].id == id {
            proof {
                lemma_product_row(db@, id, k as int);
            }
            return Some(k);
        }
        k = k + 1;
    }
    None
}

impl DatabaseHand {
    /// The balance of the user, or `NotFound` where the store holds no such
    /// user.
    pub fn get_user_points(db: &Database, id: u128) -> (res: Result<u32, StoreError>)
        requires
            db@.rows_valid(),
        ensures
            res matches Ok(points) ==> db@.has_user(id) && points == db@.balance(id),
            res matches Err(e) ==> !db@.has_user(id) && e == StoreError::NotFound,
    {
        match find_user(db, id) {
            Some(i) => Ok(db.users[i].points as u32),
            None => Err(StoreError::NotFound),
        }
    }

    /// The price of one draw from the box, or `NotFound` where the store
    /// holds no such box.
    pub fn get_box_cost(db: &Database, box_id: u128) -> (res: Result<i32, StoreError>)
        requires
            db@.rows_valid(),
        ensures
            res matches Ok(cost) ==> db@.has_box(box_id) && cost == db@.price(box_id),
            res matches Err(e) ==> !db@.has_box(box_id) && e == StoreError::NotFound,
    {
        match find_box(db, box_id) {
            Some(i) => Ok(db.boxes[i].price),
            None => Err(StoreError::NotFound),
        }
    }

    /// The remaining stock of the product, or `NotFound` where the store
    /// holds no such product.
    pub fn get_product_amount(db: &Database, product_id: u128) -> (res: Result<i32, StoreError>)
        requires
            db@.rows_valid(),
        ensures
            res matches Ok(amount) ==> db@.has_product(product_id) && amount == db@.stock(
                product_id,
            ),
            res matches Err(e) ==> !db@.has_product(product_id) && e == StoreError::NotFound,
    {
        match find_product(db, product_id) {
            Some(i) => Ok(db.products[i].amount),
            None => Err(StoreError::NotFound),
        }
    }

    /// The products of the box, in table order, as the service shows them.
    pub fn get_products(db: &Database, box_id: u128) -> (products: Vec<models::Product>)
        ensures
            products@ == db@.products_of(box_id),
    {
        let mut products: Vec<models::Product> = Vec::new();
        let mut k: usize = 0;
        while k < db.products.len()
            invariant
                k <= db.products.len(),
                products@ == db.products@.take(k as int).filter_map(shown_in(box_id)),
            decreases db.products.len() - k,
        {
            proof {
                db.products@.lemma_filter_map_take_succ(shown_in(box_id), k as int);
            }
            if db.products[k].box_id == box_id {
                products.push(models::Product::from(db.products[k].duplicate()));
            }
            k = k + 1;
        }
        proof {
            assert(db.products@.take(k as int) =~= db.products@);
        }
        products
    }

    /// The product as the service shows it, or `NotFound` where the store
    /// holds no such product.
    pub fn get_single_product(db: &Database, product_id: u128) -> (res: Result<
        models::Product,
        StoreError,
    >)
        requires
            db@.rows_valid(),
        ensures
            res matches Ok(product) ==> db@.has_product(product_id) && product == shown(
                db@.products[db@.product_row(product_id)],
            ),
            res matches Err(e) ==> !db@.has_product(product_id) && e == StoreError::NotFound,
    {
        match find_product(db, product_id) {
            Some(i) => Ok(models::Product::from(db.products[i].duplicate())),
            None => Err(StoreError::NotFound),
        }
    }

    /// Whether the user may change the catalogue: `Ok(true)` for a
    /// superuser, `NotSuperuser` for any other user, and `DatabaseError`
    /// where the store holds no such user.
    pub fn confirm_user_privilege(db: &Database, id: &ReqId) -> (res: Result<bool, ApiError>)
        requires
            db@.rows_valid(),
        ensures
            res matches Ok(yes) ==> yes && db@.has_user(id.id) && db@.users[db@.user_row(
                id.id,
            )].is_superuser,
            res matches Err(e) ==> {
                &&& e == ApiError::DatabaseError || e == ApiError::NotSuperuser
                &&& e == ApiError::DatabaseError <==> !db@.has_user(id.id)
                &&& e == ApiError::NotSuperuser ==> !db@.users[db@.user_row(id.id)].is_superuser
            },
    {
        match find_user(db, id.id) {
            Some(i) => {
                if db.users[i].is_superuser {
                    Ok(true)
                } else {
                    Err(ApiError::NotSuperuser)
                }
            },
            None => Err(ApiError::DatabaseError),
        }
    }

    /// Adds points to the balance of the user and returns the new balance,
    /// or `NotFound` where the store holds no such user. The new balance
    /// must fit the column that holds it.
    pub fn add_coins(db: &mut Database, amount: &Amount) -> (res: Result<u32, StoreError>)
        requires
            old(db)@.rows_valid(),
            old(db)@.has_user(amount.user_id) ==> old(db)@.balance(amount.user_id)
                + amount.points <= i32::MAX,
        ensures
            res matches Ok(balance) ==> {
                &&& old(db)@.has_user(amount.user_id)
                &&& balance == old(db)@.balance(amount.user_id) + amount.points
                &&& final(db)@ == old(db)@.credit(amount.user_id, amount.points as int)
            },
            res matches Err(e) ==> !old(db)@.has_user(amount.user_id) && e == StoreError::NotFound
                && final(db)@ == old(db)@,
            final(db)@.rows_valid(),
    {
        match find_user(db, amount.user_id) {
            Some(i) => {
                let balance = db.users[i].points + amount.points as i32;
                db.users[i].points = balance;
                proof {
                    assert(db@.users =~= old(db)@.credit(
                        amount.user_id,
                        amount.points as int,
                    ).users);
                }
                Ok(balance as u32)
            },
            None => Err(StoreError::NotFound),
        }
    }

    /// The products of the box that have stock left, in table order, each
    /// with its stock as weight. A box that the store does not hold has none.
    pub fn snapshot_in_stock(db: &Database, box_id: u128) -> (snapshot: Vec<ProductIdent>)
        ensures
            snapshot@ == db@.in_stock(box_id),
    {
        let mut snapshot: Vec<ProductIdent> = Vec::new();
        let mut k: usize = 0;
        while k < db.products.len()
            invariant
                k <= db.products.len(),
                snapshot@ == stocked(db.products@.take(k as int), box_id),
            decreases db.products.len() - k,
        {
            proof {
                db.products@.lemma_filter_map_take_succ(candidate_of(box_id), k as int);
            }
            if db.products[k].box_id == box_id && db.products[k].amount > 0 {
                snapshot.push(
                    ProductIdent {
                        id: db.products[k].id,
                        level: Level::from(db.products[k].level as u32),
                        total: db.products[k].amount as u32,
                    },
                );
            }
            k = k + 1;
        }
        proof {
            assert(db.products@.take(k as int) =~= db.products@);
        }
        snapshot
    }

    /// Takes `points` from the balance of the user and returns the new
    /// balance. The check and the change are one step: a balance below
    /// `points` is refused with `InsufficientFunds` and stays as it is.
    pub fn deduct_points_from_user(db: &mut Database, data: (u32, u128)) -> (res: Result<
        u32,
        StoreError,
    >)
        requires
            old(db)@.rows_valid(),
        ensures
            res matches Ok(balance) ==> {
                &&& old(db)@.has_user(data.1)
                &&& old(db)@.balance(data.1) >= data.0
                &&& balance == old(db)@.balance(data.1) - data.0
                &&& final(db)@ == old(db)@.debit(data.1, data.0 as int)
            },
            res matches Err(e) ==> {
                &&& final(db)@ == old(db)@
                &&& e == StoreError::NotFound || e == StoreError::InsufficientFunds
                &&& e == StoreError::NotFound <==> !old(db)@.has_user(data.1)
                &&& e == StoreError::InsufficientFunds ==> old(db)@.balance(data.1) < data.0
            },
            final(db)@.rows_valid(),
    {
        let (points, user_id) = data;
        match find_user(db, user_id) {
            Some(i) => {
                if (db.users[i].points as u32) < points {
                    Err(StoreError::InsufficientFunds)
                } else {
                    let balance = db.users[i].points - points as i32;
                    db.users[i].points = balance;
                    proof {
                        assert(db@.users =~= old(db)@.debit(user_id, points as int).users);
                    }
                    Ok(balance as u32)
                }
            },
            None => Err(StoreError::NotFound),
        }
    }

    /// Takes one unit from the stock of the product and returns the stock
    /// that is left. The check and the change are one step: a stock of zero
    /// is refused with `StockExhausted` and stays as it is, so no product is
    /// ever sold more often than it was stocked.
    pub fn decrement_stock(db: &mut Database, product_id: u128) -> (res: Result<i32, StoreError>)
        requires
            old(db)@.rows_valid(),
        ensures
            res matches Ok(left) ==> {
                &&& old(db)@.has_product(product_id)
                &&& old(db)@.stock(product_id) > 0
                &&& left == old(db)@.stock(product_id) - 1
                &&& final(db)@ == old(db)@.decrement(product_id)
            },
            res matches Err(e) ==> {
                &&& final(db)@ == old(db)@
                &&& e == StoreError::NotFound || e == StoreError::StockExhausted
                &&& e == StoreError::NotFound <==> !old(db)@.has_product(product_id)
                &&& e == StoreError::StockExhausted ==> old(db)@.stock(product_id) == 0
            },
            final(db)@.rows_valid(),
    {
        match find_product(db, product_id) {
            Some(i) => {
                if db.products[i].amount == 0 {
                    Err(StoreError::StockExhausted)
                } else {
                    let left = db.products[i].amount - 1;
                    db.products[i].amount = left;
                    proof {
                        assert(db@.products =~= old(db)@.decrement(product_id).products);
                    }
                    Ok(left)
                }
            },
            None => Err(StoreError::NotFound),
        }
    }

    /// Flags the product as sold out if its stock is zero, and leaves a
    /// product with stock as it is. Doing it twice is doing it once.
    pub fn mark_exhausted_if_zero(db: &mut Database, product_id: u128) -> (res: Result<
        (),
        StoreError,
    >)
        requires
            old(db)@.rows_valid(),
        ensures
            res is Ok ==> old(db)@.has_product(product_id) && final(db)@
                == old(db)@.mark_exhausted_if_zero(product_id),
            res matches Err(e) ==> !old(db)@.has_product(product_id) && final(db)@ == old(db)@
                && e == StoreError::NotFound,
            final(db)@.rows_valid(),
            res is Ok ==> final(db)@.mark_exhausted_if_zero(product_id) == final(db)@,
    {
        match find_product(db, product_id) {
            Some(i) => {
                if db.products[i].amount == 0 {
                    db.products[i].status = true;
                    proof {
                        assert(db@.products =~= old(db)@.mark_exhausted_if_zero(
                            product_id,
                        ).products);
                    }
                }
                proof {
                    lemma_product_row(db@, product_id, i as int);
                    assert(db@.mark_exhausted_if_zero(product_id).products =~= db@.products);
                }
                Ok(())
            },
            None => Err(StoreError::NotFound),
        }
    }

    /// Records the order at the end of the journal. Nothing in the journal
    /// is ever changed or removed.
    pub fn add_order(order: Order, db: &mut Database)
        ensures
            final(db)@ == old(db)@.append(order),
    {
        db.orders.push(order);
    }

    /// The orders of the user, oldest first.
    pub fn get_orders(db: &Database, user_id: u128) -> (orders: Vec<Order>)
        ensures
            orders@ == db@.orders_of(user_id),
    {
        let ghost by_user = |o: Order| o.user_id == user_id;
        let mut orders: Vec<Order> = Vec::new();
        let mut k: usize = 0;
        while k < db.orders.len()
            invariant
                k <= db.orders.len(),
                by_user == |o: Order| o.user_id == user_id,
                orders@ == db.orders@.take(k as int).filter(by_user),
            decreases db.orders.len() - k,
        {
            proof {
                assert(db.orders@.take(k + 1).drop_last() =~= db.orders@.take(k as int));
                reveal(Seq::filter);
            }
            if db.orders[k].user_id == user_id {
                orders.push(db.orders[k]);
            }
            k = k + 1;
        }
        proof {
            assert(db.orders@.take(k as int) =~= db.orders@);
        }
        orders
    }

    /// Every order, oldest first.
    pub fn get_all_orders(db: &Database) -> (orders: Vec<Order>)
        ensures
            orders@ == db@.orders,
    {
        let mut orders: Vec<Order> = Vec::new();
        let mut k: usize = 0;
        while k < db.orders.len()
            invariant
                k <= db.orders.len(),
                orders@ == db.orders@.take(k as int),
            decreases db.orders.len() - k,
        {
            orders.push(db.orders[k]);
            proof {
                assert(db.orders@.take(k + 1) =~= db.orders@.take(k as int).push(
                    db.orders@[k as int],
                ));
            }
            k = k + 1;
        }
        proof {
            assert(db.orders@.take(k as int) =~= db.orders@);
        }
        orders
    }

    /// Commits a purchase as one atomic unit: debits `price` from the buyer
    /// of `order`, takes one unit of its product, flags the product as sold
    /// out if that was the last unit, and records `order`. Either all of it
    /// happens or, where the store refuses, none of it.
    pub fn commit_purchase(db: &mut Database, order: Order, price: u32) -> (res: Result<
        (),
        StoreError,
    >)
        requires
            old(db)@.wf(),
        ensures
            res is Ok ==> old(db)@.commit_refusal(order, price as int) is None && final(db)@
                == old(db)@.commit(order, price as int),
            res matches Err(e) ==> old(db)@.commit_refusal(order, price as int) == Some(e)
                && final(db)@ == old(db)@,
            final(db)@.wf(),
    {
        let user = find_user(db, order.user_id);
        let product = find_product(db, order.product_id);
        match (user, product) {
            (Some(u), Some(p)) => {
                if (db.users[u].points as u32) < price {
                    Err(StoreError::InsufficientFunds)
                } else if db.products[p].amount == 0 {
                    Err(StoreError::StockExhausted)
                } else {
                    let left = db.products[p].amount - 1;
                    db.users[u].points = db.users[u].points - price as i32;
                    db.products[p].amount = left;
                    if left == 0 {
                        db.products[p].status = true;
                    }
                    db.orders.push(order);
                    proof {
                        let paid = old(db)@.debit(order.user_id, price as int);
                        let taken = paid.decrement(order.product_id);
                        lemma_product_row(taken, order.product_id, p as int);
                        let flagged = taken.mark_exhausted_if_zero(order.product_id);
                        let committed = flagged.append(order);
                        assert(db@.users =~= committed.users);
                        assert(db@.products =~= committed.products);
                        assert(db@.orders =~= committed.orders);
                    }
                    Ok(())
                }
            },
            _ => Err(StoreError::NotFound),
        }
    }

    /// Answers one request of a purchase from this store, as
    /// [`DatabaseView::answer`] says.
    pub fn perform(db: &mut Database, request: Request) -> (reply: Reply)
        requires
            old(db)@.wf(),
        ensures
            (final(db)@, reply@) == old(db)@.answer(request),
            final(db)@.wf(),
    {
        match request {
            Request::Funds { user_id, box_id } => {
                match (Self::get_user_points(db, user_id), Self::get_box_cost(db, box_id)) {
                    (Ok(balance), Ok(price)) => Reply::Funds { balance, price: price as u32 },
                    _ => Reply::Unavailable,
                }
            },
            Request::InStock { box_id } => Reply::InStock(Self::snapshot_in_stock(db, box_id)),
            Request::Commit { order, price } => {
                match Self::commit_purchase(db, order, price) {
                    Ok(()) => Reply::Committed,
                    Err(StoreError::InsufficientFunds) => Reply::InsufficientFunds,
                    Err(StoreError::StockExhausted) => Reply::StockExhausted,
                    Err(StoreError::NotFound) => Reply::Unavailable,
                }
            },
        }
    }

    /// One purchase of a draw from the box `data.0` by the user `data.1`,
    /// with the draw, the id of the order and the time given. It runs a
    /// [`Session`] against this store until the session finishes, and ends
    /// as [`DatabaseView::purchase`] says.
    pub fn buy_box_with(
        db: &mut Database,
        data: (u128, ReqId),
        draw: u128,
        order_id: u128,
        now: i64,
    ) -> (res: Result<Order, PurchaseError>)
        requires
            old(db)@.wf(),
        ensures
            (final(db)@, res) == old(db)@.purchase(data.1.id, data.0, draw as nat, order_id, now),
            final(db)@.wf(),
    {
        let (box_id, req_id) = data;
        let (mut session, mut request) = Session::begin(req_id.id, box_id);
        loop
            invariant
                db@ == old(db)@,
                db@.wf(),
                box_id == data.0,
                req_id.id == data.1.id,
                on_track(db@, session, request, req_id.id, box_id, draw as nat, order_id, now),
            decreases turns_left(session.phase),
        {
            proof {
                if let Phase::Commit { price, retries, order } = session.phase {
                    let candidates = db@.in_stock(box_id);
                    let i = pick(candidates, draw as nat).unwrap();
                    lemma_pick_is_stretch(candidates, draw as nat);
                    lemma_stocked_origin(db@.products, box_id, i);
                    let j = choose|j: int|
                        0 <= j < db@.products.len() && db@.products[j].box_id == box_id
                            && db@.products[j].amount > 0 && #[trigger] ident_of(db@.products[j])
                            == candidates[i];
                    lemma_product_row(db@, order.product_id, j);
                }
            }
            let reply = Self::perform(db, request);
            match session.step_with(reply, draw, order_id, now) {
                Action::Ask(next) => {
                    request = next;
                },
                Action::Finish(result) => {
                    return result;
                },
            }
        }
    }

    /// One purchase of a draw from the box `data.0` by the user `data.1`.
    ///
    /// The draw is a random number below the total stock of the box, so it
    /// picks each product in stock with a chance in proportion to its stock;
    /// the order gets a fresh random id and the current time. With these the
    /// purchase ends as [`DatabaseView::purchase`] says: on success the
    /// buyer has paid the price, the product has lost one unit and the
    /// order stands at the end of the journal; on failure the store is as it
    /// was.
    pub fn buy_box(db: &mut Database, data: (u128, ReqId)) -> (res: Result<Order, PurchaseError>)
        requires
            old(db)@.wf(),
        ensures
            exists|draw: nat, order_id: u128, now: i64|
                {
                    let total = total_weight(old(db)@.in_stock(data.0));
                    (total > 0 ==> draw < total) && is_random_uuid(order_id) && now >= 0 && (
                    final(db)@, res) == #[trigger] old(db)@.purchase(
                        data.1.id,
                        data.0,
                        draw,
                        order_id,
                        now,
                    )
                },
            final(db)@.wf(),
    {
        let candidates = Self::snapshot_in_stock(db, data.0);
        let total = total_weight_of(&candidates);
        let draw = if total > 0 {
            random_below(total)
        } else {
            0
        };
        let order_id = fresh_uuid();
        let now = now_micros();
        let res = Self::buy_box_with(db, data, draw, order_id, now);
        assert((db@, res) == old(db)@.purchase(data.1.id, data.0, draw as nat, order_id, now));
        res
    }

    /// Picks one of `products` at random, each with a chance in proportion
    /// to its weight: it draws a number below the total weight and takes the
    /// product whose stretch the draw falls into. Without any weight there
    /// is nothing to pick, and the answer is `None`.
    pub fn select_weighted_random_product(products: &Vec<ProductIdent>) -> (picked: Option<
        ProductIdent,
    >)
        ensures
            picked is None <==> total_weight(products@) == 0,
            picked matches Some(product) ==> exists|draw: nat|
                draw < total_weight(products@) && #[trigger] pick(products@, draw) is Some
                    && products@[pick(products@, draw).unwrap()] == product,
    {
        let total = total_weight_of(products);
        if total == 0 {
            return None;
        }
        let draw = random_below(total);
        proof {
            lemma_pick_is_stretch(products@, draw as nat);
        }
        match select_with_draw(products, draw) {
            Some(i) => Some(products[i]),
            None => None,
        }
    }
}

} // verus!
