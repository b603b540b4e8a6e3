//! An in-memory store: the ledger of balances, the inventory of stock and
//! the journal of orders, with the prices of the boxes.

pub mod actions;
pub mod models;
pub mod proofs;

use crate::database::models::{Box, Product, User};
use crate::engine::order_for;
use crate::engine::{ReplyView, Request};
use crate::error::{PurchaseError, StoreError};
use crate::models::level_of;
use crate::models::{Order, ProductIdent};
use crate::selector::{pick, total_weight};
use vstd::prelude::*;

verus! {

/// The tables. Rows keep the order in which they were added, and a snapshot
/// of a box lists its products in that order.
#[derive(Clone, Debug, PartialEq, Eq)]
pub struct Database {
    pub users: Vec<User>,
    pub boxes: Vec<Box>,
    pub products: Vec<Product>,
    pub orders: Vec<Order>,
}

/// What a [`Database`] holds, as sequences of rows.
pub struct DatabaseView {
    pub users: Seq<User>,
    pub boxes: Seq<Box>,
    pub products: Seq<Product>,
    pub orders: Seq<Order>,
}

impl View for Database {
    type V = DatabaseView;

    open spec fn view(&self) -> DatabaseView {
        DatabaseView {
            users: self.users@,
            boxes: self.boxes@,
            products: self.products@,
            orders: self.orders@,
        }
    }
}

/// The ids in `ids` are pairwise distinct.
pub open spec fn distinct(ids: Seq<u128>) -> bool {
    forall|i: int, j: int| 0 <= i < j < ids.len() ==> ids[i] != ids[j]
}

fn all_distinct(ids: &Vec<u128>) -> (yes: bool)
    ensures
        yes == distinct(ids@),
{
    let mut j: usize = 0;
    while j < ids.len()
        invariant
            j <= ids.len(),
            distinct(ids@.take(j as int)),
        decreases ids.len() - j,
    {
        let mut i: usize = 0;
        while i < j
            invariant
                i <= j < ids.len(),
                forall|a: int| 0 <= a < i ==> ids[a] != ids[j as int],
            decreases j - i,
        {
            if ids[i] == ids[j] {
                return false;
            }
            i = i + 1;
        }
        j = j + 1;
    }
    proof {
        assert(ids@.take(j as int) =~= ids@);
    }
    true
}

impl Database {
    /// An empty store.
    pub fn new() -> (db: Database)
        ensures
            db@.wf(),
            db@.users.len() == 0,
            db@.boxes.len() == 0,
            db@.products.len() == 0,
            db@.orders.len() == 0,
    {
        Database { users: Vec::new(), boxes: Vec::new(), products: Vec::new(), orders: Vec::new() }
    }

    /// Whether the store is well-formed: ids are unique in each table, no
    /// balance, price or stock is negative, and each product is flagged as
    /// sold out exactly when its stock is zero.
    pub fn is_wf(&self) -> (yes: bool)
        ensures
            yes == self@.wf(),
    {
        let mut user_ids: Vec<u128> = Vec::new();
        let mut k: usize = 0;
        while k < self.users.len()
            invariant
                k <= self.users.len(),
                user_ids@.len() == k,
                forall|i: int| 0 <= i < k ==> user_ids[i] == self.users[i].id,
                forall|i: int| 0 <= i < k ==> self.users[i].points >= 0,
            decreases self.users.len() - k,
        {
            if self.users[k].points < 0 {
                assert(self@.users[k as int].points < 0);
                return false;
            }
            user_ids.push(self.users[k].id);
            k = k + 1;
        }
        let mut box_ids: Vec<u128> = Vec::new();
        let mut k: usize = 0;
        while k < self.boxes.len()
            invariant
                k <= self.boxes.len(),
                box_ids@.len() == k,
                forall|i: int| 0 <= i < k ==> box_ids[i] == self.boxes[i].id,
                forall|i: int| 0 <= i < k ==> self.boxes[i].price >= 0,
            decreases self.boxes.len() - k,
        {
            if self.boxes[k].price < 0 {
                assert(self@.boxes[k as int].price < 0);
                return false;
            }
            box_ids.push(self.boxes[k].id);
            k = k + 1;
        }
        let mut product_ids: Vec<u128> = Vec::new();
        let mut k: usize = 0;
        while k < self.products.len()
            invariant
                k <= self.products.len(),
                product_ids@.len() == k,
                forall|i: int| 0 <= i < k ==> product_ids[i] == self.products[i].id,
                forall|i: int| 0 <= i < k ==> self.products[i].amount >= 0,
                forall|i: int|
                    0 <= i < k ==> self.products[i].status == (self.products[i].amount == 0),
            decreases self.products.len() - k,
        {
            if self.products[k].amount < 0 || self.products[k].status != (self.products[k].amount
                == 0) {
                assert(self@.products[k as int].amount < 0 || self@.products[k as int].status != (
                self@.products[k as int].amount == 0));
                return false;
            }
            product_ids.push(self.products[k].id);
            k = k + 1;
        }
        let unique = all_distinct(&user_ids) && all_distinct(&box_ids) && all_distinct(
            &product_ids,
        );
        proof {
            let view = self@;
            if distinct(user_ids@) && distinct(box_ids@) && distinct(product_ids@) {
                assert forall|i: int, j: int| 0 <= i < j < view.users.len() implies view.users[i].id
                    != view.users[j].id by {
                    assert(user_ids[i] != user_ids[j]);
                }
                assert forall|i: int, j: int| 0 <= i < j < view.boxes.len() implies view.boxes[i].id
                    != view.boxes[j].id by {
                    assert(box_ids[i] != box_ids[j]);
                }
                assert forall|i: int, j: int|
                    0 <= i < j < view.products.len() implies view.products[i].id
                    != view.products[j].id by {
                    assert(product_ids[i] != product_ids[j]);
                }
                assert(view.rows_valid());
                assert(view.flags_agree());
            } else if !distinct(user_ids@) {
                let (i, j) = choose|i: int, j: int|
                    0 <= i < j < user_ids.len() && user_ids[i] == user_ids[j];
                assert(view.users[i].id == view.users[j].id);
            } else if !distinct(box_ids@) {
                let (i, j) = choose|i: int, j: int|
                    0 <= i < j < box_ids.len() && box_ids[i] == box_ids[j];
                assert(view.boxes[i].id == view.boxes[j].id);
            } else {
                let (i, j) = choose|i: int, j: int|
                    0 <= i < j < product_ids.len() && product_ids[i] == product_ids[j];
                assert(view.products[i].id == view.products[j].id);
            }
        }
        unique
    }
}

/// The candidate that a product row stands for in a draw: its weight is its
/// remaining stock.
pub open spec fn ident_of(product: Product) -> ProductIdent {
    ProductIdent {
        id: product.id,
        level: level_of(product.level as u32),
        total: product.amount as u32,
    }
}

pub open spec fn holds_user(users: Seq<User>, id: u128) -> bool {
    exists|i: int| 0 <= i < users.len() && users[i].id == id
}

pub open spec fn user_index(users: Seq<User>, id: u128) -> int {
    choose|i: int| 0 <= i < users.len() && users[i].id == id
}

pub open spec fn holds_box(boxes: Seq<Box>, id: u128) -> bool {
    exists|i: int| 0 <= i < boxes.len() && boxes[i].id == id
}

pub open spec fn box_index(boxes: Seq<Box>, id: u128) -> int {
    choose|i: int| 0 <= i < boxes.len() && boxes[i].id == id
}

pub open spec fn holds_product(products: Seq<Product>, id: u128) -> bool {
    exists|i: int| 0 <= i < products.len() && products[i].id == id
}

pub open spec fn product_index(products: Seq<Product>, id: u128) -> int {
    choose|i: int| 0 <= i < products.len() && products[i].id == id
}

/// Whether a product row belongs to the box and has stock left, and if so
/// the candidate it makes.
pub open spec fn candidate_of(box_id: u128) -> spec_fn(Product) -> Option<ProductIdent> {
    |p: Product|
        if p.box_id == box_id && p.amount > 0 {
            Some(ident_of(p))
        } else {
            None
        }
}

/// The product row as the service shows it.
pub open spec fn shown(row: Product) -> crate::models::Product {
    <crate::models::Product as vstd::std_specs::convert::FromSpec<Product>>::from_spec(row)
}

/// Whether a product row belongs to the box, and if so the product as the
/// service shows it.
pub open spec fn shown_in(box_id: u128) -> spec_fn(Product) -> Option<crate::models::Product> {
    |p: Product|
        if p.box_id == box_id {
            Some(shown(p))
        } else {
            None
        }
}

/// The candidates among `products` for a draw from the box, in the order of
/// the rows.
pub open spec fn stocked(products: Seq<Product>, box_id: u128) -> Seq<ProductIdent> {
    products.filter_map(candidate_of(box_id))
}

impl DatabaseView {
    /// Ids are unique in each table, and no balance, price or stock is
    /// negative.
    pub open spec fn rows_valid(self) -> bool {
        &&& forall|i: int, j: int|
            0 <= i < j < self.users.len() ==> self.users[i].id != self.users[j].id
        &&& forall|i: int, j: int|
            0 <= i < j < self.boxes.len() ==> self.boxes[i].id != self.boxes[j].id
        &&& forall|i: int, j: int|
            0 <= i < j < self.products.len() ==> self.products[i].id != self.products[j].id
        &&& forall|i: int| 0 <= i < self.users.len() ==> self.users[i].points >= 0
        &&& forall|i: int| 0 <= i < self.boxes.len() ==> self.boxes[i].price >= 0
        &&& forall|i: int| 0 <= i < self.products.len() ==> self.products[i].amount >= 0
    }

    /// Every product is flagged as sold out exactly when its stock is zero.
    pub open spec fn flags_agree(self) -> bool {
        forall|i: int|
            0 <= i < self.products.len() ==> self.products[i].status == (self.products[i].amount
                == 0)
    }

    /// The state between purchases: valid rows whose flags agree with the
    /// stock.
    pub open spec fn wf(self) -> bool {
        self.rows_valid() && self.flags_agree()
    }

    pub open spec fn has_user(self, id: u128) -> bool {
        holds_user(self.users, id)
    }

    /// The position of the user's row, where there is one.
    pub open spec fn user_row(self, id: u128) -> int {
        user_index(self.users, id)
    }

    /// The user's points.
    pub open spec fn balance(self, id: u128) -> int {
        self.users[self.user_row(id)].points as int
    }

    pub open spec fn has_box(self, id: u128) -> bool {
        holds_box(self.boxes, id)
    }

    /// The position of the box's row, where there is one.
    pub open spec fn box_row(self, id: u128) -> int {
        box_index(self.boxes, id)
    }

    /// What one draw from the box costs.
    pub open spec fn price(self, id: u128) -> int {
        self.boxes[self.box_row(id)].price as int
    }

    pub open spec fn has_product(self, id: u128) -> bool {
        holds_product(self.products, id)
    }

    /// The position of the product's row, where there is one.
    pub open spec fn product_row(self, id: u128) -> int {
        product_index(self.products, id)
    }

    /// The product's remaining stock.
    pub open spec fn stock(self, id: u128) -> int {
        self.products[self.product_row(id)].amount as int
    }

    /// Whether the product is flagged as sold out.
    pub open spec fn exhausted(self, id: u128) -> bool {
        self.products[self.product_row(id)].status
    }

    /// The products of the box that are in stock, in table order, each with
    /// its stock as weight.
    pub open spec fn in_stock(self, box_id: u128) -> Seq<ProductIdent> {
        stocked(self.products, box_id)
    }

    /// How many units of the box are in stock, over all its products.
    pub open spec fn units_in_stock(self, box_id: u128) -> nat {
        total_weight(self.in_stock(box_id))
    }

    /// Whether the user can pay for a draw from the box: the store holds
    /// both, and the balance is above zero and covers the price.
    pub open spec fn funded(self, user_id: u128, box_id: u128) -> bool {
        &&& self.has_user(user_id)
        &&& self.has_box(box_id)
        &&& self.balance(user_id) != 0
        &&& self.balance(user_id) >= self.price(box_id)
    }

    /// The products of the box, in table order, as the service shows them.
    pub open spec fn products_of(self, box_id: u128) -> Seq<crate::models::Product> {
        self.products.filter_map(shown_in(box_id))
    }

    /// The store after `points` were added to the balance of the user.
    pub open spec fn credit(self, user_id: u128, points: int) -> DatabaseView {
        let i = self.user_row(user_id);
        DatabaseView {
            users: self.users.update(
                i,
                User { points: (self.users[i].points + points) as i32, ..self.users[i] },
            ),
            ..self
        }
    }

    /// The orders of the user, oldest first.
    pub open spec fn orders_of(self, user_id: u128) -> Seq<Order> {
        self.orders.filter(|o: Order| o.user_id == user_id)
    }

    /// The store after `amount` points left the user's balance.
    pub open spec fn debit(self, user_id: u128, amount: int) -> DatabaseView {
        let i = self.user_row(user_id);
        DatabaseView {
            users: self.users.update(
                i,
                User { points: (self.users[i].points - amount) as i32, ..self.users[i] },
            ),
            ..self
        }
    }

    /// The store after one unit of the product left the stock.
    pub open spec fn decrement(self, product_id: u128) -> DatabaseView {
        let i = self.product_row(product_id);
        DatabaseView {
            products: self.products.update(
                i,
                Product { amount: (self.products[i].amount - 1) as i32, ..self.products[i] },
            ),
            ..self
        }
    }

    /// The store after the product was flagged as sold out if its stock is
    /// zero. A product with stock keeps its flag.
    pub open spec fn mark_exhausted_if_zero(self, product_id: u128) -> DatabaseView {
        let i = self.product_row(product_id);
        if self.products[i].amount == 0 {
            DatabaseView {
                products: self.products.update(i, Product { status: true, ..self.products[i] }),
                ..self
            }
        } else {
            self
        }
    }

    /// The store after the order joined the journal.
    pub open spec fn append(self, order: Order) -> DatabaseView {
        DatabaseView { orders: self.orders.push(order), ..self }
    }

    /// Why the store refuses to commit `order` at `price`, if it does: it
    /// holds no such buyer or product, or the balance is below the price, or
    /// the product has no stock left. The balance is looked at first.
    pub open spec fn commit_refusal(self, order: Order, price: int) -> Option<StoreError> {
        if !self.has_user(order.user_id) || !self.has_product(order.product_id) {
            Some(StoreError::NotFound)
        } else if self.balance(order.user_id) < price {
            Some(StoreError::InsufficientFunds)
        } else if self.stock(order.product_id) == 0 {
            Some(StoreError::StockExhausted)
        } else {
            None
        }
    }

    /// The store after a purchase was committed: the buyer paid `price`, the
    /// product lost one unit and was flagged if that was the last, and the
    /// order was recorded.
    pub open spec fn commit(self, order: Order, price: int) -> DatabaseView {
        self.debit(order.user_id, price).decrement(order.product_id).mark_exhausted_if_zero(
            order.product_id,
        ).append(order)
    }

    /// What the store answers to a request of a purchase, and the store
    /// after it. Only a commit that goes through changes the store.
    pub open spec fn answer(self, request: Request) -> (DatabaseView, ReplyView) {
        match request {
            Request::Funds { user_id, box_id } => {
                if self.has_user(user_id) && self.has_box(box_id) {
                    (
                        self,
                        ReplyView::Funds {
                            balance: self.balance(user_id) as u32,
                            price: self.price(box_id) as u32,
                        },
                    )
                } else {
                    (self, ReplyView::Unavailable)
                }
            },
            Request::InStock { box_id } => (self, ReplyView::InStock(self.in_stock(box_id))),
            Request::Commit { order, price } => {
                match self.commit_refusal(order, price as int) {
                    None => (self.commit(order, price as int), ReplyView::Committed),
                    Some(StoreError::InsufficientFunds) => (self, ReplyView::InsufficientFunds),
                    Some(StoreError::StockExhausted) => (self, ReplyView::StockExhausted),
                    Some(StoreError::NotFound) => (self, ReplyView::Unavailable),
                }
            },
        }
    }

    /// One purchase of a draw from `box_id` by `user_id`, run against this
    /// store alone: the store after it and what the buyer gets.
    ///
    /// * A user or a box that the store does not hold: `InfrastructureError`.
    /// * A balance of zero or below the price: `InsufficientFunds`.
    /// * No product of the box in stock under `draw`: `SelectionError`.
    /// * Otherwise the product that `draw` picks among the products in
    ///   stock is sold: the store commits the order for it.
    ///
    /// A purchase that fails leaves the store as it was.
    pub open spec fn purchase(
        self,
        user_id: u128,
        box_id: u128,
        draw: nat,
        order_id: u128,
        now: i64,
    ) -> (DatabaseView, Result<Order, PurchaseError>) {
        if !self.has_user(user_id) || !self.has_box(box_id) {
            (self, Err(PurchaseError::InfrastructureError))
        } else if !self.funded(user_id, box_id) {
            (self, Err(PurchaseError::InsufficientFunds))
        } else {
            let candidates = self.in_stock(box_id);
            match pick(candidates, draw) {
                None => (self, Err(PurchaseError::SelectionError)),
                Some(i) => {
                    let order = order_for(user_id, box_id, candidates[i].id, order_id, now);
                    (self.commit(order, self.price(box_id)), Ok(order))
                },
            }
        }
    }
}

} // verus!
