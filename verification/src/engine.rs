//! The decisions of one purchase, as a state machine.
//!
//! A purchase does not touch a store itself. It asks: for the buyer's funds
//! and the price, for the products of the box that are in stock, and for the
//! commit of the product it picked. Whoever holds the stores answers each
//! [`Request`] with a [`Reply`], and [`Session::step`] decides what comes
//! next. The commit is one request, so the stores can carry it out as one
//! atomic unit: balance, stock, flag and order change together or not at
//! all.
//!
//! When a commit loses its product to another purchase, the session asks
//! for a fresh snapshot and picks again, up to [`MAX_RETRIES`] times.

use crate::error::PurchaseError;
use crate::models::{Order, OrderStatus, ProductIdent};
use crate::outside::{fresh_uuid, is_random_uuid, now_micros, random_below};
use crate::selector::{pick, select_with_draw, total_weight, total_weight_of};
use vstd::prelude::*;

verus! {

/// How often a purchase picks again after it lost a product to another
/// purchase, before it gives up.
pub const MAX_RETRIES: u32 = 3;

/// Where a purchase stands.
#[derive(Clone, Copy, Debug, PartialEq, Eq, Structural)]
pub enum Phase {
    /// Waiting for the buyer's balance and the price of the box.
    Validate,
    /// Waiting for the products in stock. `retries` counts the commits lost
    /// so far.
    Snapshot { price: u32, retries: u32 },
    /// Waiting for the outcome of the commit of `order`.
    Commit { price: u32, retries: u32, order: Order },
    /// Finished: the result was handed out.
    Done,
}

/// One purchase in progress.
#[derive(Clone, Copy, Debug, PartialEq, Eq, Structural)]
pub struct Session {
    pub user_id: u128,
    pub box_id: u128,
    pub phase: Phase,
}

/// What a purchase asks of the stores.
#[derive(Clone, Copy, Debug, PartialEq, Eq, Structural)]
pub enum Request {
    /// The balance of the user and the price of the box.
    Funds { user_id: u128, box_id: u128 },
    /// The products of the box with stock left, in a fixed order.
    InStock { box_id: u128 },
    /// As one atomic unit: debit `price` from the buyer of `order`, take one
    /// unit of its product, flag the product if that was the last unit, and
    /// record `order`.
    Commit { order: Order, price: u32 },
}

/// What the stores answer.
#[derive(Clone, Debug, PartialEq, Eq)]
pub enum Reply {
    Funds { balance: u32, price: u32 },
    InStock(Vec<ProductIdent>),
    /// The commit went through.
    Committed,
    /// The commit was refused: the product had no stock left.
    StockExhausted,
    /// The commit was refused: the balance no longer covers the price.
    InsufficientFunds,
    /// A store could not be reached, or holds no such user, box or product.
    Unavailable,
}

/// A [`Reply`] with its candidates as a sequence.
pub enum ReplyView {
    Funds { balance: u32, price: u32 },
    InStock(Seq<ProductIdent>),
    Committed,
    StockExhausted,
    InsufficientFunds,
    Unavailable,
}

impl View for Reply {
    type V = ReplyView;

    open spec fn view(&self) -> ReplyView {
        match *self {
            Reply::Funds { balance, price } => ReplyView::Funds { balance, price },
            Reply::InStock(candidates) => ReplyView::InStock(candidates@),
            Reply::Committed => ReplyView::Committed,
            Reply::StockExhausted => ReplyView::StockExhausted,
            Reply::InsufficientFunds => ReplyView::InsufficientFunds,
            Reply::Unavailable => ReplyView::Unavailable,
        }
    }
}

/// What a purchase does next: ask the stores, or finish with its result.
#[derive(Clone, Copy, Debug, PartialEq, Eq)]
pub enum Action {
    Ask(Request),
    Finish(Result<Order, PurchaseError>),
}

/// The order that a purchase writes for the product it picked.
pub open spec fn order_for(
    user_id: u128,
    box_id: u128,
    product_id: u128,
    order_id: u128,
    now: i64,
) -> Order {
    Order { id: order_id, user_id, product_id, box_id, created_at: now, status: OrderStatus::Pending }
}

/// A session that is over, with what it hands out.
pub open spec fn finished(session: Session, result: Result<Order, PurchaseError>) -> (
    Session,
    Action,
) {
    (Session { phase: Phase::Done, ..session }, Action::Finish(result))
}

/// The session after it asked for a snapshot, with that request.
pub open spec fn snapshotting(session: Session, price: u32, retries: u32) -> (Session, Action) {
    (
        Session { phase: Phase::Snapshot { price, retries }, ..session },
        Action::Ask(Request::InStock { box_id: session.box_id }),
    )
}

/// The rules of a purchase: the next state and action for each state and
/// reply. `draw` picks among the candidates of a snapshot; `order_id` and
/// `now` go into the order that is written for the pick.
///
/// * Funds arrive: a balance of zero or below the price ends the purchase
///   with `InsufficientFunds`; otherwise the session asks for a snapshot.
/// * A snapshot arrives: the draw picks a candidate and the session asks for
///   the commit; a snapshot without weight under the draw ends the purchase
///   with `SelectionError`.
/// * The commit went through: the purchase ends with the order.
/// * The commit found the stock exhausted: the session asks for a fresh
///   snapshot, unless it did so `MAX_RETRIES` times already, which ends the
///   purchase with `SelectionError`.
/// * The commit found the funds gone: `InsufficientFunds`.
/// * Anything else, a store out of reach or a reply out of turn, ends the
///   purchase with `InfrastructureError`.
pub open spec fn transition(
    session: Session,
    reply: ReplyView,
    draw: nat,
    order_id: u128,
    now: i64,
) -> (Session, Action) {
    match (session.phase, reply) {
        (Phase::Validate, ReplyView::Funds { balance, price }) => {
            if balance == 0 || balance < price {
                finished(session, Err(PurchaseError::InsufficientFunds))
            } else {
                snapshotting(session, price, 0)
            }
        },
        (Phase::Snapshot { price, retries }, ReplyView::InStock(candidates)) => {
            match pick(candidates, draw) {
                Some(i) => {
                    let order = order_for(
                        session.user_id,
                        session.box_id,
                        candidates[i].id,
                        order_id,
                        now,
                    );
                    (
                        Session { phase: Phase::Commit { price, retries, order }, ..session },
                        Action::Ask(Request::Commit { order, price }),
                    )
                },
                None => finished(session, Err(PurchaseError::SelectionError)),
            }
        },
        (Phase::Commit { price, retries, order }, ReplyView::Committed) => {
            finished(session, Ok(order))
        },
        (Phase::Commit { price, retries, order }, ReplyView::StockExhausted) => {
            if retries < MAX_RETRIES {
                snapshotting(session, price, (retries + 1) as u32)
            } else {
                finished(session, Err(PurchaseError::SelectionError))
            }
        },
        (Phase::Commit { price, retries, order }, ReplyView::InsufficientFunds) => {
            finished(session, Err(PurchaseError::InsufficientFunds))
        },
        _ => finished(session, Err(PurchaseError::InfrastructureError)),
    }
}

/// Whether `draw` picks a candidate of every snapshot that has weight: it
/// lies below the total weight of the candidates that `reply` brings.
pub open spec fn draw_fits(reply: ReplyView, draw: nat) -> bool {
    match reply {
        ReplyView::InStock(candidates) => total_weight(candidates) > 0 ==> draw < total_weight(
            candidates,
        ),
        _ => true,
    }
}

impl Session {
    /// Starts a purchase of one draw from `box_id` by `user_id`, and hands
    /// out its first request.
    pub fn begin(user_id: u128, box_id: u128) -> (started: (Session, Request))
        ensures
            started.0 == (Session { user_id, box_id, phase: Phase::Validate }),
            started.1 == (Request::Funds { user_id, box_id }),
    {
        (Session { user_id, box_id, phase: Phase::Validate }, Request::Funds { user_id, box_id })
    }

    /// Whether the purchase has handed out its result.
    pub fn is_done(&self) -> (done: bool)
        ensures
            done == (self.phase == Phase::Done),
    {
        match self.phase {
            Phase::Done => true,
            _ => false,
        }
    }

    /// Takes the reply to the last request and decides what comes next, by
    /// the rules of [`transition`], with the given draw, order id and time.
    pub fn step_with(&mut self, reply: Reply, draw: u128, order_id: u128, now: i64) -> (action:
        Action)
        ensures
            (*final(self), action) == transition(*old(self), reply@, draw as nat, order_id, now),
    {
        let (next, action) = match (self.phase, reply) {
            (Phase::Validate, Reply::Funds { balance, price }) => {
                if balance == 0 || balance < price {
                    (Phase::Done, Action::Finish(Err(PurchaseError::InsufficientFunds)))
                } else {
                    (
                        Phase::Snapshot { price, retries: 0 },
                        Action::Ask(Request::InStock { box_id: self.box_id }),
                    )
                }
            },
            (Phase::Snapshot { price, retries }, Reply::InStock(candidates)) => {
                match select_with_draw(&candidates, draw) {
                    Some(i) => {
                        let order = Order {
                            id: order_id,
                            user_id: self.user_id,
                            product_id: candidates[i].id,
                            box_id: self.box_id,
                            created_at: now,
                            status: OrderStatus::Pending,
                        };
                        (
                            Phase::Commit { price, retries, order },
                            Action::Ask(Request::Commit { order, price }),
                        )
                    },
                    None => (Phase::Done, Action::Finish(Err(PurchaseError::SelectionError))),
                }
            },
            (Phase::Commit { price, retries, order }, Reply::Committed) => {
                (Phase::Done, Action::Finish(Ok(order)))
            },
            (Phase::Commit { price, retries, order }, Reply::StockExhausted) => {
                if retries < MAX_RETRIES {
                    (
                        Phase::Snapshot { price, retries: retries + 1 },
                        Action::Ask(Request::InStock { box_id: self.box_id }),
                    )
                } else {
                    (Phase::Done, Action::Finish(Err(PurchaseError::SelectionError)))
                }
            },
            (Phase::Commit { price, retries, order }, Reply::InsufficientFunds) => {
                (Phase::Done, Action::Finish(Err(PurchaseError::InsufficientFunds)))
            },
            _ => (Phase::Done, Action::Finish(Err(PurchaseError::InfrastructureError))),
        };
        self.phase = next;
        action
    }

    /// Takes the reply to the last request and decides what comes next, by
    /// the rules of [`transition`]. For a snapshot with weight it draws a
    /// random number below the total weight, so the draw always picks a
    /// candidate; the order gets a fresh random id and the current time.
    pub fn step(&mut self, reply: Reply) -> (action: Action)
        ensures
            exists|draw: nat, order_id: u128, now: i64|
                draw_fits(reply@, draw) && is_random_uuid(order_id) && now >= 0 && (
                *final(self), action) == #[trigger] transition(
                    *old(self),
                    reply@,
                    draw,
                    order_id,
                    now,
                ),
    {
        let draw = match &reply {
            Reply::InStock(candidates) => {
                let total = total_weight_of(candidates);
                if total > 0 {
                    random_below(total)
                } else {
                    0
                }
            },
            _ => 0,
        };
        let order_id = fresh_uuid();
        let now = now_micros();
        let ghost before = *self;
        let action = self.step_with(reply, draw, order_id, now);
        assert((*self, action) == transition(before, reply@, draw as nat, order_id, now));
        action
    }
}

} // verus!
