//! A verified purchase engine for mystery boxes.
//!
//! A box holds a pool of products with finite stock. A user spends points to
//! draw one product from a box: the draw is weighted by remaining stock, the
//! stock of the drawn product drops by one, the user's balance drops by the
//! price of the box, and an order is recorded. Either all of that happens or
//! none of it.
//!
//! * [`selector`] picks a product from weighted candidates for a given draw.
//! * [`engine`] holds the decisions of one purchase as a state machine that
//!   talks to the stores through requests and replies.
//! * [`database`] is an in-memory store with the atomic operations that the
//!   engine relies on, and the purchase run against it.
//! * [`laws`] states what holds of every purchase.
//! * [`models`], [`web`] and [`error`] hold the data that crosses the
//!   service boundary, and [`text`] splits what arrives as text.
//! * [`outside`] holds the calls into other crates, whose contracts are
//!   believed, not proved.

pub mod database;
pub mod engine;
pub mod error;
pub mod laws;
pub mod models;
pub mod outside;
pub mod selector;
pub mod text;
pub mod web;

use vstd::prelude::*;

verus! {

/// What the service shares between its requests.
#[derive(Clone, Debug)]
pub struct State {
    pub database: database::Database,
}

} // verus!
