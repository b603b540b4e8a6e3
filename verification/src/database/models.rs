//! The rows of the store, as the tables hold them.

use crate::models;
use vstd::prelude::*;

verus! {

/// A row of the users table. `points` is the balance that purchases debit.
#[derive(Clone, Debug, PartialEq, Eq)]
pub struct User {
    pub username: String,
    pub email: String,
    pub created_at: i64,
    pub id: u128,
    pub points: i32,
    pub is_superuser: bool,
    pub address: Option<String>,
}

/// A row of the listings table.
#[derive(Clone, Debug, PartialEq, Eq)]
pub struct Listing {
    pub id: u128,
    pub title: String,
    pub created_at: i64,
    pub tty: String,
    pub description: String,
    pub category_id: u128,
}

/// A row of the boxes table. A purchase reads `price` and never changes it.
#[derive(Clone, Copy, Debug, PartialEq, Eq)]
pub struct Box {
    pub id: u128,
    pub price: i32,
    pub listing_id: u128,
    pub created_at: i64,
    pub original_price: i32,
}

/// A row of the products table. `amount` is the remaining stock and
/// `status` says that the product is sold out.
#[derive(Clone, Debug, PartialEq, Eq)]
pub struct Product {
    pub box_id: u128,
    pub title: String,
    pub id: u128,
    pub description: String,
    pub level: i32,
    pub status: bool,
    pub created_at: i64,
    pub amount: i32,
    pub image: String,
    pub ini_amount: i32,
}

impl Product {
    /// A copy of the row.
    pub fn duplicate(&self) -> (copy: Product)
        ensures
            copy == *self,
    {
        Product {
            box_id: self.box_id,
            title: self.title.clone(),
            id: self.id,
            description: self.description.clone(),
            level: self.level,
            status: self.status,
            created_at: self.created_at,
            amount: self.amount,
            image: self.image.clone(),
            ini_amount: self.ini_amount,
        }
    }
}

impl From<Product> for models::Product {
    fn from(value: Product) -> (shown: models::Product) {
        models::Product {
            id: value.id,
            box_id: value.box_id,
            title: value.title,
            description: value.description,
            level: value.level as u32,
            status: value.status,
            created_at: value.created_at,
            amount: value.amount,
            available: value.amount,
            image: value.image,
            ini_amount: value.ini_amount,
        }
    }
}

impl vstd::std_specs::convert::FromSpecImpl<Product> for models::Product {
    open spec fn obeys_from_spec() -> bool {
        true
    }

    /// The row as the service shows it: what is available is what is in
    /// stock.
    open spec fn from_spec(value: Product) -> models::Product {
        models::Product {
            id: value.id,
            box_id: value.box_id,
            title: value.title,
            description: value.description,
            level: value.level as u32,
            status: value.status,
            created_at: value.created_at,
            amount: value.amount,
            available: value.amount,
            image: value.image,
            ini_amount: value.ini_amount,
        }
    }
}

impl models::Box {
    /// The row as the service shows it, before its products are filled in:
    /// it lists none and counts none.
    pub fn from_row(value: Box) -> (shown: models::Box)
        ensures
            shown.id == value.id,
            shown.price == value.price as u32,
            shown.original_price == value.original_price as u32,
            shown.listing_id == value.listing_id,
            shown.created_at == value.created_at,
            shown.products@.len() == 0,
            shown.total == 0,
            shown.available_products == 0,
    {
        models::Box {
            id: value.id,
            price: value.price as u32,
            original_price: value.original_price as u32,
            listing_id: value.listing_id,
            created_at: value.created_at,
            products: Vec::new(),
            total: 0,
            available_products: 0,
        }
    }
}

impl models::Listing {
    /// The row as the service shows it, before its image and its boxes are
    /// filled in: the image is empty, and it lists and counts no box.
    pub fn from_row(value: Listing) -> (shown: models::Listing)
        ensures
            shown.id == value.id,
            shown.title == value.title,
            shown.created_at == value.created_at,
            shown.tty == value.tty,
            shown.description == value.description,
            shown.category_id == value.category_id,
            shown.image@.len() == 0,
            shown.boxes@.len() == 0,
            shown.box_count == 0,
    {
        models::Listing {
            image: String::new(),
            boxes: Vec::new(),
            id: value.id,
            title: value.title,
            created_at: value.created_at,
            box_count: 0,
            tty: value.tty,
            description: value.description,
            category_id: value.category_id,
        }
    }
}

impl models::ResponseUser {
    /// The row as the service shows it, before the products and orders of
    /// the user are filled in: it lists none.
    pub fn from_row(value: User) -> (shown: models::ResponseUser)
        ensures
            shown.is_superuser == value.is_superuser,
            shown.username == value.username,
            shown.email == value.email,
            shown.id == value.id,
            shown.created_at == value.created_at,
            shown.points == value.points as u32,
            shown.address == value.address,
            shown.owned_products@.len() == 0,
            shown.orders@.len() == 0,
    {
        models::ResponseUser {
            is_superuser: value.is_superuser,
            username: value.username,
            email: value.email,
            id: value.id,
            created_at: value.created_at,
            owned_products: Vec::new(),
            orders: Vec::new(),
            points: value.points as u32,
            address: value.address,
        }
    }
}

} // verus!
