//! The data that the service hands out.
//!
//! Identifiers are UUIDs held as 128-bit numbers, times are microseconds
//! since the Unix epoch.

use vstd::prelude::*;
use vstd::string::StringExecFns;

verus! {

/// The rank of a product inside its box: `ALevel` is the top prize.
#[derive(Clone, Copy, Debug, PartialEq, Eq, Structural)]
pub enum Level {
    ALevel,
    BLevel,
    CLevel,
    DLevel,
    ELevel,
    FLevel,
    GLevel,
    HLevel,
    ILevel,
    JLevel,
    KLevel,
    LLevel,
    MLevel,
    NLevel,
    OLevel,
    PLevel,
    QLevel,
    RLevel,
    SLevel,
    TLevel,
    ULevel,
    VLevel,
    WLevel,
    XLevel,
    YLevel,
    ZLevel,
    LastLevel,
}

/// The level with the given number: 0 is `ALevel`, 25 is `ZLevel`, and
/// every number above stands for `LastLevel`.
pub open spec fn level_of(value: u32) -> Level {
    match value {
        0 => Level::ALevel,
        1 => Level::BLevel,
        2 => Level::CLevel,
        3 => Level::DLevel,
        4 => Level::ELevel,
        5 => Level::FLevel,
        6 => Level::GLevel,
        7 => Level::HLevel,
        8 => Level::ILevel,
        9 => Level::JLevel,
        10 => Level::KLevel,
        11 => Level::LLevel,
        12 => Level::MLevel,
        13 => Level::NLevel,
        14 => Level::OLevel,
        15 => Level::PLevel,
        16 => Level::QLevel,
        17 => Level::RLevel,
        18 => Level::SLevel,
        19 => Level::TLevel,
        20 => Level::ULevel,
        21 => Level::VLevel,
        22 => Level::WLevel,
        23 => Level::XLevel,
        24 => Level::YLevel,
        25 => Level::ZLevel,
        _ => Level::LastLevel,
    }
}

impl From<u32> for Level {
    fn from(value: u32) -> (level: Level) {
        match value {
            0 => Level::ALevel,
            1 => Level::BLevel,
            2 => Level::CLevel,
            3 => Level::DLevel,
            4 => Level::ELevel,
            5 => Level::FLevel,
            6 => Level::GLevel,
            7 => Level::HLevel,
            8 => Level::ILevel,
            9 => Level::JLevel,
            10 => Level::KLevel,
            11 => Level::LLevel,
            12 => Level::MLevel,
            13 => Level::NLevel,
            14 => Level::OLevel,
            15 => Level::PLevel,
            16 => Level::QLevel,
            17 => Level::RLevel,
            18 => Level::SLevel,
            19 => Level::TLevel,
            20 => Level::ULevel,
            21 => Level::VLevel,
            22 => Level::WLevel,
            23 => Level::XLevel,
            24 => Level::YLevel,
            25 => Level::ZLevel,
            _ => Level::LastLevel,
        }
    }
}

impl vstd::std_specs::convert::FromSpecImpl<u32> for Level {
    open spec fn obeys_from_spec() -> bool {
        true
    }

    open spec fn from_spec(value: u32) -> Level {
        level_of(value)
    }
}

/// A candidate of a draw: a product and the weight it is drawn with, which
/// is its remaining stock.
#[derive(Clone, Copy, Debug, PartialEq, Eq, Structural)]
pub struct ProductIdent {
    pub id: u128,
    pub level: Level,
    pub total: u32,
}

/// Where an order stands. A purchase records it as `Pending`; what happens
/// to it afterwards is up to fulfilment.
#[derive(Clone, Copy, Debug, PartialEq, Eq, Structural)]
pub enum OrderStatus {
    Pending,
}

/// The record of one completed purchase. Written once, never changed.
#[derive(Clone, Copy, Debug, PartialEq, Eq, Structural)]
pub struct Order {
    pub id: u128,
    pub user_id: u128,
    pub product_id: u128,
    pub box_id: u128,
    pub created_at: i64,
    pub status: OrderStatus,
}

/// A product as the service shows it.
#[derive(Clone, Debug, PartialEq, Eq)]
pub struct Product {
    pub id: u128,
    pub box_id: u128,
    pub title: String,
    pub description: String,
    pub level: u32,
    pub status: bool,
    pub created_at: i64,
    pub amount: i32,
    pub available: i32,
    pub image: String,
    pub ini_amount: i32,
}

/// A box as the service shows it, with the products that can still be drawn.
#[derive(Clone, Debug, PartialEq, Eq)]
pub struct Box {
    pub id: u128,
    pub price: u32,
    pub original_price: u32,
    pub listing_id: u128,
    pub created_at: i64,
    pub products: Vec<Product>,
    pub total: u32,
    pub available_products: u32,
}

/// A listing as the service shows it, with its boxes.
#[derive(Clone, Debug, PartialEq, Eq)]
pub struct Listing {
    pub image: String,
    pub boxes: Vec<Box>,
    pub id: u128,
    pub title: String,
    pub created_at: i64,
    pub box_count: u32,
    pub tty: String,
    pub description: String,
    pub category_id: u128,
}

/// A user with everything the service keeps of them.
#[derive(Clone, Debug, PartialEq, Eq)]
pub struct User {
    pub username: String,
    pub email: String,
    pub id: u128,
    pub password: String,
    pub private_key: u128,
    pub created_at: i64,
    pub owned_products: Vec<u128>,
    pub orders: Vec<Order>,
    pub points: u32,
    pub is_superuser: bool,
    pub address: Option<String>,
}

/// A user as the service shows them: no password, no session key.
#[derive(Clone, Debug, PartialEq, Eq)]
pub struct ResponseUser {
    pub is_superuser: bool,
    pub username: String,
    pub email: String,
    pub id: u128,
    pub created_at: i64,
    pub owned_products: Vec<u128>,
    pub orders: Vec<Order>,
    pub points: u32,
    pub address: Option<String>,
}

/// Points for a user.
#[derive(Clone, Copy, Debug, PartialEq, Eq, Structural)]
pub struct Amount {
    pub user_id: u128,
    pub points: u32,
}

/// A category of listings.
#[derive(Clone, Debug, PartialEq, Eq)]
pub struct Category {
    pub name: String,
    pub created_at: i64,
    pub id: u128,
}

/// A new address for a user.
#[derive(Clone, Debug, PartialEq, Eq)]
pub struct AddressData {
    pub address: String,
    pub user_id: u128,
}

/// The two kinds of listing.
#[derive(Clone, Copy, Debug, PartialEq, Eq, Structural)]
pub enum ListingKind {
    Ich,
    Hex,
}

impl ListingKind {
    /// The kind that the tag of a listing names: `ICH` or `HEX`.
    pub open spec fn spec_of_tag(tty: Seq<char>) -> Option<ListingKind> {
        if tty == "ICH"@ {
            Some(ListingKind::Ich)
        } else if tty == "HEX"@ {
            Some(ListingKind::Hex)
        } else {
            None
        }
    }

    pub fn of_tag(tty: &str) -> (kind: Option<ListingKind>)
        ensures
            kind == Self::spec_of_tag(tty@),
    {
        let given = String::from_str(tty);
        if given == String::from_str("ICH") {
            Some(ListingKind::Ich)
        } else if given == String::from_str("HEX") {
            Some(ListingKind::Hex)
        } else {
            None
        }
    }
}

/// The products among `products` that are not sold out, in order.
pub open spec fn not_sold_out(products: Seq<Product>) -> Seq<Product> {
    products.filter(|p: Product| !p.status)
}

impl Product {
    /// A copy of the product.
    pub fn duplicate(&self) -> (copy: Product)
        ensures
            copy == *self,
    {
        Product {
            id: self.id,
            box_id: self.box_id,
            title: self.title.clone(),
            description: self.description.clone(),
            level: self.level,
            status: self.status,
            created_at: self.created_at,
            amount: self.amount,
            available: self.available,
            image: self.image.clone(),
            ini_amount: self.ini_amount,
        }
    }
}

impl Box {
    /// Fills in the products of the box: the box counts all of them, and
    /// lists and counts those that are not sold out.
    pub fn fill(&mut self, products: &Vec<Product>)
        ensures
            final(self).products@ == not_sold_out(products@),
            final(self).total == products@.len() as u32,
            final(self).available_products == not_sold_out(products@).len() as u32,
            final(self).id == old(self).id,
            final(self).price == old(self).price,
            final(self).original_price == old(self).original_price,
            final(self).listing_id == old(self).listing_id,
            final(self).created_at == old(self).created_at,
    {
        let ghost in_stock = |p: Product| !p.status;
        let mut listed: Vec<Product> = Vec::new();
        let mut k: usize = 0;
        while k < products.len()
            invariant
                k <= products.len(),
                in_stock == |p: Product| !p.status,
                listed@ == products@.take(k as int).filter(in_stock),
            decreases products.len() - k,
        {
            proof {
                assert(products@.take(k + 1).drop_last() =~= products@.take(k as int));
                reveal(Seq::filter);
            }
            if !products[k].status {
                listed.push(products[k].duplicate());
            }
            k = k + 1;
        }
        proof {
            assert(products@.take(k as int) =~= products@);
        }
        self.total = products.len() as u32;
        self.available_products = listed.len() as u32;
        self.products = listed;
    }
}

impl From<Product> for ProductIdent {
    fn from(value: Product) -> (ident: ProductIdent) {
        ProductIdent { id: value.id, level: Level::from(value.level), total: value.amount as u32 }
    }
}

impl vstd::std_specs::convert::FromSpecImpl<Product> for ProductIdent {
    open spec fn obeys_from_spec() -> bool {
        true
    }

    /// The candidate that the product makes in a draw: its weight is its
    /// stock.
    open spec fn from_spec(value: Product) -> ProductIdent {
        ProductIdent { id: value.id, level: level_of(value.level), total: value.amount as u32 }
    }
}

impl From<User> for ResponseUser {
    fn from(value: User) -> (shown: ResponseUser) {
        ResponseUser {
            is_superuser: value.is_superuser,
            username: value.username,
            email: value.email,
            id: value.id,
            created_at: value.created_at,
            owned_products: value.owned_products,
            orders: value.orders,
            points: value.points,
            address: value.address,
        }
    }
}

impl vstd::std_specs::convert::FromSpecImpl<User> for ResponseUser {
    open spec fn obeys_from_spec() -> bool {
        true
    }

    /// The user without the password and the session key.
    open spec fn from_spec(value: User) -> ResponseUser {
        ResponseUser {
            is_superuser: value.is_superuser,
            username: value.username,
            email: value.email,
            id: value.id,
            created_at: value.created_at,
            owned_products: value.owned_products,
            orders: value.orders,
            points: value.points,
            address: value.address,
        }
    }
}

} // verus!
