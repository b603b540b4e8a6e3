//! What requests carry, and how it is read into the models.
//!
//! Ids arrive as text. Reading one fails with `InvalidId` where the text is
//! no UUID.

pub mod media;

use crate::error::ApiError;
use crate::models::{AddressData, Box, Category, Listing, Product, User};
use crate::outside::{
    bcrypt_verdict, fresh_uuid, hash_password, is_random_uuid, now_micros, parse_uuid,
    uuid_of_text, verify_password,
};
use vstd::prelude::*;

verus! {

#[derive(Clone, Debug, PartialEq, Eq)]
pub struct Id {
    pub id: String,
}

#[derive(Clone, Debug, PartialEq, Eq)]
pub struct IdAndReqId {
    pub id: String,
    pub req_id: ReqIdStr,
}

#[derive(Clone, Debug, PartialEq, Eq)]
pub struct Register {
    pub email: String,
    pub password: String,
    pub username: String,
}

#[derive(Clone, Debug, PartialEq, Eq)]
pub struct SignIn {
    pub email: String,
    pub password: String,
}

/// The id of the user that a request is made for.
#[derive(Clone, Copy, Debug, PartialEq, Eq, Structural)]
pub struct ReqId {
    pub id: u128,
}

/// The id of the user that a request is made for, as text.
#[derive(Clone, Debug, PartialEq, Eq)]
pub struct ReqIdStr {
    pub id: String,
}

#[derive(Clone, Debug, PartialEq, Eq)]
pub struct DeleteListing {
    pub listing_id: String,
    pub req_id: ReqIdStr,
}

#[derive(Clone, Debug, PartialEq, Eq)]
pub struct ReqListing {
    pub req_id: String,
    pub image: String,
    pub title: String,
    pub tty: String,
    pub description: String,
    pub category_id: String,
}

#[derive(Clone, Debug, PartialEq, Eq)]
pub struct CategoryData {
    pub name: String,
}

#[derive(Clone, Debug, PartialEq, Eq)]
pub struct ProductData {
    pub title: String,
    pub description: String,
    pub level: u32,
    pub amount: i32,
    pub image: String,
}

#[derive(Clone, Debug, PartialEq, Eq)]
pub struct ProductCreation {
    pub req_id: ReqIdStr,
    pub product_data: Vec<ProductData>,
    pub box_id: String,
}

#[derive(Clone, Debug, PartialEq, Eq)]
pub struct BoxData {
    pub price: u32,
    pub original_price: u32,
    pub listing_id: String,
    pub products: Vec<ProductData>,
}

#[derive(Clone, Debug, PartialEq, Eq)]
pub struct BoxCreation {
    pub req_id: ReqIdStr,
    pub box_data: BoxData,
}

#[derive(Clone, Debug, PartialEq, Eq)]
pub struct ImageData {
    pub path: String,
    pub id: u128,
    pub ext: String,
}

#[derive(Clone, Debug, PartialEq, Eq)]
pub struct IdReq {
    pub id: String,
}

#[derive(Clone, Debug, PartialEq, Eq)]
pub struct AddressDataReq {
    pub user_id: String,
    pub address: String,
}

/// What reading `text` as an id gives: the UUID it spells, or `InvalidId`.
pub open spec fn id_of_text(text: Seq<char>) -> Result<u128, ApiError> {
    match uuid_of_text(text) {
        Some(id) => Ok(id),
        None => Err(ApiError::InvalidId),
    }
}

/// What reading two ids gives: both, or `InvalidId` where either is no
/// UUID.
pub open spec fn ids_of_texts(id: Seq<char>, req_id: Seq<char>) -> Result<
    (u128, ReqId),
    ApiError,
> {
    match (uuid_of_text(id), uuid_of_text(req_id)) {
        (Some(id), Some(req_id)) => Ok((id, ReqId { id: req_id })),
        _ => Err(ApiError::InvalidId),
    }
}

/// Reads an id from text.
pub fn read_id(text: &str) -> (res: Result<u128, ApiError>)
    ensures
        res == id_of_text(text@),
{
    match parse_uuid(text) {
        Some(id) => Ok(id),
        None => Err(ApiError::InvalidId),
    }
}

fn read_ids(id: &str, req_id: &str) -> (res: Result<(u128, ReqId), ApiError>)
    ensures
        res == ids_of_texts(id@, req_id@),
{
    match (parse_uuid(id), parse_uuid(req_id)) {
        (Some(id), Some(req_id)) => Ok((id, ReqId { id: req_id })),
        _ => Err(ApiError::InvalidId),
    }
}

impl ReqIdStr {
    /// The id of the requesting user.
    pub fn req_id(&self) -> (res: Result<ReqId, ApiError>)
        ensures
            res matches Ok(req) ==> uuid_of_text(self.id@) == Some(req.id),
            res matches Err(e) ==> uuid_of_text(self.id@) is None && e == ApiError::InvalidId,
    {
        match parse_uuid(self.id.as_str()) {
            Some(id) => Ok(ReqId { id }),
            None => Err(ApiError::InvalidId),
        }
    }
}

impl IdAndReqId {
    /// The id that the request is about, and the id of the requesting user.
    pub fn ids(&self) -> (res: Result<(u128, ReqId), ApiError>)
        ensures
            res == ids_of_texts(self.id@, self.req_id.id@),
    {
        read_ids(self.id.as_str(), self.req_id.id.as_str())
    }
}

impl DeleteListing {
    /// The id of the listing to delete, and the id of the requesting user.
    pub fn ids(&self) -> (res: Result<(u128, ReqId), ApiError>)
        ensures
            res == ids_of_texts(self.listing_id@, self.req_id.id@),
    {
        read_ids(self.listing_id.as_str(), self.req_id.id.as_str())
    }
}

impl AddressDataReq {
    /// The new address with the id of its user.
    pub fn address_data(self) -> (res: Result<AddressData, ApiError>)
        ensures
            res matches Ok(data) ==> uuid_of_text(self.user_id@) == Some(data.user_id)
                && data.address == self.address,
            res matches Err(e) ==> uuid_of_text(self.user_id@) is None && e
                == ApiError::InvalidId,
    {
        match parse_uuid(self.user_id.as_str()) {
            Some(user_id) => Ok(AddressData { address: self.address, user_id }),
            None => Err(ApiError::InvalidId),
        }
    }
}

impl CategoryData {
    /// The category with the given id and time of creation.
    pub fn category_with(self, id: u128, now: i64) -> (category: Category)
        ensures
            category == (Category { name: self.name, created_at: now, id }),
    {
        Category { name: self.name, created_at: now, id }
    }

    /// A new category of that name, with a fresh random id, created now.
    pub fn category(self) -> (category: Category)
        ensures
            category.name == self.name,
            category.created_at >= 0,
            is_random_uuid(category.id),
    {
        let id = fresh_uuid();
        let now = now_micros();
        self.category_with(id, now)
    }
}

/// The product that is stocked from `data`: all of its amount is available,
/// and it is not sold out.
pub open spec fn product_of(data: ProductData, id: u128, box_id: u128, now: i64) -> Product {
    Product {
        id,
        box_id,
        title: data.title,
        description: data.description,
        level: data.level,
        status: false,
        created_at: now,
        amount: data.amount,
        available: data.amount,
        image: data.image,
        ini_amount: data.amount,
    }
}

impl ProductData {
    /// The product that is stocked from this data, with the given ids and
    /// time of creation.
    pub fn product_with(self, id: u128, box_id: u128, now: i64) -> (product: Product)
        ensures
            product == product_of(self, id, box_id, now),
    {
        Product {
            id,
            box_id,
            title: self.title,
            description: self.description,
            level: self.level,
            status: false,
            created_at: now,
            amount: self.amount,
            available: self.amount,
            image: self.image,
            ini_amount: self.amount,
        }
    }

    /// A new product from this data, created now, with a fresh random id.
    /// Its box id is a fresh random id too, a stand-in until the product is
    /// put into its box.
    pub fn product(self) -> (product: Product)
        ensures
            is_new_product(product, self),
    {
        let id = fresh_uuid();
        let box_id = fresh_uuid();
        let now = now_micros();
        let product = self.product_with(id, box_id, now);
        assert(product == product_of(self, id, box_id, now));
        product
    }

    fn duplicate(&self) -> (copy: ProductData)
        ensures
            copy == *self,
    {
        ProductData {
            title: self.title.clone(),
            description: self.description.clone(),
            level: self.level,
            amount: self.amount,
            image: self.image.clone(),
        }
    }
}

/// Whether `product` is a new product from `data`: created at some time,
/// with some random id and some random stand-in for the id of its box.
pub open spec fn is_new_product(product: Product, data: ProductData) -> bool {
    exists|id: u128, box_id: u128, now: i64|
        is_random_uuid(id) && is_random_uuid(box_id) && now >= 0 && product
            == #[trigger] product_of(data, id, box_id, now)
}

/// Whether `products` are new products from `data`, one for one and in the
/// same order.
pub open spec fn stocked_from(products: Seq<Product>, data: Seq<ProductData>) -> bool {
    &&& products.len() == data.len()
    &&& forall|k: int| 0 <= k < data.len() ==> #[trigger] is_new_product(products[k], data[k])
}

fn new_products(data: &Vec<ProductData>) -> (products: Vec<Product>)
    ensures
        stocked_from(products@, data@),
{
    let mut products: Vec<Product> = Vec::new();
    let mut k: usize = 0;
    while k < data.len()
        invariant
            k <= data.len(),
            stocked_from(products@, data@.take(k as int)),
        decreases data.len() - k,
    {
        let product = data[k].duplicate().product();
        products.push(product);
        k = k + 1;
    }
    proof {
        assert(data@.take(k as int) =~= data@);
    }
    products
}

impl ProductCreation {
    /// The new products, the id of the requesting user and the id of the
    /// box that the products go into.
    pub fn parts(&self) -> (res: Result<(Vec<Product>, ReqId, u128), ApiError>)
        ensures
            res matches Ok(parts) ==> {
                &&& stocked_from(parts.0@, self.product_data@)
                &&& ids_of_texts(self.box_id@, self.req_id.id@) == Ok::<(u128, ReqId), ApiError>(
                    (parts.2, parts.1),
                )
            },
            res matches Err(e) ==> ids_of_texts(self.box_id@, self.req_id.id@) is Err && e
                == ApiError::InvalidId,
    {
        match read_ids(self.box_id.as_str(), self.req_id.id.as_str()) {
            Ok((box_id, req_id)) => Ok((new_products(&self.product_data), req_id, box_id)),
            Err(e) => Err(e),
        }
    }
}

impl BoxCreation {
    /// The new box, created now with a fresh random id and no products
    /// listed yet, the new products for it, and the id of the requesting
    /// user.
    pub fn parts(&self) -> (res: Result<(Box, Vec<Product>, ReqId), ApiError>)
        ensures
            res matches Ok(parts) ==> {
                &&& ids_of_texts(self.box_data.listing_id@, self.req_id.id@) == Ok::<
                    (u128, ReqId),
                    ApiError,
                >((parts.0.listing_id, parts.2))
                &&& is_random_uuid(parts.0.id)
                &&& parts.0.created_at >= 0
                &&& parts.0.price == self.box_data.price
                &&& parts.0.original_price == self.box_data.original_price
                &&& parts.0.products@.len() == 0
                &&& parts.0.total == 0
                &&& parts.0.available_products == 0
                &&& stocked_from(parts.1@, self.box_data.products@)
            },
            res matches Err(e) ==> ids_of_texts(self.box_data.listing_id@, self.req_id.id@)
                is Err && e == ApiError::InvalidId,
    {
        match read_ids(self.box_data.listing_id.as_str(), self.req_id.id.as_str()) {
            Ok((listing_id, req_id)) => {
                let bx = Box {
                    id: fresh_uuid(),
                    price: self.box_data.price,
                    original_price: self.box_data.original_price,
                    listing_id,
                    created_at: now_micros(),
                    products: Vec::new(),
                    total: 0,
                    available_products: 0,
                };
                Ok((bx, new_products(&self.box_data.products), req_id))
            },
            Err(e) => Err(e),
        }
    }
}

impl ReqListing {
    /// The id of the requesting user.
    pub fn req_id(&self) -> (res: Result<ReqId, ApiError>)
        ensures
            res matches Ok(req) ==> uuid_of_text(self.req_id@) == Some(req.id),
            res matches Err(e) ==> uuid_of_text(self.req_id@) is None && e == ApiError::InvalidId,
    {
        match parse_uuid(self.req_id.as_str()) {
            Some(id) => Ok(ReqId { id }),
            None => Err(ApiError::InvalidId),
        }
    }

    /// The new listing, created now with a fresh random id, with no image
    /// and no boxes yet.
    pub fn listing(self) -> (res: Result<Listing, ApiError>)
        ensures
            res matches Ok(listing) ==> {
                &&& uuid_of_text(self.category_id@) == Some(listing.category_id)
                &&& is_random_uuid(listing.id)
                &&& listing.created_at >= 0
                &&& listing.title == self.title
                &&& listing.tty == self.tty
                &&& listing.description == self.description
                &&& listing.image@.len() == 0
                &&& listing.boxes@.len() == 0
                &&& listing.box_count == 0
            },
            res matches Err(e) ==> uuid_of_text(self.category_id@) is None && e
                == ApiError::InvalidId,
    {
        match parse_uuid(self.category_id.as_str()) {
            Some(category_id) => Ok(
                Listing {
                    image: String::new(),
                    boxes: Vec::new(),
                    id: fresh_uuid(),
                    title: self.title,
                    created_at: now_micros(),
                    box_count: 0,
                    tty: self.tty,
                    description: self.description,
                    category_id,
                },
            ),
            None => Err(ApiError::InvalidId),
        }
    }
}

impl Register {
    /// The new user for a registration whose password was hashed to
    /// `hashed`: a user without points, products, orders, address or
    /// privileges. A password that could not be hashed is answered with
    /// `IncorrectPassword`.
    pub fn user_with(
        self,
        hashed: Result<String, bcrypt::BcryptError>,
        id: u128,
        private_key: u128,
        now: i64,
    ) -> (res: Result<User, ApiError>)
        ensures
            hashed is Ok <==> res is Ok,
            res matches Err(e) ==> e == ApiError::IncorrectPassword,
            res matches Ok(user) ==> {
                &&& user.username == self.username
                &&& user.email == self.email
                &&& user.password == hashed->Ok_0
                &&& user.id == id
                &&& user.private_key == private_key
                &&& user.created_at == now
                &&& user.points == 0
                &&& !user.is_superuser
                &&& user.address is None
                &&& user.owned_products@.len() == 0
                &&& user.orders@.len() == 0
            },
    {
        match hashed {
            Ok(password) => Ok(
                User {
                    private_key,
                    username: self.username,
                    email: self.email,
                    id,
                    password,
                    created_at: now,
                    owned_products: Vec::new(),
                    points: 0,
                    is_superuser: false,
                    orders: Vec::new(),
                    address: None,
                },
            ),
            Err(_) => Err(ApiError::IncorrectPassword),
        }
    }

    /// The new user for this registration, created now, with fresh random
    /// ids and the password hashed: a user without points, products, orders,
    /// address or privileges. Where the password cannot be hashed the answer
    /// is `IncorrectPassword`.
    pub fn user(self) -> (res: Result<User, ApiError>)
        ensures
            res matches Err(e) ==> e == ApiError::IncorrectPassword,
            res matches Ok(user) ==> {
                &&& user.username == self.username
                &&& user.email == self.email
                &&& is_random_uuid(user.id)
                &&& is_random_uuid(user.private_key)
                &&& user.created_at >= 0
                &&& user.points == 0
                &&& !user.is_superuser
                &&& user.address is None
                &&& user.owned_products@.len() == 0
                &&& user.orders@.len() == 0
            },
    {
        let hashed = hash_password(self.password.as_str());
        let now = now_micros();
        let private_key = fresh_uuid();
        let id = fresh_uuid();
        self.user_with(hashed, id, private_key, now)
    }
}

impl SignIn {
    /// Whether the password of this sign-in is the one that `stored_hash`
    /// was made from. A hash that cannot be read matches nothing.
    pub fn password_matches(&self, stored_hash: &str) -> (res: Result<(), ApiError>)
        ensures
            res is Ok <==> bcrypt_verdict(self.password@, stored_hash@) == Some(true),
            res matches Err(e) ==> e == ApiError::IncorrectPassword,
    {
        match verify_password(self.password.as_str(), stored_hash) {
            Ok(true) => Ok(()),
            _ => Err(ApiError::IncorrectPassword),
        }
    }
}

} // verus!
