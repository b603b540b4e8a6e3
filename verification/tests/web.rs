use mystery_box::error::ApiError;
use mystery_box::models::{AddressData, Category};
use mystery_box::web::{
    read_id, AddressDataReq, BoxCreation, BoxData, CategoryData, DeleteListing, IdAndReqId,
    ProductCreation, ProductData, Register, ReqId, ReqIdStr, ReqListing, SignIn,
};

const TEXT: &str = "a1a2a3a4-b1b2-c1c2-d1d2-d3d4d5d6d7d8";
const NUMBER: u128 = 0xa1a2a3a4b1b2c1c2d1d2d3d4d5d6d7d8;
const OTHER_TEXT: &str = "00000000-0000-0000-0000-0000000000ff";

fn is_random_uuid(id: u128) -> bool {
    (id >> 76) & 0xF == 4 && (id >> 62) & 0x3 == 2
}

fn data(title: &str, amount: i32) -> ProductData {
    ProductData {
        title: String::from(title),
        description: String::from("d"),
        level: 2,
        amount,
        image: String::from("i"),
    }
}

#[test]
fn ids_are_read_from_text() {
    assert_eq!(read_id(TEXT), Ok(NUMBER));
    assert_eq!(read_id("A1A2A3A4B1B2C1C2D1D2D3D4D5D6D7D8"), Ok(NUMBER));
    assert_eq!(read_id(OTHER_TEXT), Ok(255));
    assert_eq!(read_id(""), Err(ApiError::InvalidId));
    assert_eq!(read_id("not an id"), Err(ApiError::InvalidId));
    assert_eq!(read_id("a1a2a3a4-b1b2-c1c2-d1d2-d3d4d5d6d7d"), Err(ApiError::InvalidId));
}

#[test]
fn request_ids_are_read_from_text() {
    let req = ReqIdStr { id: String::from(TEXT) };
    assert_eq!(req.req_id(), Ok(ReqId { id: NUMBER }));
    assert_eq!(ReqIdStr { id: String::from("x") }.req_id(), Err(ApiError::InvalidId));

    let both = IdAndReqId { id: String::from(OTHER_TEXT), req_id: req.clone() };
    assert_eq!(both.ids(), Ok((255, ReqId { id: NUMBER })));
    let bad = IdAndReqId { id: String::from("x"), req_id: req.clone() };
    assert_eq!(bad.ids(), Err(ApiError::InvalidId));
    let bad = IdAndReqId { id: String::from(TEXT), req_id: ReqIdStr { id: String::new() } };
    assert_eq!(bad.ids(), Err(ApiError::InvalidId));

    let del = DeleteListing { listing_id: String::from(OTHER_TEXT), req_id: req };
    assert_eq!(del.ids(), Ok((255, ReqId { id: NUMBER })));
    let del = DeleteListing {
        listing_id: String::from("x"),
        req_id: ReqIdStr { id: String::from(TEXT) },
    };
    assert_eq!(del.ids(), Err(ApiError::InvalidId));
}

#[test]
fn address_is_read_with_its_user() {
    let req = AddressDataReq { user_id: String::from(TEXT), address: String::from("street 1") };
    assert_eq!(
        req.address_data(),
        Ok(AddressData { address: String::from("street 1"), user_id: NUMBER })
    );
    let req = AddressDataReq { user_id: String::from("x"), address: String::from("street 1") };
    assert_eq!(req.address_data(), Err(ApiError::InvalidId));
}

#[test]
fn category_is_created_with_fresh_id() {
    let made = CategoryData { name: String::from("toys") }.category_with(5, 6);
    assert_eq!(made, Category { name: String::from("toys"), created_at: 6, id: 5 });
    let first = CategoryData { name: String::from("toys") }.category();
    let second = CategoryData { name: String::from("toys") }.category();
    assert_eq!(first.name, "toys");
    assert!(is_random_uuid(first.id) && is_random_uuid(second.id));
    assert_ne!(first.id, second.id);
    assert!(first.created_at > 1_600_000_000_000_000);
}

#[test]
fn product_is_stocked_in_full() {
    let product = data("car", 5).product_with(1, 2, 3);
    assert_eq!(product.id, 1);
    assert_eq!(product.box_id, 2);
    assert_eq!(product.created_at, 3);
    assert_eq!(product.title, "car");
    assert_eq!(product.description, "d");
    assert_eq!(product.image, "i");
    assert_eq!(product.level, 2);
    assert_eq!((product.amount, product.available, product.ini_amount), (5, 5, 5));
    assert!(!product.status);

    let fresh = data("car", 5).product();
    assert!(is_random_uuid(fresh.id) && is_random_uuid(fresh.box_id));
    assert_ne!(fresh.id, fresh.box_id);
    assert!(fresh.created_at > 0);
    assert_eq!(fresh.title, "car");
    assert_eq!((fresh.amount, fresh.available, fresh.ini_amount), (5, 5, 5));
}

#[test]
fn products_for_a_box_are_read_one_for_one() {
    let creation = ProductCreation {
        req_id: ReqIdStr { id: String::from(TEXT) },
        product_data: vec![data("a", 1), data("b", 2), data("c", 3)],
        box_id: String::from(OTHER_TEXT),
    };
    let (products, req_id, box_id) = creation.parts().unwrap();
    assert_eq!(req_id, ReqId { id: NUMBER });
    assert_eq!(box_id, 255);
    let titles: Vec<&str> = products.iter().map(|p| p.title.as_str()).collect();
    assert_eq!(titles, vec!["a", "b", "c"]);
    let amounts: Vec<i32> = products.iter().map(|p| p.amount).collect();
    assert_eq!(amounts, vec![1, 2, 3]);
    assert!(products.iter().all(|p| is_random_uuid(p.id) && !p.status));

    let bad = ProductCreation { box_id: String::from("x"), ..creation.clone() };
    assert_eq!(bad.parts(), Err(ApiError::InvalidId));
    let bad = ProductCreation { req_id: ReqIdStr { id: String::from("x") }, ..creation };
    assert_eq!(bad.parts(), Err(ApiError::InvalidId));
}

#[test]
fn box_is_read_with_its_products() {
    let creation = BoxCreation {
        req_id: ReqIdStr { id: String::from(TEXT) },
        box_data: BoxData {
            price: 50,
            original_price: 70,
            listing_id: String::from(OTHER_TEXT),
            products: vec![data("a", 1), data("b", 2)],
        },
    };
    let (bx, products, req_id) = creation.parts().unwrap();
    assert_eq!(req_id, ReqId { id: NUMBER });
    assert_eq!(bx.listing_id, 255);
    assert_eq!((bx.price, bx.original_price), (50, 70));
    assert_eq!((bx.total, bx.available_products), (0, 0));
    assert!(bx.products.is_empty());
    assert!(is_random_uuid(bx.id));
    assert!(bx.created_at > 0);
    assert_eq!(products.len(), 2);
    assert_eq!(products[1].title, "b");

    let mut bad = creation.clone();
    bad.box_data.listing_id = String::from("x");
    assert_eq!(bad.parts(), Err(ApiError::InvalidId));
    let mut bad = creation;
    bad.req_id.id = String::from("x");
    assert_eq!(bad.parts(), Err(ApiError::InvalidId));
}

#[test]
fn listing_is_read_without_image_and_boxes() {
    let req = ReqListing {
        req_id: String::from(TEXT),
        image: String::from("ignored"),
        title: String::from("t"),
        tty: String::from("HEX"),
        description: String::from("d"),
        category_id: String::from(OTHER_TEXT),
    };
    assert_eq!(req.req_id(), Ok(ReqId { id: NUMBER }));
    let listing = req.clone().listing().unwrap();
    assert_eq!(listing.category_id, 255);
    assert_eq!(listing.title, "t");
    assert_eq!(listing.tty, "HEX");
    assert_eq!(listing.description, "d");
    assert_eq!(listing.image, "");
    assert!(listing.boxes.is_empty());
    assert_eq!(listing.box_count, 0);
    assert!(is_random_uuid(listing.id));

    let bad = ReqListing { category_id: String::from("x"), ..req.clone() };
    assert_eq!(bad.listing(), Err(ApiError::InvalidId));
    let bad = ReqListing { req_id: String::from("x"), ..req };
    assert_eq!(bad.req_id(), Err(ApiError::InvalidId));
}

fn registration() -> Register {
    Register {
        email: String::from("e@example.com"),
        password: String::from("hunter2"),
        username: String::from("n"),
    }
}

#[test]
fn registration_with_a_given_hash() {
    let user = registration().user_with(Ok(String::from("hash")), 1, 2, 3).unwrap();
    assert_eq!(user.username, "n");
    assert_eq!(user.email, "e@example.com");
    assert_eq!(user.password, "hash");
    assert_eq!((user.id, user.private_key, user.created_at), (1, 2, 3));
    assert_eq!(user.points, 0);
    assert!(!user.is_superuser);
    assert_eq!(user.address, None);
    assert!(user.owned_products.is_empty() && user.orders.is_empty());

    let failed = bcrypt::BcryptError::InvalidCost(String::from("x"));
    assert_eq!(registration().user_with(Err(failed), 1, 2, 3), Err(ApiError::IncorrectPassword));
}

#[test]
fn registered_password_signs_in() {
    let user = registration().user().unwrap();
    assert_ne!(user.password, "hunter2");
    assert!(is_random_uuid(user.id) && is_random_uuid(user.private_key));
    assert_ne!(user.id, user.private_key);
    assert!(user.created_at > 0);
    assert_eq!(user.points, 0);

    let right = SignIn { email: user.email.clone(), password: String::from("hunter2") };
    assert_eq!(right.password_matches(&user.password), Ok(()));
    let wrong = SignIn { email: user.email.clone(), password: String::from("hunter3") };
    assert_eq!(wrong.password_matches(&user.password), Err(ApiError::IncorrectPassword));
    assert_eq!(right.password_matches("no hash"), Err(ApiError::IncorrectPassword));
    assert_eq!(
        right.password_matches("$2b$04$EGdrhbKUv8Oc9vGiXX0HQOxSg445d458Muh7DAHskb6QbtCvdxcie"),
        Err(ApiError::IncorrectPassword)
    );
}
