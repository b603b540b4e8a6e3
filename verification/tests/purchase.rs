use mystery_box::database::actions::DatabaseHand;
use mystery_box::database::models::{Box, Product, User};
use mystery_box::database::Database;
use mystery_box::error::PurchaseError;
use mystery_box::models::{Order, OrderStatus};
use mystery_box::web::ReqId;

const BUYER: u128 = 11;
const OTHER: u128 = 12;
const BOX: u128 = 21;
const A: u128 = 31;
const B: u128 = 32;

fn user(id: u128, points: i32) -> User {
    User {
        username: format!("user{}", id),
        email: format!("user{}@example.com", id),
        created_at: 0,
        id,
        points,
        is_superuser: false,
        address: None,
    }
}

fn product(id: u128, box_id: u128, amount: i32) -> Product {
    Product {
        box_id,
        title: format!("product{}", id),
        id,
        description: String::new(),
        level: 0,
        status: amount == 0,
        created_at: 0,
        amount,
        image: String::new(),
        ini_amount: amount,
    }
}

fn store(points: i32, price: i32, a: i32, b: i32) -> Database {
    Database {
        users: vec![user(BUYER, points), user(OTHER, 1000)],
        boxes: vec![Box { id: BOX, price, listing_id: 1, created_at: 0, original_price: price }],
        products: vec![product(A, BOX, a), product(B, BOX, b), product(99, 77, 5)],
        orders: vec![],
    }
}

#[test]
fn balance_below_price_is_insufficient_funds() {
    let mut db = store(30, 50, 1, 9);
    assert!(db.is_wf());
    let before = db.clone();
    let res = DatabaseHand::buy_box_with(&mut db, (BOX, ReqId { id: BUYER }), 0, 1, 1);
    assert_eq!(res, Err(PurchaseError::InsufficientFunds));
    assert_eq!(db, before);
    assert_eq!(DatabaseHand::get_user_points(&db, BUYER), Ok(30));
    let res = DatabaseHand::buy_box(&mut db, (BOX, ReqId { id: BUYER }));
    assert_eq!(res, Err(PurchaseError::InsufficientFunds));
    assert_eq!(db, before);
}

#[test]
fn empty_balance_is_insufficient_funds_even_for_a_free_box() {
    let mut db = store(0, 0, 1, 9);
    let before = db.clone();
    let res = DatabaseHand::buy_box_with(&mut db, (BOX, ReqId { id: BUYER }), 0, 1, 1);
    assert_eq!(res, Err(PurchaseError::InsufficientFunds));
    assert_eq!(db, before);
}

#[test]
fn sold_out_box_is_selection_error() {
    let mut db = store(100, 50, 0, 0);
    assert!(db.is_wf());
    let before = db.clone();
    let res = DatabaseHand::buy_box_with(&mut db, (BOX, ReqId { id: BUYER }), 0, 1, 1);
    assert_eq!(res, Err(PurchaseError::SelectionError));
    assert_eq!(db, before);
    let res = DatabaseHand::buy_box(&mut db, (BOX, ReqId { id: BUYER }));
    assert_eq!(res, Err(PurchaseError::SelectionError));
    assert_eq!(db, before);
}

#[test]
fn draw_beyond_the_stock_is_selection_error() {
    let mut db = store(100, 50, 1, 9);
    let before = db.clone();
    let res = DatabaseHand::buy_box_with(&mut db, (BOX, ReqId { id: BUYER }), 10, 1, 1);
    assert_eq!(res, Err(PurchaseError::SelectionError));
    assert_eq!(db, before);
}

#[test]
fn unknown_user_or_box_is_infrastructure_error() {
    let mut db = store(100, 50, 1, 9);
    let before = db.clone();
    let res = DatabaseHand::buy_box_with(&mut db, (BOX, ReqId { id: 404 }), 0, 1, 1);
    assert_eq!(res, Err(PurchaseError::InfrastructureError));
    let res = DatabaseHand::buy_box_with(&mut db, (404, ReqId { id: BUYER }), 0, 1, 1);
    assert_eq!(res, Err(PurchaseError::InfrastructureError));
    assert_eq!(db, before);
}

#[test]
fn purchase_debits_decrements_and_records() {
    let mut db = store(120, 50, 1, 9);
    let res = DatabaseHand::buy_box_with(&mut db, (BOX, ReqId { id: BUYER }), 4, 7777, 123456);
    let order = Order {
        id: 7777,
        user_id: BUYER,
        product_id: B,
        box_id: BOX,
        created_at: 123456,
        status: OrderStatus::Pending,
    };
    assert_eq!(res, Ok(order));
    let mut expected = store(120, 50, 1, 9);
    expected.users[0].points = 70;
    expected.products[1].amount = 8;
    expected.orders.push(order);
    assert_eq!(db, expected);
    assert!(db.is_wf());
}

#[test]
fn last_unit_flags_the_product_as_sold_out() {
    let mut db = store(120, 50, 1, 9);
    let res = DatabaseHand::buy_box_with(&mut db, (BOX, ReqId { id: BUYER }), 0, 5, 6);
    assert_eq!(res.unwrap().product_id, A);
    assert_eq!(DatabaseHand::get_product_amount(&db, A), Ok(0));
    assert!(db.products[0].status);
    assert!(!db.products[1].status);
    assert_eq!(DatabaseHand::get_user_points(&db, BUYER), Ok(70));
    assert!(db.is_wf());
    let snapshot = DatabaseHand::snapshot_in_stock(&db, BOX);
    assert_eq!(snapshot.len(), 1);
    assert_eq!(snapshot[0].id, B);
    assert_eq!(snapshot[0].total, 9);
}

#[test]
fn price_equal_to_balance_empties_the_balance() {
    let mut db = store(50, 50, 1, 0);
    let res = DatabaseHand::buy_box_with(&mut db, (BOX, ReqId { id: BUYER }), 0, 5, 6);
    assert!(res.is_ok());
    assert_eq!(DatabaseHand::get_user_points(&db, BUYER), Ok(0));
    assert_eq!(DatabaseHand::get_user_points(&db, OTHER), Ok(1000));
}

#[test]
fn random_purchase_sells_a_product_in_stock() {
    let mut db = store(1000, 50, 1, 9);
    let order = DatabaseHand::buy_box(&mut db, (BOX, ReqId { id: BUYER })).unwrap();
    assert!(order.product_id == A || order.product_id == B);
    assert_eq!(order.user_id, BUYER);
    assert_eq!(order.box_id, BOX);
    assert_eq!(order.status, OrderStatus::Pending);
    assert_eq!((order.id >> 76) & 0xF, 4);
    assert_eq!((order.id >> 62) & 0x3, 2);
    assert!(order.created_at > 1_600_000_000_000_000);
    assert_eq!(DatabaseHand::get_user_points(&db, BUYER), Ok(950));
    assert_eq!(DatabaseHand::get_all_orders(&db), vec![order]);
    let left = DatabaseHand::get_product_amount(&db, A).unwrap()
        + DatabaseHand::get_product_amount(&db, B).unwrap();
    assert_eq!(left, 9);
    assert!(db.is_wf());
}

#[test]
fn random_purchases_sell_the_whole_box_and_no_more() {
    let mut db = store(1000, 10, 3, 4);
    let mut sold = 0;
    let mut refused = 0;
    for _ in 0..12 {
        match DatabaseHand::buy_box(&mut db, (BOX, ReqId { id: BUYER })) {
            Ok(_) => sold += 1,
            Err(e) => {
                assert_eq!(e, PurchaseError::SelectionError);
                refused += 1;
            }
        }
        assert!(db.is_wf());
    }
    assert_eq!(sold, 7);
    assert_eq!(refused, 5);
    assert_eq!(DatabaseHand::get_product_amount(&db, A), Ok(0));
    assert_eq!(DatabaseHand::get_product_amount(&db, B), Ok(0));
    assert_eq!(DatabaseHand::get_user_points(&db, BUYER), Ok(930));
    assert_eq!(DatabaseHand::get_all_orders(&db).len(), 7);
    assert_eq!(DatabaseHand::get_product_amount(&db, 99), Ok(5));
}

#[test]
fn single_unit_is_sold_to_the_first_of_many() {
    let mut db = store(1000, 10, 1, 0);
    let mut results = Vec::new();
    for k in 0..8u128 {
        let buyer = if k % 2 == 0 { BUYER } else { OTHER };
        results.push(DatabaseHand::buy_box(&mut db, (BOX, ReqId { id: buyer })));
    }
    assert!(results[0].is_ok());
    for r in &results[1..] {
        assert_eq!(*r, Err(PurchaseError::SelectionError));
    }
    assert_eq!(DatabaseHand::get_all_orders(&db).len(), 1);
    assert_eq!(DatabaseHand::get_user_points(&db, BUYER), Ok(990));
    assert_eq!(DatabaseHand::get_user_points(&db, OTHER), Ok(1000));
}
