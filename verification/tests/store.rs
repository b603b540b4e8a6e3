use mystery_box::database::actions::DatabaseHand;
use mystery_box::database::models::{Box, Product, User};
use mystery_box::database::Database;
use mystery_box::error::{ApiError, StoreError};
use mystery_box::models::{Amount, Level, Order, OrderStatus, ProductIdent};
use mystery_box::web::ReqId;

fn user(id: u128, points: i32, is_superuser: bool) -> User {
    User {
        username: String::from("name"),
        email: String::from("mail"),
        created_at: 5,
        id,
        points,
        is_superuser,
        address: Some(String::from("street")),
    }
}

fn product(id: u128, box_id: u128, level: i32, amount: i32) -> Product {
    Product {
        box_id,
        title: format!("title{}", id),
        id,
        description: String::from("text"),
        level,
        status: amount == 0,
        created_at: 6,
        amount,
        image: String::from("img"),
        ini_amount: 10,
    }
}

fn store() -> Database {
    Database {
        users: vec![user(1, 40, false), user(2, 0, true)],
        boxes: vec![
            Box { id: 10, price: 25, listing_id: 3, created_at: 0, original_price: 30 },
            Box { id: 11, price: 0, listing_id: 3, created_at: 0, original_price: 0 },
        ],
        products: vec![
            product(20, 10, 0, 2),
            product(21, 11, 1, 4),
            product(22, 10, 30, 0),
            product(23, 10, -1, 1),
        ],
        orders: vec![],
    }
}

fn order(id: u128, user_id: u128) -> Order {
    Order { id, user_id, product_id: 20, box_id: 10, created_at: 1, status: OrderStatus::Pending }
}

#[test]
fn new_store_is_empty_and_well_formed() {
    let db = Database::new();
    assert!(db.is_wf());
    assert!(db.users.is_empty() && db.boxes.is_empty());
    assert!(db.products.is_empty() && db.orders.is_empty());
}

#[test]
fn well_formedness_is_checked() {
    assert!(store().is_wf());
    let mut db = store();
    db.users.push(user(1, 5, false));
    assert!(!db.is_wf());
    let mut db = store();
    db.boxes.push(Box { id: 10, price: 1, listing_id: 0, created_at: 0, original_price: 0 });
    assert!(!db.is_wf());
    let mut db = store();
    db.products.push(product(20, 11, 0, 1));
    assert!(!db.is_wf());
    let mut db = store();
    db.users[0].points = -1;
    assert!(!db.is_wf());
    let mut db = store();
    db.boxes[0].price = -1;
    assert!(!db.is_wf());
    let mut db = store();
    db.products[0].amount = -1;
    assert!(!db.is_wf());
    let mut db = store();
    db.products[0].status = true;
    assert!(!db.is_wf());
    let mut db = store();
    db.products[2].status = false;
    assert!(!db.is_wf());
}

#[test]
fn reads_find_rows_by_id() {
    let db = store();
    assert_eq!(DatabaseHand::get_user_points(&db, 1), Ok(40));
    assert_eq!(DatabaseHand::get_user_points(&db, 2), Ok(0));
    assert_eq!(DatabaseHand::get_user_points(&db, 3), Err(StoreError::NotFound));
    assert_eq!(DatabaseHand::get_box_cost(&db, 10), Ok(25));
    assert_eq!(DatabaseHand::get_box_cost(&db, 12), Err(StoreError::NotFound));
    assert_eq!(DatabaseHand::get_product_amount(&db, 21), Ok(4));
    assert_eq!(DatabaseHand::get_product_amount(&db, 22), Ok(0));
    assert_eq!(DatabaseHand::get_product_amount(&db, 9), Err(StoreError::NotFound));
}

#[test]
fn snapshot_lists_products_in_stock_in_table_order() {
    let db = store();
    assert_eq!(
        DatabaseHand::snapshot_in_stock(&db, 10),
        vec![
            ProductIdent { id: 20, level: Level::ALevel, total: 2 },
            ProductIdent { id: 23, level: Level::LastLevel, total: 1 },
        ]
    );
    assert_eq!(
        DatabaseHand::snapshot_in_stock(&db, 11),
        vec![ProductIdent { id: 21, level: Level::BLevel, total: 4 }]
    );
    assert_eq!(DatabaseHand::snapshot_in_stock(&db, 12), vec![]);
}

#[test]
fn products_of_a_box_are_shown_with_their_stock() {
    let db = store();
    let shown = DatabaseHand::get_products(&db, 10);
    assert_eq!(shown.len(), 3);
    assert_eq!(shown[0].id, 20);
    assert_eq!(shown[0].title, "title20");
    assert_eq!(shown[0].amount, 2);
    assert_eq!(shown[0].available, 2);
    assert_eq!(shown[0].ini_amount, 10);
    assert_eq!(shown[1].id, 22);
    assert!(shown[1].status);
    assert_eq!(shown[1].level, 30);
    assert_eq!(shown[2].id, 23);
    assert_eq!(shown[2].level, u32::MAX);
    assert!(DatabaseHand::get_products(&db, 12).is_empty());
    let one = DatabaseHand::get_single_product(&db, 21).unwrap();
    assert_eq!(one, mystery_box::models::Product::from(db.products[1].clone()));
    assert_eq!(one.box_id, 11);
    assert_eq!(one.description, "text");
    assert_eq!(one.image, "img");
    assert_eq!(DatabaseHand::get_single_product(&db, 9), Err(StoreError::NotFound));
}

#[test]
fn debit_is_refused_below_the_amount() {
    let mut db = store();
    assert_eq!(
        DatabaseHand::deduct_points_from_user(&mut db, (41, 1)),
        Err(StoreError::InsufficientFunds)
    );
    assert_eq!(DatabaseHand::deduct_points_from_user(&mut db, (1, 3)), Err(StoreError::NotFound));
    assert_eq!(db, store());
    assert_eq!(DatabaseHand::deduct_points_from_user(&mut db, (15, 1)), Ok(25));
    assert_eq!(DatabaseHand::deduct_points_from_user(&mut db, (25, 1)), Ok(0));
    assert_eq!(
        DatabaseHand::deduct_points_from_user(&mut db, (1, 1)),
        Err(StoreError::InsufficientFunds)
    );
    assert_eq!(DatabaseHand::deduct_points_from_user(&mut db, (0, 1)), Ok(0));
    assert_eq!(db.users[0].username, "name");
    assert_eq!(db.users[1], user(2, 0, true));
}

#[test]
fn credit_adds_to_the_balance() {
    let mut db = store();
    assert_eq!(DatabaseHand::add_coins(&mut db, &Amount { user_id: 1, points: 60 }), Ok(100));
    assert_eq!(DatabaseHand::get_user_points(&db, 1), Ok(100));
    assert_eq!(
        DatabaseHand::add_coins(&mut db, &Amount { user_id: 7, points: 60 }),
        Err(StoreError::NotFound)
    );
    assert_eq!(DatabaseHand::deduct_points_from_user(&mut db, (60, 1)), Ok(40));
    assert_eq!(db, store());
}

#[test]
fn decrement_is_refused_at_zero() {
    let mut db = store();
    assert_eq!(DatabaseHand::decrement_stock(&mut db, 22), Err(StoreError::StockExhausted));
    assert_eq!(DatabaseHand::decrement_stock(&mut db, 9), Err(StoreError::NotFound));
    assert_eq!(db, store());
    assert_eq!(DatabaseHand::decrement_stock(&mut db, 20), Ok(1));
    assert_eq!(DatabaseHand::decrement_stock(&mut db, 20), Ok(0));
    assert_eq!(DatabaseHand::decrement_stock(&mut db, 20), Err(StoreError::StockExhausted));
    assert!(!db.products[0].status);
    assert_eq!(DatabaseHand::mark_exhausted_if_zero(&mut db, 20), Ok(()));
    assert!(db.products[0].status);
    let marked = db.clone();
    assert_eq!(DatabaseHand::mark_exhausted_if_zero(&mut db, 20), Ok(()));
    assert_eq!(db, marked);
    assert_eq!(DatabaseHand::mark_exhausted_if_zero(&mut db, 21), Ok(()));
    assert!(!db.products[1].status);
    assert_eq!(DatabaseHand::mark_exhausted_if_zero(&mut db, 9), Err(StoreError::NotFound));
    assert_eq!(db, marked);
    assert!(db.is_wf());
}

#[test]
fn journal_keeps_orders_in_order() {
    let mut db = store();
    DatabaseHand::add_order(order(100, 1), &mut db);
    DatabaseHand::add_order(order(101, 2), &mut db);
    DatabaseHand::add_order(order(102, 1), &mut db);
    assert_eq!(
        DatabaseHand::get_all_orders(&db),
        vec![order(100, 1), order(101, 2), order(102, 1)]
    );
    assert_eq!(DatabaseHand::get_orders(&db, 1), vec![order(100, 1), order(102, 1)]);
    assert_eq!(DatabaseHand::get_orders(&db, 2), vec![order(101, 2)]);
    assert_eq!(DatabaseHand::get_orders(&db, 3), vec![]);
}

#[test]
fn commit_is_all_or_nothing() {
    let mut db = store();
    let o = order(100, 1);
    assert_eq!(DatabaseHand::commit_purchase(&mut db, o, 41), Err(StoreError::InsufficientFunds));
    let gone = Order { product_id: 22, ..o };
    assert_eq!(DatabaseHand::commit_purchase(&mut db, gone, 25), Err(StoreError::StockExhausted));
    assert_eq!(
        DatabaseHand::commit_purchase(&mut db, gone, 41),
        Err(StoreError::InsufficientFunds)
    );
    let nobody = Order { user_id: 9, ..o };
    assert_eq!(DatabaseHand::commit_purchase(&mut db, nobody, 1), Err(StoreError::NotFound));
    let nothing = Order { product_id: 9, ..o };
    assert_eq!(DatabaseHand::commit_purchase(&mut db, nothing, 1), Err(StoreError::NotFound));
    assert_eq!(db, store());

    assert_eq!(DatabaseHand::commit_purchase(&mut db, o, 25), Ok(()));
    let mut expected = store();
    expected.users[0].points = 15;
    expected.products[0].amount = 1;
    expected.orders.push(o);
    assert_eq!(db, expected);

    let last = Order { product_id: 23, ..o };
    assert_eq!(DatabaseHand::commit_purchase(&mut db, last, 15), Ok(()));
    expected.users[0].points = 0;
    expected.products[3].amount = 0;
    expected.products[3].status = true;
    expected.orders.push(last);
    assert_eq!(db, expected);
    assert!(db.is_wf());
}

#[test]
fn privilege_is_confirmed_for_superusers_only() {
    let db = store();
    assert_eq!(DatabaseHand::confirm_user_privilege(&db, &ReqId { id: 2 }), Ok(true));
    assert_eq!(
        DatabaseHand::confirm_user_privilege(&db, &ReqId { id: 1 }),
        Err(ApiError::NotSuperuser)
    );
    assert_eq!(
        DatabaseHand::confirm_user_privilege(&db, &ReqId { id: 3 }),
        Err(ApiError::DatabaseError)
    );
}
