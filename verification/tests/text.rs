use mystery_box::models::{Box, ListingKind, Product};
use mystery_box::text::{last_piece, piece, split};
use mystery_box::web::media::{file_suffix, image_link, session_key, ImageKind};

#[test]
fn text_splits_like_str_split() {
    for text in ["", "a", "a/b", "/a", "a/", "//", "a//b/", "database/images/x.png", "ä/ö/ü"] {
        let expected: Vec<String> = text.split('/').map(String::from).collect();
        assert_eq!(split(text, '/'), expected, "splitting {:?}", text);
        assert_eq!(last_piece(text, '/'), *expected.last().unwrap());
        for k in 0..expected.len() + 2 {
            assert_eq!(piece(text, '/', k), expected.get(k).cloned());
        }
    }
    assert_eq!(split("a=b=c", '='), vec!["a", "b", "c"]);
    assert_eq!(split("", '='), vec![""]);
}

#[test]
fn image_is_linked_by_its_name() {
    assert_eq!(image_link("database/images/abc"), "http://localhost:3000/get/image/abc");
    assert_eq!(image_link("abc"), "http://localhost:3000/get/image/abc");
    assert_eq!(image_link("abc/"), "http://localhost:3000/get/image/");
}

#[test]
fn session_key_follows_the_first_equals_sign() {
    assert_eq!(session_key("session_id=abc"), Some(String::from("abc")));
    assert_eq!(session_key("session_id=abc=def"), Some(String::from("abc")));
    assert_eq!(session_key("session_id="), Some(String::new()));
    assert_eq!(session_key("session_id"), None);
    assert_eq!(session_key(""), None);
}

#[test]
fn file_suffix_follows_the_first_dot() {
    assert_eq!(file_suffix("database/images/x.png"), Some(String::from("png")));
    assert_eq!(file_suffix("x.tar.gz"), Some(String::from("tar")));
    assert_eq!(file_suffix("x"), None);
}

#[test]
fn image_kinds_are_png_and_jpeg() {
    assert_eq!(ImageKind::of_content_type("image/png"), Some(ImageKind::Png));
    assert_eq!(ImageKind::of_content_type("image/jpeg"), Some(ImageKind::Jpeg));
    assert_eq!(ImageKind::of_content_type("image/gif"), None);
    assert_eq!(ImageKind::of_content_type(""), None);
    assert_eq!(ImageKind::of_suffix("png"), Some(ImageKind::Png));
    assert_eq!(ImageKind::of_suffix("jpg"), Some(ImageKind::Jpeg));
    assert_eq!(ImageKind::of_suffix("jpeg"), None);
    assert_eq!(ImageKind::Png.ext(), "PNG");
    assert_eq!(ImageKind::Jpeg.ext(), "JPG");
    assert_eq!(ImageKind::Png.suffix(), "png");
    assert_eq!(ImageKind::Jpeg.suffix(), "jpg");
}

#[test]
fn listing_kinds_are_ich_and_hex() {
    assert_eq!(ListingKind::of_tag("ICH"), Some(ListingKind::Ich));
    assert_eq!(ListingKind::of_tag("HEX"), Some(ListingKind::Hex));
    assert_eq!(ListingKind::of_tag("ich"), None);
    assert_eq!(ListingKind::of_tag(""), None);
}

#[test]
fn box_lists_what_is_not_sold_out() {
    let product = |id: u128, status: bool| Product {
        id,
        box_id: 1,
        title: format!("p{}", id),
        description: String::new(),
        level: 0,
        status,
        created_at: 0,
        amount: if status { 0 } else { 2 },
        available: 0,
        image: String::new(),
        ini_amount: 2,
    };
    let mut bx = Box {
        id: 1,
        price: 5,
        original_price: 6,
        listing_id: 7,
        created_at: 8,
        products: vec![],
        total: 0,
        available_products: 0,
    };
    let products = vec![product(1, false), product(2, true), product(3, false)];
    assert_eq!(products[0].duplicate(), products[0]);
    bx.fill(&products);
    assert_eq!(bx.total, 3);
    assert_eq!(bx.available_products, 2);
    assert_eq!(bx.products, vec![product(1, false), product(3, false)]);
    assert_eq!((bx.id, bx.price, bx.original_price, bx.listing_id, bx.created_at), (1, 5, 6, 7, 8));
    bx.fill(&vec![]);
    assert_eq!((bx.total, bx.available_products, bx.products.len()), (0, 0, 0));
}
