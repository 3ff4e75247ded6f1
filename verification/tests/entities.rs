use chrono::{NaiveDate, NaiveDateTime};
use pos_ledger::entities::product::Product;
use pos_ledger::entities::product_purchase::ProductPurchase;
use pos_ledger::entities::product_sale::ProductSale;
use pos_ledger::entities::purchase::Purchase;
use pos_ledger::entities::sale::Sale;

fn at(hour: u32) -> NaiveDateTime {
    NaiveDate::from_ymd_opt(2024, 3, 15).unwrap().and_hms_opt(hour, 30, 0).unwrap()
}

#[test]
fn new_product_keeps_its_fields_and_has_no_update_stamp() {
    let product = Product::new(7, "CAFE".to_string(), 1500, 900, 12, Some("789".to_string()), at(9));
    assert_eq!(product.id, 7);
    assert_eq!(product.name, "CAFE");
    assert_eq!(product.price_sale, 1500);
    assert_eq!(product.price_purchase, 900);
    assert_eq!(product.quantity, 12);
    assert_eq!(product.ean, Some("789".to_string()));
    assert_eq!(product.created_at, at(9));
    assert_eq!(product.updated_at, None);
}

#[test]
fn product_clone_is_equal_field_by_field() {
    let mut product = Product::new(3, "CHA".to_string(), 800, 500, 4, None, at(10));
    product.updated_at = Some(at(11));
    let copy = product.clone();
    assert_eq!(copy.id, 3);
    assert_eq!(copy.name, "CHA");
    assert_eq!(copy.price_sale, 800);
    assert_eq!(copy.price_purchase, 500);
    assert_eq!(copy.quantity, 4);
    assert_eq!(copy.ean, None);
    assert_eq!(copy.created_at, at(10));
    assert_eq!(copy.updated_at, Some(at(11)));
}

#[test]
fn new_purchase_keeps_its_fields() {
    let purchase = Purchase::new(2, 3000, at(8));
    assert_eq!(purchase.id, 2);
    assert_eq!(purchase.total, 3000);
    assert_eq!(purchase.created_at, at(8));
    assert_eq!(purchase.updated_at, None);
    let copy = purchase.clone();
    assert_eq!((copy.id, copy.total, copy.created_at, copy.updated_at), (2, 3000, at(8), None));
}

#[test]
fn new_sale_keeps_its_fields() {
    let sale = Sale::new(5, 4200, at(14));
    assert_eq!(sale.id, 5);
    assert_eq!(sale.total, 4200);
    assert_eq!(sale.created_at, at(14));
    assert_eq!(sale.updated_at, None);
    let copy = sale.clone();
    assert_eq!((copy.id, copy.total, copy.created_at, copy.updated_at), (5, 4200, at(14), None));
}

#[test]
fn new_purchase_line_keeps_price_and_quantity_apart() {
    let line = ProductPurchase::new(1, 2, 3, 600, 5, 3000, at(8));
    assert_eq!(line.id, 1);
    assert_eq!(line.product_id, 2);
    assert_eq!(line.purchase_id, 3);
    assert_eq!(line.price, 600);
    assert_eq!(line.quantity, 5);
    assert_eq!(line.total, 3000);
    assert_eq!(line.created_at, at(8));
    assert_eq!(line.updated_at, None);
    let copy = line.clone();
    assert_eq!((copy.price, copy.quantity, copy.total), (600, 5, 3000));
}

#[test]
fn new_sale_line_keeps_price_and_quantity_apart() {
    let line = ProductSale::new(1, 2, 3, 700, 4, 2800, at(8));
    assert_eq!(line.id, 1);
    assert_eq!(line.product_id, 2);
    assert_eq!(line.sale_id, 3);
    assert_eq!(line.price, 700);
    assert_eq!(line.quantity, 4);
    assert_eq!(line.total, 2800);
    assert_eq!(line.created_at, at(8));
    assert_eq!(line.updated_at, None);
    let copy = line.clone();
    assert_eq!((copy.price, copy.quantity, copy.total), (700, 4, 2800));
}
