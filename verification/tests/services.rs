use chrono::{NaiveDate, NaiveDateTime};
use pos_ledger::entities::product::Product;
use pos_ledger::ledger::store::Ledger;
use pos_ledger::posting::error::PostingError;
use pos_ledger::repositories::product_repository::ProductRepository;
use pos_ledger::services::product_purchase_service::ProductPurchaseService;
use pos_ledger::services::product_sale_service::ProductSaleService;

fn noon() -> NaiveDateTime {
    NaiveDate::from_ymd_opt(2024, 5, 1).unwrap().and_hms_opt(12, 0, 0).unwrap()
}

fn earlier() -> NaiveDateTime {
    NaiveDate::from_ymd_opt(2024, 4, 1).unwrap().and_hms_opt(8, 0, 0).unwrap()
}

fn line(id: i64, name: &str, sale: i64, purchase: i64, quantity: i64) -> Product {
    Product::new(id, name.to_string(), sale, purchase, quantity, None, earlier())
}

fn ledger_with(products: Vec<Product>) -> Ledger {
    let mut ledger = Ledger::new();
    for product in products {
        ProductRepository::insert(&mut ledger, &product).unwrap();
    }
    ledger
}

#[test]
fn purchase_of_a_known_product_adds_stock_and_overwrites_the_price() {
    let ledger = ledger_with(vec![line(0, "A", 800, 500, 10)]);
    let mut service = ProductPurchaseService::new(ledger);
    let batch = vec![line(1, "A", 800, 600, 5)];
    assert!(service.add_purchase_at(batch, noon()).is_ok());
    let ledger = service.ledger();
    assert_eq!(ledger.purchases.len(), 1);
    assert_eq!(ledger.purchases[0].id, 1);
    assert_eq!(ledger.purchases[0].total, 3000);
    assert_eq!(ledger.purchases[0].created_at, noon());
    assert_eq!(ledger.products.len(), 1);
    assert_eq!(ledger.products[0].quantity, 15);
    assert_eq!(ledger.products[0].price_purchase, 600);
    assert_eq!(ledger.products[0].created_at, earlier());
    assert_eq!(ledger.products[0].updated_at, Some(noon()));
    assert_eq!(ledger.product_purchases.len(), 1);
    let row = &ledger.product_purchases[0];
    assert_eq!(row.id, 1);
    assert_eq!(row.product_id, 1);
    assert_eq!(row.purchase_id, 1);
    assert_eq!(row.price, 600);
    assert_eq!(row.quantity, 5);
    assert_eq!(row.total, 3000);
    assert_eq!(row.created_at, noon());
    assert!(ledger.sales.is_empty());
    assert!(ledger.product_sales.is_empty());
}

#[test]
fn sale_of_more_than_is_on_hand_fails_and_changes_nothing() {
    let ledger = ledger_with(vec![line(0, "A", 800, 500, 10), line(0, "B", 700, 400, 2)]);
    let mut service = ProductSaleService::new(ledger);
    let batch = vec![line(2, "B", 700, 400, 3)];
    match service.add_sale_at(batch, noon()) {
        Err(PostingError::InsufficientStock(id)) => assert_eq!(id, 2),
        other => panic!("unexpected result {:?}", other),
    }
    let ledger = service.ledger();
    assert_eq!(ledger.products[1].quantity, 2);
    assert_eq!(ledger.products[1].updated_at, None);
    assert!(ledger.sales.is_empty());
    assert!(ledger.product_sales.is_empty());
}

#[test]
fn posting_twice_adjusts_stock_twice() {
    let ledger = ledger_with(vec![line(0, "A", 800, 500, 0)]);
    let mut service = ProductPurchaseService::new(ledger);
    assert!(service.add_purchase_at(vec![line(1, "A", 800, 500, 5)], noon()).is_ok());
    assert!(service.add_purchase_at(vec![line(1, "A", 800, 500, 5)], noon()).is_ok());
    let ledger = service.ledger();
    assert_eq!(ledger.products[0].quantity, 10);
    assert_eq!(ledger.purchases.len(), 2);
    assert_eq!(ledger.purchases[0].total, 2500);
    assert_eq!(ledger.purchases[1].total, 2500);
    assert_eq!(ledger.purchases[1].id, 2);
    assert_eq!(ledger.product_purchases.len(), 2);
    assert_eq!(ledger.product_purchases[0].purchase_id, 1);
    assert_eq!(ledger.product_purchases[1].purchase_id, 2);
}

#[test]
fn posting_new_products_twice_takes_in_two_products() {
    let mut service = ProductPurchaseService::new(Ledger::new());
    assert!(service.add_purchase_at(vec![line(0, "A", 800, 500, 5)], noon()).is_ok());
    assert!(service.add_purchase_at(vec![line(0, "A", 800, 500, 5)], noon()).is_ok());
    let ledger = service.ledger();
    assert_eq!(ledger.products.len(), 2);
    assert_eq!(ledger.products[0].quantity, 5);
    assert_eq!(ledger.products[1].quantity, 5);
    assert_eq!(ledger.product_purchases[0].product_id, 1);
    assert_eq!(ledger.product_purchases[1].product_id, 2);
}

#[test]
fn failure_in_the_second_of_three_lines_leaves_no_trace() {
    let ledger = ledger_with(vec![
        line(0, "A", 800, 500, 10),
        line(0, "B", 700, 400, 2),
        line(0, "C", 600, 300, 8),
    ]);
    let mut service = ProductSaleService::new(ledger);
    let batch = vec![line(1, "A2", 810, 510, 4), line(2, "B", 700, 400, 3), line(3, "C", 600, 300, 1)];
    match service.add_sale_at(batch, noon()) {
        Err(PostingError::InsufficientStock(id)) => assert_eq!(id, 2),
        other => panic!("unexpected result {:?}", other),
    }
    let ledger = service.ledger();
    assert!(ledger.sales.is_empty());
    assert!(ledger.product_sales.is_empty());
    assert_eq!(ledger.products.len(), 3);
    assert_eq!(ledger.products[0].quantity, 10);
    assert_eq!(ledger.products[0].name, "A");
    assert_eq!(ledger.products[0].price_sale, 800);
    assert_eq!(ledger.products[0].updated_at, None);
    assert_eq!(ledger.products[1].quantity, 2);
    assert_eq!(ledger.products[2].quantity, 8);
}

#[test]
fn lines_for_the_same_product_build_on_each_other() {
    let ledger = ledger_with(vec![line(0, "A", 800, 500, 5)]);
    let mut service = ProductSaleService::new(ledger);
    let batch = vec![line(1, "A", 800, 500, 3), line(1, "A", 800, 500, 2)];
    assert!(service.add_sale_at(batch, noon()).is_ok());
    assert_eq!(service.ledger().products[0].quantity, 0);
    assert_eq!(service.ledger().sales[0].total, 4000);

    let again = vec![line(1, "A", 800, 500, 1)];
    assert!(matches!(
        service.add_sale_at(again, noon()),
        Err(PostingError::InsufficientStock(1))
    ));

    let ledger = ledger_with(vec![line(0, "A", 800, 500, 5)]);
    let mut service = ProductSaleService::new(ledger);
    let too_much = vec![line(1, "A", 800, 500, 3), line(1, "A", 800, 500, 3)];
    assert!(matches!(
        service.add_sale_at(too_much, noon()),
        Err(PostingError::InsufficientStock(1))
    ));
    assert_eq!(service.ledger().products[0].quantity, 5);
}

#[test]
fn stock_never_goes_below_zero_over_a_history_of_postings() {
    let ledger = ledger_with(vec![line(0, "A", 800, 500, 0)]);
    let mut purchases = ProductPurchaseService::new(ledger);
    let moves: [(bool, i64); 9] = [
        (false, 1),
        (true, 5),
        (false, 3),
        (false, 3),
        (false, 2),
        (false, 1),
        (true, 2),
        (false, 2),
        (false, 1),
    ];
    let mut expected = 0;
    for (is_purchase, quantity) in moves {
        let batch = vec![line(1, "A", 800, 500, quantity)];
        let ledger = purchases.ledger().clone();
        if is_purchase {
            purchases = ProductPurchaseService::new(ledger);
            assert!(purchases.add_purchase_at(batch, noon()).is_ok());
            expected += quantity;
        } else {
            let mut sales = ProductSaleService::new(ledger);
            let result = sales.add_sale_at(batch, noon());
            if quantity <= expected {
                assert!(result.is_ok());
                expected -= quantity;
            } else {
                assert!(matches!(result, Err(PostingError::InsufficientStock(1))));
            }
            purchases = ProductPurchaseService::new(sales.ledger().clone());
        }
        assert_eq!(purchases.ledger().products[0].quantity, expected);
        assert!(purchases.ledger().products[0].quantity >= 0);
        assert!(purchases.ledger().has_sound_stock());
        assert!(purchases.ledger().is_wf());
    }
    assert_eq!(expected, 0);
}

#[test]
fn purchase_of_a_product_that_is_not_on_record_fails() {
    let mut service = ProductPurchaseService::new(ledger_with(vec![line(0, "A", 800, 500, 1)]));
    let batch = vec![line(0, "NEW", 100, 50, 1), line(2, "NEW", 100, 50, 1), line(5, "?", 1, 1, 1)];
    match service.add_purchase_at(batch, noon()) {
        Err(PostingError::NotFound(id)) => assert_eq!(id, 5),
        other => panic!("unexpected result {:?}", other),
    }
    assert_eq!(service.ledger().products.len(), 1);
    assert!(service.ledger().purchases.is_empty());
    assert!(service.ledger().product_purchases.is_empty());
}

#[test]
fn a_line_may_name_a_product_that_an_earlier_line_brought() {
    let mut service = ProductPurchaseService::new(Ledger::new());
    let batch = vec![line(0, "NEW", 100, 50, 1), line(1, "NEW", 100, 50, 4)];
    assert!(service.add_purchase_at(batch, noon()).is_ok());
    assert_eq!(service.ledger().products.len(), 1);
    assert_eq!(service.ledger().products[0].quantity, 5);
    assert_eq!(service.ledger().purchases[0].total, 250);
}

#[test]
fn sale_of_a_new_product_takes_it_in_with_the_quantity_of_the_line() {
    let mut service = ProductSaleService::new(Ledger::new());
    assert!(service.add_sale_at(vec![line(0, "NEW", 100, 50, 3)], noon()).is_ok());
    let ledger = service.ledger();
    assert_eq!(ledger.products.len(), 1);
    assert_eq!(ledger.products[0].quantity, 3);
    assert_eq!(ledger.sales[0].total, 300);
    assert_eq!(ledger.product_sales[0].product_id, 1);
    assert_eq!(ledger.product_sales[0].quantity, 3);
}

#[test]
fn sale_overwrites_both_prices_of_the_product() {
    let ledger = ledger_with(vec![line(0, "A", 800, 500, 10)]);
    let mut service = ProductSaleService::new(ledger);
    assert!(service.add_sale_at(vec![line(1, "A", 850, 450, 1)], noon()).is_ok());
    let ledger = service.ledger();
    assert_eq!(ledger.products[0].price_sale, 850);
    assert_eq!(ledger.products[0].price_purchase, 450);
    assert_eq!(ledger.products[0].quantity, 9);
    assert_eq!(ledger.product_sales[0].price, 850);
    assert_eq!(ledger.product_sales[0].total, 850);
}

#[test]
fn header_total_is_the_sum_of_its_lines() {
    let ledger = ledger_with(vec![line(0, "A", 800, 500, 10), line(0, "B", 700, 400, 2)]);
    let mut service = ProductPurchaseService::new(ledger);
    let batch = vec![line(1, "A", 800, 500, 3), line(2, "B", 700, 425, 4), line(0, "C", 10, 7, 9)];
    assert!(service.add_purchase_at(batch, noon()).is_ok());
    let ledger = service.ledger();
    let lines_total: i64 = ledger.product_purchases.iter().map(|row| row.total).sum();
    assert_eq!(ledger.purchases[0].total, 1500 + 1700 + 63);
    assert_eq!(lines_total, ledger.purchases[0].total);
    for row in &ledger.product_purchases {
        assert_eq!(row.total, row.price * row.quantity);
        assert_eq!(row.purchase_id, 1);
    }
}

#[test]
fn posting_at_the_time_of_the_call_stamps_the_rows_with_it() {
    let ledger = ledger_with(vec![line(0, "A", 800, 500, 10)]);
    let mut purchases = ProductPurchaseService::new(ledger);
    let before = chrono::Utc::now().naive_utc();
    assert!(purchases.add_purchase(vec![line(1, "A", 800, 500, 5)]).is_ok());
    let after = chrono::Utc::now().naive_utc();
    let stamp = purchases.ledger().purchases[0].created_at;
    assert!(before <= stamp && stamp <= after);
    assert_eq!(purchases.ledger().product_purchases[0].created_at, stamp);
    assert_eq!(purchases.ledger().products[0].quantity, 15);

    let mut sales = ProductSaleService::new(purchases.ledger().clone());
    assert!(sales.add_sale(vec![line(1, "A", 800, 500, 15)]).is_ok());
    assert_eq!(sales.ledger().products[0].quantity, 0);
    assert!(matches!(
        sales.add_sale(vec![line(1, "A", 800, 500, 1)]),
        Err(PostingError::InsufficientStock(1))
    ));
    assert_eq!(sales.ledger().sales.len(), 1);
}

#[test]
fn services_tell_whether_a_batch_can_be_posted() {
    let ledger = ledger_with(vec![line(0, "A", 800, 500, i64::MAX - 1)]);
    let purchases = ProductPurchaseService::new(ledger.clone());
    assert!(purchases.admits(&vec![line(1, "A", 800, 500, 1)], noon()));
    assert!(!purchases.admits(&vec![line(1, "A", 800, 500, 2)], noon()));
    assert!(!purchases.admits(&vec![line(1, "A", 800, 500, 0)], noon()));
    assert!(purchases.admits(&vec![line(7, "?", 800, 500, 1)], noon()));
    assert_eq!(purchases.ledger().products[0].quantity, i64::MAX - 1);
    assert!(purchases.ledger().purchases.is_empty());
    let sales = ProductSaleService::new(ledger);
    assert!(sales.admits(&vec![line(1, "A", 1, 500, 2)], noon()));
    assert!(!sales.admits(&vec![line(1, "A", -1, 500, 2)], noon()));
    assert!(!sales.admits(&vec![line(1, "A", i64::MAX, 500, 2)], noon()));
    assert!(sales.ledger().sales.is_empty());
}
