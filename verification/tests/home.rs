use chrono::{NaiveDate, NaiveDateTime};
use pos_ledger::entities::product::Product;
use pos_ledger::posting::error::PostingError;
use pos_ledger::screens::home::{sale_finished, Effect, Message, ProductItem, State};

fn noon() -> NaiveDateTime {
    NaiveDate::from_ymd_opt(2024, 5, 1).unwrap().and_hms_opt(12, 0, 0).unwrap()
}

fn product(id: i64, name: &str, stock: i64) -> Product {
    Product::new(id, name.to_string(), 1050, 800, stock, Some("789".to_string()), noon())
}

fn item(id: i64, name: &str, quantity: i64, stock: i64) -> ProductItem {
    let mut item = ProductItem::from_product(product(id, name, stock));
    item.quantity = quantity;
    item
}

#[test]
fn item_of_a_product_offers_one_piece_at_the_sale_price() {
    let item = ProductItem::from_product(product(3, "CAFE", 7));
    assert_eq!(item.id, 3);
    assert_eq!(item.name, "CAFE");
    assert_eq!(item.ean, Some("789".to_string()));
    assert_eq!(item.quantity, 1);
    assert_eq!(item.value, 1050);
    assert_eq!(item.value_purchase, 800);
    assert_eq!(item.stock, 7);
}

#[test]
fn item_turns_into_a_line_with_its_quantity() {
    let line = item(3, "CAFE", 4, 7).to_product(noon());
    assert_eq!(line.id, 3);
    assert_eq!(line.name, "CAFE");
    assert_eq!(line.price_sale, 1050);
    assert_eq!(line.price_purchase, 800);
    assert_eq!(line.quantity, 4);
    assert_eq!(line.ean, Some("789".to_string()));
    assert_eq!(line.created_at, noon());
    assert_eq!(line.updated_at, None);
}

#[test]
fn item_total_is_quantity_times_value() {
    assert_eq!(item(3, "CAFE", 4, 7).total_value(), 4200);
    assert_eq!(ProductItem::default().total_value(), 2100);
}

#[test]
fn default_item_is_the_sample() {
    let item = ProductItem::default();
    assert_eq!(item.id, 0);
    assert_eq!(item.ean, None);
    assert_eq!(item.name, "Produto");
    assert_eq!(item.quantity, 2);
    assert_eq!(item.value, 1050);
    assert_eq!(item.value_purchase, 800);
    assert_eq!(item.stock, 10);
}

#[test]
fn item_label_names_the_price() {
    assert_eq!(ProductItem::default().label(), "Produto - R$ 10,50");
    assert_eq!(item(1, "CHA", 1, 1).clone().label(), "CHA - R$ 10,50");
}

#[test]
fn search_text_is_searched_for_unless_empty() {
    let mut state = State::new();
    match state.update(Message::OnSearchBarChange("CA".to_string()), noon()) {
        Effect::Search(text) => assert_eq!(text, "CA"),
        other => panic!("unexpected effect {:?}", other),
    }
    assert_eq!(state.search_bar, "CA");
    state.update(Message::SearchedProducts(vec![product(1, "CAFE", 3), product(2, "CACAU", 1)]), noon());
    assert_eq!(state.search_bar_products.len(), 2);
    assert_eq!(state.search_bar_products[1].name, "CACAU");
    assert_eq!(state.search_bar_products[1].quantity, 1);
    assert_eq!(state.search_bar_products[1].stock, 1);
    assert!(matches!(
        state.update(Message::OnSearchBarChange(String::new()), noon()),
        Effect::Nothing
    ));
    assert_eq!(state.search_bar, "");
    assert!(state.search_bar_products.is_empty());
}

#[test]
fn picked_item_goes_to_the_end_of_the_cart() {
    let mut state = State::new();
    state.update(Message::OnSearchBarChange("CA".to_string()), noon());
    state.update(Message::SearchedProducts(vec![product(1, "CAFE", 3)]), noon());
    assert!(matches!(
        state.update(Message::SelectProduct(item(1, "CAFE", 1, 3)), noon()),
        Effect::ClearSearch
    ));
    state.update(Message::SelectProduct(item(2, "CHA", 1, 3)), noon());
    assert_eq!(state.products.len(), 2);
    assert_eq!(state.products[0].name, "CAFE");
    assert_eq!(state.products[1].name, "CHA");
    assert_eq!(state.search_bar, "");
    assert!(state.search_bar_products.is_empty());
}

#[test]
fn quantity_stays_between_one_and_the_stock() {
    let mut state = State::new();
    state.update(Message::SelectProduct(item(1, "CAFE", 1, 3)), noon());
    state.update(Message::DecreaseProductQuantity(0), noon());
    assert_eq!(state.products[0].quantity, 1);
    state.update(Message::IncreaseProductQuantity(0), noon());
    state.update(Message::IncreaseProductQuantity(0), noon());
    assert_eq!(state.products[0].quantity, 3);
    state.update(Message::IncreaseProductQuantity(0), noon());
    assert_eq!(state.products[0].quantity, 3);
    state.update(Message::DecreaseProductQuantity(0), noon());
    assert_eq!(state.products[0].quantity, 2);
    state.update(Message::IncreaseProductQuantity(1), noon());
    state.update(Message::DecreaseProductQuantity(usize::MAX), noon());
    assert_eq!(state.products.len(), 1);
    assert_eq!(state.products[0].quantity, 2);
}

#[test]
fn remove_takes_out_the_item_at_the_place() {
    let mut state = State::new();
    state.update(Message::SelectProduct(item(1, "A", 1, 3)), noon());
    state.update(Message::SelectProduct(item(2, "B", 1, 3)), noon());
    state.update(Message::SelectProduct(item(3, "C", 1, 3)), noon());
    state.update(Message::RemoveProduct(3), noon());
    assert_eq!(state.products.len(), 3);
    state.update(Message::RemoveProduct(1), noon());
    assert_eq!(state.products.len(), 2);
    assert_eq!(state.products[0].name, "A");
    assert_eq!(state.products[1].name, "C");
}

#[test]
fn cart_total_is_the_sum_of_its_items() {
    let mut state = State::new();
    assert_eq!(state.total_value(), 0);
    state.update(Message::SelectProduct(item(1, "A", 2, 3)), noon());
    state.update(Message::SelectProduct(item(2, "B", 3, 3)), noon());
    assert_eq!(state.total_value(), 5250);
}

#[test]
fn finishing_posts_the_cart_unless_empty() {
    let mut state = State::new();
    assert!(matches!(state.update(Message::FinishSale, noon()), Effect::Nothing));
    state.update(Message::SelectProduct(item(1, "A", 2, 3)), noon());
    state.update(Message::SelectProduct(item(2, "B", 3, 3)), noon());
    match state.update(Message::FinishSale, noon()) {
        Effect::PostSale(lines) => {
            assert_eq!(lines.len(), 2);
            assert_eq!(lines[0].id, 1);
            assert_eq!(lines[0].quantity, 2);
            assert_eq!(lines[1].id, 2);
            assert_eq!(lines[1].quantity, 3);
            assert_eq!(lines[1].price_sale, 1050);
            assert_eq!(lines[1].created_at, noon());
        }
        other => panic!("unexpected effect {:?}", other),
    }
    assert_eq!(state.products.len(), 2);
}

#[test]
fn end_of_sale_empties_the_cart_and_tells_the_words() {
    let mut state = State::new();
    state.update(Message::SelectProduct(item(1, "A", 2, 3)), noon());
    match state.update(sale_finished(&Ok(())), noon()) {
        Effect::Tell(words) => assert_eq!(words, "Venda finalizada com sucesso!"),
        other => panic!("unexpected effect {:?}", other),
    }
    assert!(state.products.is_empty());
    state.update(Message::SelectProduct(item(1, "A", 2, 3)), noon());
    assert!(matches!(state.update(Message::OnSaleFinished(None), noon()), Effect::Nothing));
    assert!(state.products.is_empty());
}

#[test]
fn failed_sale_is_told_with_its_reason() {
    let mut state = State::new();
    let failed = sale_finished(&Err(PostingError::InsufficientStock(2)));
    match state.update(failed, noon()) {
        Effect::Tell(words) => {
            assert_eq!(words, "Erro ao finalizar venda: Insufficient stock for product ID 2")
        }
        other => panic!("unexpected effect {:?}", other),
    }
    match sale_finished(&Err(PostingError::NotFound(9))) {
        Message::OnSaleFailed(words) => {
            assert_eq!(words, "Erro ao finalizar venda: Product with ID 9 not found")
        }
        other => panic!("unexpected message {:?}", other),
    }
    match sale_finished(&Err(PostingError::Storage("disk full".to_string()))) {
        Message::OnSaleFailed(words) => assert_eq!(words, "Erro ao finalizar venda: disk full"),
        other => panic!("unexpected message {:?}", other),
    }
}

#[test]
fn failed_sale_leaves_the_cart_as_it_was() {
    let mut state = State::new();
    state.update(Message::OnSearchBarChange("CA".to_string()), noon());
    state.update(Message::SearchedProducts(vec![product(1, "CAFE", 3)]), noon());
    state.update(Message::SelectProduct(item(1, "A", 2, 3)), noon());
    state.update(Message::SelectProduct(item(2, "B", 3, 3)), noon());
    state.update(Message::OnSearchBarChange("CH".to_string()), noon());
    state.update(Message::SearchedProducts(vec![product(2, "CHA", 3)]), noon());
    let failed = sale_finished(&Err(PostingError::InsufficientStock(2)));
    assert!(matches!(state.update(failed, noon()), Effect::Tell(_)));
    assert_eq!(state.products.len(), 2);
    assert_eq!(state.products[0].name, "A");
    assert_eq!(state.products[0].quantity, 2);
    assert_eq!(state.products[1].name, "B");
    assert_eq!(state.products[1].quantity, 3);
    assert_eq!(state.search_bar, "CH");
    assert_eq!(state.search_bar_products.len(), 1);
    state.update(Message::DecreaseProductQuantity(1), noon());
    match state.update(Message::FinishSale, noon()) {
        Effect::PostSale(lines) => {
            assert_eq!(lines.len(), 2);
            assert_eq!(lines[1].quantity, 2);
        }
        other => panic!("unexpected effect {:?}", other),
    }
    assert!(matches!(state.update(sale_finished(&Ok(())), noon()), Effect::Tell(_)));
    assert!(state.products.is_empty());
}

#[test]
fn totals_that_cannot_be_held_are_told_apart() {
    let mut state = State::new();
    assert!(state.total_fits());
    state.update(Message::SelectProduct(item(1, "A", 2, 3)), noon());
    assert!(state.total_fits());
    assert!(state.products[0].total_fits());
    let mut huge = item(2, "B", i64::MAX, i64::MAX);
    assert!(!huge.total_fits());
    huge.value = 1;
    assert!(huge.total_fits());
    state.update(Message::SelectProduct(huge), noon());
    assert!(!state.total_fits());
}

#[test]
fn message_clone_says_the_same() {
    let message = Message::SearchedProducts(vec![product(1, "CAFE", 3)]);
    match message.clone() {
        Message::SearchedProducts(products) => {
            assert_eq!(products.len(), 1);
            assert_eq!(products[0].name, "CAFE");
        }
        other => panic!("unexpected message {:?}", other),
    }
    assert!(matches!(Message::RemoveProduct(4).clone(), Message::RemoveProduct(4)));
    assert!(matches!(Message::FinishSale.clone(), Message::FinishSale));
    match Message::OnSaleFinished(Some("ok".to_string())).clone() {
        Message::OnSaleFinished(Some(words)) => assert_eq!(words, "ok"),
        other => panic!("unexpected message {:?}", other),
    }
    match Message::OnSaleFailed("no".to_string()).clone() {
        Message::OnSaleFailed(words) => assert_eq!(words, "no"),
        other => panic!("unexpected message {:?}", other),
    }
}
