use chrono::{NaiveDate, NaiveDateTime};
use pos_ledger::entities::product::Product;
use pos_ledger::screens::add_purchase::{
    accepted, clone_items, place_edited, Effect, Figures, Message, ProductItem, State,
};

fn noon() -> NaiveDateTime {
    NaiveDate::from_ymd_opt(2024, 5, 1).unwrap().and_hms_opt(12, 0, 0).unwrap()
}

fn figures(price_unit: &str, price_sale: &str, percentual: &str, total: &str, total_sale: &str) -> Figures {
    Figures {
        price_unit: price_unit.to_string(),
        price_sale: price_sale.to_string(),
        percentual: percentual.to_string(),
        total: total.to_string(),
        total_sale: total_sale.to_string(),
    }
}

fn marked() -> Figures {
    figures("PU", "PS", "PC", "TT", "TS")
}

fn fields(item: &ProductItem) -> [String; 7] {
    [
        item.name.clone(),
        item.quantity.clone(),
        item.price_unit.clone(),
        item.price_sale.clone(),
        item.percentual.clone(),
        item.total.clone(),
        item.total_sale.clone(),
    ]
}

fn blank_fields() -> [String; 7] {
    ["", "1", "0,00", "0,00", "30,0", "R$ 0,00", "R$ 0,00"].map(|text| text.to_string())
}

#[test]
fn new_form_has_one_blank_item() {
    let state = State::new();
    assert_eq!(state.products.len(), 1);
    assert_eq!(state.products[0].id, None);
    assert_eq!(state.products[0].ean, None);
    assert_eq!(fields(&state.products[0]), blank_fields());
    assert!(!state.show_search);
    assert_eq!(state.search_index, None);
    assert_eq!(state.search_text, "");
    assert!(state.search_products.is_empty());
}

#[test]
fn figures_none_are_empty() {
    let none = Figures::none();
    assert_eq!(none.price_unit, "");
    assert_eq!(none.price_sale, "");
    assert_eq!(none.percentual, "");
    assert_eq!(none.total, "");
    assert_eq!(none.total_sale, "");
}

#[test]
fn quantity_edit_takes_both_amounts() {
    let mut state = State::new();
    let effect = state.update(Message::QuantityChange(0, "3".to_string()), true, marked());
    assert!(matches!(effect, Effect::Nothing));
    assert_eq!(
        fields(&state.products[0]),
        ["", "3", "0,00", "0,00", "30,0", "TT", "TS"].map(|t| t.to_string())
    );
}

#[test]
fn unit_price_edit_takes_amount_sale_price_and_sale_amount() {
    let mut state = State::new();
    state.update(Message::PriceUnitChange(0, "10,00".to_string()), true, marked());
    assert_eq!(
        fields(&state.products[0]),
        ["", "1", "10,00", "PS", "30,0", "TT", "TS"].map(|t| t.to_string())
    );
}

#[test]
fn sale_price_edit_takes_markup_and_sale_amount() {
    let mut state = State::new();
    state.update(Message::PriceSaleChange(0, "13.5".to_string()), true, marked());
    assert_eq!(
        fields(&state.products[0]),
        ["", "1", "0,00", "13.5", "PC", "R$ 0,00", "TS"].map(|t| t.to_string())
    );
}

#[test]
fn markup_edit_takes_sale_price_and_sale_amount_when_in_range() {
    let mut state = State::new();
    state.update(Message::PercentualChange(0, "50".to_string()), true, marked());
    assert_eq!(
        fields(&state.products[0]),
        ["", "1", "0,00", "PS", "50", "R$ 0,00", "TS"].map(|t| t.to_string())
    );
    state.update(Message::PercentualChange(0, "150".to_string()), false, marked());
    assert_eq!(state.products[0].percentual, "50");
}

#[test]
fn barcode_and_name_edits_take_no_figures() {
    let mut state = State::new();
    state.update(Message::EanChange(0, "789".to_string()), true, marked());
    state.update(Message::NameChange(0, "CAFE".to_string()), false, marked());
    assert_eq!(state.products[0].ean, Some("789".to_string()));
    assert_eq!(
        fields(&state.products[0]),
        ["CAFE", "1", "0,00", "0,00", "30,0", "R$ 0,00", "R$ 0,00"].map(|t| t.to_string())
    );
    state.update(Message::EanChange(0, String::new()), true, marked());
    assert_eq!(state.products[0].ean, Some(String::new()));
}

#[test]
fn refused_edits_change_nothing() {
    let mut state = State::new();
    state.update(Message::EanChange(0, "78a".to_string()), true, marked());
    state.update(Message::QuantityChange(0, "1,5".to_string()), true, marked());
    state.update(Message::QuantityChange(0, "99999999999".to_string()), true, marked());
    state.update(Message::PriceUnitChange(0, "1,2,3".to_string()), true, marked());
    state.update(Message::PriceSaleChange(0, "abc".to_string()), true, marked());
    state.update(Message::PercentualChange(0, "30".to_string()), false, marked());
    assert_eq!(state.products[0].ean, None);
    assert_eq!(fields(&state.products[0]), blank_fields());
}

#[test]
fn edits_for_a_place_without_item_change_nothing() {
    let mut state = State::new();
    state.update(Message::QuantityChange(1, "3".to_string()), true, marked());
    state.update(Message::NameChange(usize::MAX, "X".to_string()), true, marked());
    state.update(Message::EanChange(7, "1".to_string()), true, marked());
    assert_eq!(state.products.len(), 1);
    assert_eq!(state.products[0].ean, None);
    assert_eq!(fields(&state.products[0]), blank_fields());
}

#[test]
fn edits_touch_only_the_item_at_their_place() {
    let mut state = State::new();
    state.update(Message::AddProduct, true, Figures::none());
    state.update(Message::AddProduct, true, Figures::none());
    state.update(Message::QuantityChange(1, "4".to_string()), true, marked());
    assert_eq!(fields(&state.products[0]), blank_fields());
    assert_eq!(state.products[1].quantity, "4");
    assert_eq!(state.products[1].total, "TT");
    assert_eq!(fields(&state.products[2]), blank_fields());
}

#[test]
fn items_are_added_blank_and_taken_out_at_their_place() {
    let mut state = State::new();
    state.update(Message::NameChange(0, "A".to_string()), true, Figures::none());
    state.update(Message::AddProduct, true, marked());
    state.update(Message::NameChange(1, "B".to_string()), true, Figures::none());
    state.update(Message::AddProduct, true, marked());
    assert_eq!(state.products.len(), 3);
    assert_eq!(fields(&state.products[2]), blank_fields());
    state.update(Message::RemoveProduct(3), true, marked());
    assert_eq!(state.products.len(), 3);
    state.update(Message::RemoveProduct(0), true, marked());
    assert_eq!(state.products.len(), 2);
    assert_eq!(state.products[0].name, "B");
}

#[test]
fn search_opens_for_a_place_and_closes_empty() {
    let mut state = State::new();
    state.update(Message::SearchProduct(0), true, Figures::none());
    assert!(state.show_search);
    assert_eq!(state.search_index, Some(0));
    match state.update(Message::SearchTextChange("CA".to_string()), true, Figures::none()) {
        Effect::Search(text) => assert_eq!(text, "CA"),
        other => panic!("unexpected effect {:?}", other),
    }
    assert_eq!(state.search_text, "CA");
    let found = vec![Product::new(4, "CAFE".to_string(), 1300, 1000, 7, None, noon())];
    state.update(Message::ChangeProductsSearch(found), true, Figures::none());
    assert_eq!(state.search_products.len(), 1);
    assert!(matches!(
        state.update(Message::SearchTextChange(String::new()), true, Figures::none()),
        Effect::Nothing
    ));
    assert_eq!(state.search_text, "");
    assert!(state.search_products.is_empty());
    assert!(state.show_search);
    state.update(Message::SearchTextChange("CH".to_string()), true, Figures::none());
    state.update(Message::CloseSearch, true, Figures::none());
    assert!(!state.show_search);
    assert_eq!(state.search_index, None);
    assert_eq!(state.search_text, "");
    assert!(state.search_products.is_empty());
    assert_eq!(state.products.len(), 1);
}

#[test]
fn picked_product_fills_in_the_item_the_search_was_opened_for() {
    let mut state = State::new();
    state.update(Message::AddProduct, true, Figures::none());
    state.update(Message::SearchProduct(1), true, Figures::none());
    let picked = Product::new(4, "CAFE".to_string(), 1300, 1000, 7, Some("789".to_string()), noon());
    let chosen = figures("10,00", "13,00", "30,00", "R$ 10,00", "R$ 13,00");
    let effect = state.update(Message::ProductSelected(0, picked), true, chosen);
    assert!(matches!(effect, Effect::Nothing));
    assert_eq!(fields(&state.products[0]), blank_fields());
    assert_eq!(state.products[1].id, Some(4));
    assert_eq!(state.products[1].ean, Some("789".to_string()));
    assert_eq!(
        fields(&state.products[1]),
        ["CAFE", "1", "10,00", "13,00", "30,00", "R$ 10,00", "R$ 13,00"].map(|t| t.to_string())
    );
    assert!(!state.show_search);
    assert_eq!(state.search_index, None);
}

#[test]
fn picked_product_without_an_open_search_only_closes_the_search() {
    let mut state = State::new();
    let picked = Product::new(4, "CAFE".to_string(), 1300, 1000, 7, None, noon());
    state.update(Message::ProductSelected(0, picked.clone()), true, marked());
    assert_eq!(fields(&state.products[0]), blank_fields());
    state.update(Message::SearchProduct(5), true, Figures::none());
    state.update(Message::ProductSelected(0, picked), true, marked());
    assert_eq!(state.products.len(), 1);
    assert_eq!(fields(&state.products[0]), blank_fields());
    assert!(!state.show_search);
}

#[test]
fn finishing_asks_for_the_items_and_leaves_them() {
    let mut state = State::new();
    state.update(Message::NameChange(0, "A".to_string()), true, Figures::none());
    state.update(Message::AddProduct, true, Figures::none());
    state.update(Message::QuantityChange(1, "2".to_string()), true, marked());
    match state.update(Message::FinishPurchase, true, Figures::none()) {
        Effect::PostPurchase(items) => {
            assert_eq!(items.len(), 2);
            assert_eq!(items[0].name, "A");
            assert_eq!(items[1].quantity, "2");
            assert_eq!(items[1].total, "TT");
        }
        other => panic!("unexpected effect {:?}", other),
    }
    assert_eq!(state.products.len(), 2);
    assert_eq!(state.products[0].name, "A");
    state.update(Message::CloseSearch, true, Figures::none());
    assert_eq!(state.products.len(), 2);
    assert_eq!(state.products[1].quantity, "2");
}

#[test]
fn item_edited_shows_the_edit_before_the_figures() {
    let state = State::new();
    let edited = state.item_edited(&Message::PriceUnitChange(0, "9,90".to_string())).unwrap();
    assert_eq!(
        fields(&edited),
        ["", "1", "9,90", "0,00", "30,0", "R$ 0,00", "R$ 0,00"].map(|t| t.to_string())
    );
    let refused = state.item_edited(&Message::QuantityChange(0, "x".to_string())).unwrap();
    assert_eq!(refused.quantity, "x");
    assert!(state.item_edited(&Message::QuantityChange(1, "2".to_string())).is_none());
    assert!(state.item_edited(&Message::AddProduct).is_none());
    assert!(state.item_edited(&Message::RemoveProduct(0)).is_none());
    assert_eq!(fields(&state.products[0]), blank_fields());
}

#[test]
fn edits_are_taken_by_what_they_bring() {
    assert!(accepted(&Message::EanChange(0, "123".to_string()), false));
    assert!(!accepted(&Message::EanChange(0, "12,3".to_string()), true));
    assert!(accepted(&Message::QuantityChange(0, String::new()), false));
    assert!(!accepted(&Message::QuantityChange(0, "q".to_string()), true));
    assert!(accepted(&Message::PriceUnitChange(0, "12,3".to_string()), false));
    assert!(!accepted(&Message::PriceUnitChange(0, "12,3,".to_string()), true));
    assert!(accepted(&Message::PriceSaleChange(0, "1e2".to_string()), false));
    assert!(!accepted(&Message::PriceSaleChange(0, "e".to_string()), true));
    assert!(accepted(&Message::PercentualChange(0, "whatever".to_string()), true));
    assert!(!accepted(&Message::PercentualChange(0, "10".to_string()), false));
    assert!(accepted(&Message::NameChange(0, "any".to_string()), false));
    assert!(accepted(&Message::AddProduct, false));
}

#[test]
fn edits_name_their_place() {
    assert_eq!(place_edited(&Message::EanChange(3, String::new())), Some(3));
    assert_eq!(place_edited(&Message::NameChange(4, String::new())), Some(4));
    assert_eq!(place_edited(&Message::QuantityChange(5, String::new())), Some(5));
    assert_eq!(place_edited(&Message::PriceUnitChange(6, String::new())), Some(6));
    assert_eq!(place_edited(&Message::PriceSaleChange(7, String::new())), Some(7));
    assert_eq!(place_edited(&Message::PercentualChange(8, String::new())), Some(8));
    assert_eq!(place_edited(&Message::RemoveProduct(1)), None);
    assert_eq!(place_edited(&Message::SearchProduct(1)), None);
    assert_eq!(place_edited(&Message::FinishPurchase), None);
}

#[test]
fn item_helpers_set_one_field_or_the_figures() {
    let item = ProductItem::blank();
    let edited = item.edited(&Message::NameChange(0, "X".to_string()));
    assert_eq!(edited.name, "X");
    assert_eq!(item.name, "");
    let with = edited.with_figures(&Message::PriceSaleChange(0, String::new()), marked());
    assert_eq!(
        fields(&with),
        ["X", "1", "0,00", "0,00", "PC", "R$ 0,00", "TS"].map(|t| t.to_string())
    );
    let product = Product::new(4, "CAFE".to_string(), 1300, 1000, 7, None, noon());
    let filled = ProductItem::from_product(&product, marked());
    assert_eq!(filled.id, Some(4));
    assert_eq!(fields(&filled), ["CAFE", "1", "PU", "PS", "PC", "TT", "TS"].map(|t| t.to_string()));
    let copies = clone_items(&vec![filled.clone(), ProductItem::blank()]);
    assert_eq!(copies.len(), 2);
    assert_eq!(copies[0].name, "CAFE");
    assert_eq!(fields(&copies[1]), blank_fields());
}

#[test]
fn purchase_message_clone_says_the_same() {
    match Message::QuantityChange(2, "5".to_string()).clone() {
        Message::QuantityChange(place, text) => {
            assert_eq!(place, 2);
            assert_eq!(text, "5");
        }
        other => panic!("unexpected message {:?}", other),
    }
    let product = Product::new(4, "CAFE".to_string(), 1300, 1000, 7, None, noon());
    match Message::ProductSelected(1, product.clone()).clone() {
        Message::ProductSelected(place, picked) => {
            assert_eq!(place, 1);
            assert_eq!(picked.name, "CAFE");
        }
        other => panic!("unexpected message {:?}", other),
    }
    match Message::ChangeProductsSearch(vec![product]).clone() {
        Message::ChangeProductsSearch(found) => assert_eq!(found.len(), 1),
        other => panic!("unexpected message {:?}", other),
    }
    assert!(matches!(Message::AddProduct.clone(), Message::AddProduct));
    assert!(matches!(Message::CloseSearch.clone(), Message::CloseSearch));
}
