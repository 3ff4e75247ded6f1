//! The purchase form: the items being bought, as they are typed, and the
//! search that fills an item in from a product on record. The form decides
//! what a message does to the items and what is to be done outside; the
//! figures that depend on decimal arithmetic are worked out outside and
//! handed in.

use vstd::prelude::*;
use crate::entities::product::{clone_products, text_view, Product};
use crate::entities::views::ProductView;
use crate::helpers::validation::{is_float_text, is_i32_text, validate_float, validate_int};
use crate::posting::totals::line_views;

verus! {

/// One item of the form, every field as it was typed or shown.
#[derive(Debug)]
pub struct ProductItem {
    pub id: Option<i64>,
    pub ean: Option<String>,
    pub name: String,
    pub quantity: String,
    pub price_unit: String,
    pub price_sale: String,
    pub percentual: String,
    pub total: String,
    pub total_sale: String,
}

/// Model of an item of the form.
pub struct ProductItemView {
    pub id: Option<int>,
    pub ean: Option<Seq<char>>,
    pub name: Seq<char>,
    pub quantity: Seq<char>,
    pub price_unit: Seq<char>,
    pub price_sale: Seq<char>,
    pub percentual: Seq<char>,
    pub total: Seq<char>,
    pub total_sale: Seq<char>,
}

/// The number that an optional number holds.
pub open spec fn number_view(number: Option<i64>) -> Option<int> {
    match number {
        Some(n) => Some(n as int),
        None => None,
    }
}

/// The place that an optional place holds.
pub open spec fn place_view(place: Option<usize>) -> Option<int> {
    match place {
        Some(p) => Some(p as int),
        None => None,
    }
}

impl View for ProductItem {
    type V = ProductItemView;

    open spec fn view(&self) -> ProductItemView {
        ProductItemView {
            id: number_view(self.id),
            ean: text_view(self.ean),
            name: self.name@,
            quantity: self.quantity@,
            price_unit: self.price_unit@,
            price_sale: self.price_sale@,
            percentual: self.percentual@,
            total: self.total@,
            total_sale: self.total_sale@,
        }
    }
}

/// The figures of an item that are worked out in decimal arithmetic, as
/// texts: the unit price, the sale price, the markup in percent, the amount
/// at the unit price and the amount at the sale price.
#[derive(Debug)]
pub struct Figures {
    pub price_unit: String,
    pub price_sale: String,
    pub percentual: String,
    pub total: String,
    pub total_sale: String,
}

/// Model of the figures of an item.
pub struct FiguresView {
    pub price_unit: Seq<char>,
    pub price_sale: Seq<char>,
    pub percentual: Seq<char>,
    pub total: Seq<char>,
    pub total_sale: Seq<char>,
}

impl View for Figures {
    type V = FiguresView;

    open spec fn view(&self) -> FiguresView {
        FiguresView {
            price_unit: self.price_unit@,
            price_sale: self.price_sale@,
            percentual: self.percentual@,
            total: self.total@,
            total_sale: self.total_sale@,
        }
    }
}

impl Figures {
    /// Figures for a message that takes none: five empty texts.
    pub fn none() -> (figures: Self)
        ensures
            figures@ == (FiguresView {
                price_unit: Seq::empty(),
                price_sale: Seq::empty(),
                percentual: Seq::empty(),
                total: Seq::empty(),
                total_sale: Seq::empty(),
            }),
    {
        Figures {
            price_unit: String::new(),
            price_sale: String::new(),
            percentual: String::new(),
            total: String::new(),
            total_sale: String::new(),
        }
    }
}

/// What happens at the form. A message that edits a field names the place
/// of the item and brings the text typed.
#[derive(Debug)]
pub enum Message {
    EanChange(usize, String),
    NameChange(usize, String),
    QuantityChange(usize, String),
    PriceUnitChange(usize, String),
    PriceSaleChange(usize, String),
    PercentualChange(usize, String),
    /// One more item, blank.
    AddProduct,
    /// Post the items as a purchase.
    FinishPurchase,
    /// Take the item at this place out.
    RemoveProduct(usize),
    /// Open the search, to fill in the item at this place.
    SearchProduct(usize),
    /// Close the search.
    CloseSearch,
    /// The text searched for is now this.
    SearchTextChange(String),
    /// The search has come back with these products.
    ChangeProductsSearch(Vec<Product>),
    /// This product was picked in the search.
    ProductSelected(usize, Product),
}

/// Model of a message.
pub enum MessageView {
    EanChange(int, Seq<char>),
    NameChange(int, Seq<char>),
    QuantityChange(int, Seq<char>),
    PriceUnitChange(int, Seq<char>),
    PriceSaleChange(int, Seq<char>),
    PercentualChange(int, Seq<char>),
    AddProduct,
    FinishPurchase,
    RemoveProduct(int),
    SearchProduct(int),
    CloseSearch,
    SearchTextChange(Seq<char>),
    ChangeProductsSearch(Seq<ProductView>),
    ProductSelected(int, ProductView),
}

impl View for Message {
    type V = MessageView;

    open spec fn view(&self) -> MessageView {
        match self {
            Message::EanChange(place, text) => MessageView::EanChange(*place as int, text@),
            Message::NameChange(place, text) => MessageView::NameChange(*place as int, text@),
            Message::QuantityChange(place, text) => MessageView::QuantityChange(*place as int, text@),
            Message::PriceUnitChange(place, text) => MessageView::PriceUnitChange(*place as int, text@),
            Message::PriceSaleChange(place, text) => MessageView::PriceSaleChange(*place as int, text@),
            Message::PercentualChange(place, text) => MessageView::PercentualChange(
                *place as int,
                text@,
            ),
            Message::AddProduct => MessageView::AddProduct,
            Message::FinishPurchase => MessageView::FinishPurchase,
            Message::RemoveProduct(place) => MessageView::RemoveProduct(*place as int),
            Message::SearchProduct(place) => MessageView::SearchProduct(*place as int),
            Message::CloseSearch => MessageView::CloseSearch,
            Message::SearchTextChange(text) => MessageView::SearchTextChange(text@),
            Message::ChangeProductsSearch(products) => MessageView::ChangeProductsSearch(
                line_views(products@),
            ),
            Message::ProductSelected(place, product) => MessageView::ProductSelected(
                *place as int,
                product@,
            ),
        }
    }
}

impl MessageView {
    /// The place of the item that the message edits, if it edits a field.
    pub open spec fn place_edited(self) -> Option<int> {
        match self {
            MessageView::EanChange(place, _) => Some(place),
            MessageView::NameChange(place, _) => Some(place),
            MessageView::QuantityChange(place, _) => Some(place),
            MessageView::PriceUnitChange(place, _) => Some(place),
            MessageView::PriceSaleChange(place, _) => Some(place),
            MessageView::PercentualChange(place, _) => Some(place),
            _ => None,
        }
    }

    /// Whether the edit that the message asks for is taken. A barcode and
    /// a quantity must be empty or a whole number, a price empty or a
    /// decimal; of a markup the caller says whether it is within bounds; a
    /// name is taken as it is.
    pub open spec fn accepted(self, in_range: bool) -> bool {
        match self {
            MessageView::EanChange(_, text) => text.len() == 0 || is_i32_text(text),
            MessageView::QuantityChange(_, text) => text.len() == 0 || is_i32_text(text),
            MessageView::PriceUnitChange(_, text) => text.len() == 0 || is_float_text(text),
            MessageView::PriceSaleChange(_, text) => text.len() == 0 || is_float_text(text),
            MessageView::PercentualChange(_, _) => in_range,
            _ => true,
        }
    }
}

impl ProductItemView {
    /// An item that nothing was typed into yet: one piece, no price, a
    /// markup of thirty percent.
    pub open spec fn blank() -> ProductItemView {
        ProductItemView {
            id: None,
            ean: None,
            name: Seq::empty(),
            quantity: "1"@,
            price_unit: "0,00"@,
            price_sale: "0,00"@,
            percentual: "30,0"@,
            total: "R$ 0,00"@,
            total_sale: "R$ 0,00"@,
        }
    }

    /// The item with the text of the message in the field that the
    /// message edits.
    pub open spec fn edited(self, message: MessageView) -> ProductItemView {
        match message {
            MessageView::EanChange(_, text) => ProductItemView { ean: Some(text), ..self },
            MessageView::NameChange(_, text) => ProductItemView { name: text, ..self },
            MessageView::QuantityChange(_, text) => ProductItemView { quantity: text, ..self },
            MessageView::PriceUnitChange(_, text) => ProductItemView { price_unit: text, ..self },
            MessageView::PriceSaleChange(_, text) => ProductItemView { price_sale: text, ..self },
            MessageView::PercentualChange(_, text) => ProductItemView { percentual: text, ..self },
            _ => self,
        }
    }

    /// The item with the figures that follow from the edit. A quantity
    /// moves both amounts; a unit price moves the amount, the sale price
    /// and the amount at it; a sale price moves the markup and the amount
    /// at the sale price; a markup moves the sale price and the amount at
    /// it. A barcode or a name moves nothing.
    pub open spec fn with_figures(self, message: MessageView, figures: FiguresView) -> ProductItemView {
        match message {
            MessageView::QuantityChange(_, _) => ProductItemView {
                total: figures.total,
                total_sale: figures.total_sale,
                ..self
            },
            MessageView::PriceUnitChange(_, _) => ProductItemView {
                total: figures.total,
                price_sale: figures.price_sale,
                total_sale: figures.total_sale,
                ..self
            },
            MessageView::PriceSaleChange(_, _) => ProductItemView {
                percentual: figures.percentual,
                total_sale: figures.total_sale,
                ..self
            },
            MessageView::PercentualChange(_, _) => ProductItemView {
                price_sale: figures.price_sale,
                total_sale: figures.total_sale,
                ..self
            },
            _ => self,
        }
    }

    /// The item filled in from a product on record: one piece of it, with
    /// the product's number, barcode and name, and all five figures.
    pub open spec fn of_product(product: ProductView, figures: FiguresView) -> ProductItemView {
        ProductItemView {
            id: Some(product.id),
            ean: product.ean,
            name: product.name,
            quantity: "1"@,
            price_unit: figures.price_unit,
            price_sale: figures.price_sale,
            percentual: figures.percentual,
            total: figures.total,
            total_sale: figures.total_sale,
        }
    }
}

/// The models of a list of items, item by item.
pub open spec fn item_views(items: Seq<ProductItem>) -> Seq<ProductItemView> {
    Seq::new(items.len(), |i: int| items[i]@)
}

/// What is to be done outside the form after a message.
#[derive(Debug)]
pub enum Effect {
    /// Nothing.
    Nothing,
    /// Search the products whose name contains this text, and come back
    /// with `Message::ChangeProductsSearch`.
    Search(String),
    /// Post these items as a purchase, and come back with
    /// `Message::CloseSearch`.
    PostPurchase(Vec<ProductItem>),
}

/// Model of an effect.
pub enum EffectView {
    Nothing,
    Search(Seq<char>),
    PostPurchase(Seq<ProductItemView>),
}

impl View for Effect {
    type V = EffectView;

    open spec fn view(&self) -> EffectView {
        match self {
            Effect::Nothing => EffectView::Nothing,
            Effect::Search(text) => EffectView::Search(text@),
            Effect::PostPurchase(items) => EffectView::PostPurchase(item_views(items@)),
        }
    }
}

/// The form: its items, and the search with the place of the item that it
/// is to fill in.
#[derive(Debug)]
pub struct State {
    pub products: Vec<ProductItem>,
    pub show_search: bool,
    pub search_index: Option<usize>,
    pub search_text: String,
    pub search_products: Vec<Product>,
}

/// Model of the form.
pub struct StateView {
    pub products: Seq<ProductItemView>,
    pub show_search: bool,
    pub search_index: Option<int>,
    pub search_text: Seq<char>,
    pub search_products: Seq<ProductView>,
}

impl View for State {
    type V = StateView;

    open spec fn view(&self) -> StateView {
        StateView {
            products: item_views(self.products@),
            show_search: self.show_search,
            search_index: place_view(self.search_index),
            search_text: self.search_text@,
            search_products: line_views(self.search_products@),
        }
    }
}

impl StateView {
    /// Whether there is an item at `place`.
    pub open spec fn has_item(self, place: int) -> bool {
        0 <= place < self.products.len()
    }

    /// The form with the search closed and emptied.
    pub open spec fn with_search_closed(self) -> StateView {
        StateView {
            show_search: false,
            search_index: None,
            search_text: Seq::empty(),
            search_products: Seq::empty(),
            ..self
        }
    }

    /// The item that `message` edits, with the edit made and before the
    /// figures are taken: what the figures are to be worked out on. There
    /// is none if the message edits no field or no item is at its place.
    pub open spec fn item_edited(self, message: MessageView) -> Option<ProductItemView> {
        match message.place_edited() {
            Some(place) => if self.has_item(place) {
                Some(self.products[place].edited(message))
            } else {
                None
            },
            None => None,
        }
    }

    /// The form after a message, and what is to be done outside.
    /// `in_range` says whether a markup that the message brings is within
    /// its bounds; `figures` are those of the item as the message leaves
    /// it.
    ///
    /// An edit that is refused, or for which there is no item, changes
    /// nothing and asks for nothing. An edit that is taken sets the field
    /// and takes the figures that follow from it. Items are added blank at
    /// the end and taken out at their place. Opening the search notes the
    /// place to fill in and empties the search; closing it empties it too.
    /// A search text that is not empty is searched for; an empty one
    /// empties what was found. A product that is picked fills in the item
    /// at the place that the search was opened for, if there is one, and
    /// closes the search. Finishing asks for the items to be posted and
    /// leaves them as they are.
    pub open spec fn after(self, message: MessageView, in_range: bool, figures: FiguresView) -> (
        StateView,
        EffectView,
    ) {
        match message {
            MessageView::AddProduct => (
                StateView { products: self.products.push(ProductItemView::blank()), ..self },
                EffectView::Nothing,
            ),
            MessageView::RemoveProduct(place) => if self.has_item(place) {
                (StateView { products: self.products.remove(place), ..self }, EffectView::Nothing)
            } else {
                (self, EffectView::Nothing)
            },
            MessageView::SearchProduct(place) => (
                StateView {
                    show_search: true,
                    search_index: Some(place),
                    search_text: Seq::empty(),
                    search_products: Seq::empty(),
                    ..self
                },
                EffectView::Nothing,
            ),
            MessageView::CloseSearch => (self.with_search_closed(), EffectView::Nothing),
            MessageView::SearchTextChange(text) => if text.len() == 0 {
                (
                    StateView { search_text: text, search_products: Seq::empty(), ..self },
                    EffectView::Nothing,
                )
            } else {
                (StateView { search_text: text, ..self }, EffectView::Search(text))
            },
            MessageView::ChangeProductsSearch(products) => (
                StateView { search_products: products, ..self },
                EffectView::Nothing,
            ),
            MessageView::FinishPurchase => (self, EffectView::PostPurchase(self.products)),
            MessageView::ProductSelected(_, product) => (
                match self.search_index {
                    Some(place) => if self.has_item(place) {
                        StateView {
                            products: self.products.update(
                                place,
                                ProductItemView::of_product(product, figures),
                            ),
                            ..self
                        }.with_search_closed()
                    } else {
                        self.with_search_closed()
                    },
                    None => self.with_search_closed(),
                },
                EffectView::Nothing,
            ),
            _ => match self.item_edited(message) {
                Some(item) => if message.accepted(in_range) {
                    (
                        StateView {
                            products: self.products.update(
                                message.place_edited()->Some_0,
                                item.with_figures(message, figures),
                            ),
                            ..self
                        },
                        EffectView::Nothing,
                    )
                } else {
                    (self, EffectView::Nothing)
                },
                None => (self, EffectView::Nothing),
            },
        }
    }
}

impl ProductItem {
    /// An item that nothing was typed into yet.
    pub fn blank() -> (item: Self)
        ensures
            item@ == ProductItemView::blank(),
    {
        ProductItem {
            id: None,
            ean: None,
            name: String::new(),
            quantity: "1".to_owned(),
            price_unit: "0,00".to_owned(),
            price_sale: "0,00".to_owned(),
            percentual: "30,0".to_owned(),
            total: "R$ 0,00".to_owned(),
            total_sale: "R$ 0,00".to_owned(),
        }
    }

    /// The item filled in from a product on record.
    pub fn from_product(product: &Product, figures: Figures) -> (item: Self)
        ensures
            item@ == ProductItemView::of_product(product@, figures@),
    {
        let ean = match &product.ean {
            Some(code) => Some(code.clone()),
            None => None,
        };
        ProductItem {
            id: Some(product.id),
            ean,
            name: product.name.clone(),
            quantity: "1".to_owned(),
            price_unit: figures.price_unit,
            price_sale: figures.price_sale,
            percentual: figures.percentual,
            total: figures.total,
            total_sale: figures.total_sale,
        }
    }

    /// The item with the text of the message in the field that the
    /// message edits.
    pub fn edited(&self, message: &Message) -> (item: Self)
        ensures
            item@ == self@.edited(message@),
    {
        let mut item = self.clone();
        match message {
            Message::EanChange(_, text) => {
                item.ean = Some(text.clone());
            },
            Message::NameChange(_, text) => {
                item.name = text.clone();
            },
            Message::QuantityChange(_, text) => {
                item.quantity = text.clone();
            },
            Message::PriceUnitChange(_, text) => {
                item.price_unit = text.clone();
            },
            Message::PriceSaleChange(_, text) => {
                item.price_sale = text.clone();
            },
            Message::PercentualChange(_, text) => {
                item.percentual = text.clone();
            },
            _ => {},
        }
        item
    }

    /// The item with the figures that follow from the edit.
    pub fn with_figures(self, message: &Message, figures: Figures) -> (item: Self)
        ensures
            item@ == self@.with_figures(message@, figures@),
    {
        let mut item = self;
        match message {
            Message::QuantityChange(_, _) => {
                item.total = figures.total;
                item.total_sale = figures.total_sale;
            },
            Message::PriceUnitChange(_, _) => {
                item.total = figures.total;
                item.price_sale = figures.price_sale;
                item.total_sale = figures.total_sale;
            },
            Message::PriceSaleChange(_, _) => {
                item.percentual = figures.percentual;
                item.total_sale = figures.total_sale;
            },
            Message::PercentualChange(_, _) => {
                item.price_sale = figures.price_sale;
                item.total_sale = figures.total_sale;
            },
            _ => {},
        }
        item
    }
}

impl Clone for ProductItem {
    fn clone(&self) -> (copy: Self)
        ensures
            copy == *self,
    {
        let id = match &self.id {
            Some(number) => Some(*number),
            None => None,
        };
        let ean = match &self.ean {
            Some(code) => Some(code.clone()),
            None => None,
        };
        ProductItem {
            id,
            ean,
            name: self.name.clone(),
            quantity: self.quantity.clone(),
            price_unit: self.price_unit.clone(),
            price_sale: self.price_sale.clone(),
            percentual: self.percentual.clone(),
            total: self.total.clone(),
            total_sale: self.total_sale.clone(),
        }
    }
}

/// Copies of all the items of a list, in their order.
pub fn clone_items(items: &Vec<ProductItem>) -> (copies: Vec<ProductItem>)
    ensures
        copies@ == items@,
{
    let mut copies: Vec<ProductItem> = Vec::new();
    for i in 0..items.len()
        invariant
            copies@ == items@.subrange(0, i as int),
    {
        copies.push(items[i].clone());
        assert(copies@ =~= items@.subrange(0, i + 1));
    }
    assert(copies@ =~= items@);
    copies
}

impl Clone for Message {
    fn clone(&self) -> (copy: Self)
        ensures
            copy@ == self@,
    {
        match self {
            Message::EanChange(place, text) => Message::EanChange(*place, text.clone()),
            Message::NameChange(place, text) => Message::NameChange(*place, text.clone()),
            Message::QuantityChange(place, text) => Message::QuantityChange(*place, text.clone()),
            Message::PriceUnitChange(place, text) => Message::PriceUnitChange(*place, text.clone()),
            Message::PriceSaleChange(place, text) => Message::PriceSaleChange(*place, text.clone()),
            Message::PercentualChange(place, text) => Message::PercentualChange(*place, text.clone()),
            Message::AddProduct => Message::AddProduct,
            Message::FinishPurchase => Message::FinishPurchase,
            Message::RemoveProduct(place) => Message::RemoveProduct(*place),
            Message::SearchProduct(place) => Message::SearchProduct(*place),
            Message::CloseSearch => Message::CloseSearch,
            Message::SearchTextChange(text) => Message::SearchTextChange(text.clone()),
            Message::ChangeProductsSearch(products) => Message::ChangeProductsSearch(
                clone_products(products),
            ),
            Message::ProductSelected(place, product) => Message::ProductSelected(*place, product.clone()),
        }
    }
}

/// The place of the item that the message edits, if it edits a field.
pub fn place_edited(message: &Message) -> (place: Option<usize>)
    ensures
        place_view(place) == message@.place_edited(),
{
    match message {
        Message::EanChange(place, _) => Some(*place),
        Message::NameChange(place, _) => Some(*place),
        Message::QuantityChange(place, _) => Some(*place),
        Message::PriceUnitChange(place, _) => Some(*place),
        Message::PriceSaleChange(place, _) => Some(*place),
        Message::PercentualChange(place, _) => Some(*place),
        _ => None,
    }
}

/// Whether the edit that the message asks for is taken.
pub fn accepted(message: &Message, in_range: bool) -> (taken: bool)
    ensures
        taken == message@.accepted(in_range),
{
    match message {
        Message::EanChange(_, text) => validate_int(text.as_str()),
        Message::QuantityChange(_, text) => validate_int(text.as_str()),
        Message::PriceUnitChange(_, text) => validate_float(text.as_str()),
        Message::PriceSaleChange(_, text) => validate_float(text.as_str()),
        Message::PercentualChange(_, _) => in_range,
        _ => true,
    }
}

impl State {
    /// A form with one blank item and the search closed.
    pub fn new() -> (state: Self)
        ensures
            state@ == (StateView {
                products: seq![ProductItemView::blank()],
                show_search: false,
                search_index: None,
                search_text: Seq::empty(),
                search_products: Seq::empty(),
            }),
    {
        let mut products: Vec<ProductItem> = Vec::new();
        products.push(ProductItem::blank());
        let state = State {
            products,
            show_search: false,
            search_index: None,
            search_text: String::new(),
            search_products: Vec::new(),
        };
        assert(state@.products =~= seq![ProductItemView::blank()]);
        assert(state@.search_products =~= Seq::empty());
        state
    }

    /// The item that `message` edits, with the edit made and before the
    /// figures are taken: what the figures are to be worked out on.
    pub fn item_edited(&self, message: &Message) -> (item: Option<ProductItem>)
        ensures
            match item {
                Some(edited) => self@.item_edited(message@) == Some(edited@),
                None => self@.item_edited(message@) is None,
            },
    {
        match place_edited(message) {
            Some(place) => if place < self.products.len() {
                Some(self.products[place].edited(message))
            } else {
                None
            },
            None => None,
        }
    }

    /// Closes and empties the search.
    fn close_search(&mut self)
        ensures
            final(self)@ == old(self)@.with_search_closed(),
    {
        self.show_search = false;
        self.search_index = None;
        self.search_text = String::new();
        self.search_products = Vec::new();
        assert(self@.search_products =~= Seq::empty());
    }

    /// Takes a message: changes the form and tells what is to be done
    /// outside. `in_range` says whether a markup that the message brings
    /// is within its bounds; `figures` are those of the item as the message
    /// leaves it.
    pub fn update(&mut self, message: Message, in_range: bool, figures: Figures) -> (effect: Effect)
        ensures
            (final(self)@, effect@) == old(self)@.after(message@, in_range, figures@),
    {
        match message {
            Message::AddProduct => {
                self.products.push(ProductItem::blank());
                assert(self@.products =~= old(self)@.products.push(ProductItemView::blank()));
                Effect::Nothing
            },
            Message::RemoveProduct(index) => {
                if index < self.products.len() {
                    self.products.remove(index);
                    assert(self@.products =~= old(self)@.products.remove(index as int));
                }
                Effect::Nothing
            },
            Message::SearchProduct(index) => {
                self.show_search = true;
                self.search_index = Some(index);
                self.search_text = String::new();
                self.search_products = Vec::new();
                assert(self@.search_products =~= Seq::empty());
                Effect::Nothing
            },
            Message::CloseSearch => {
                self.close_search();
                Effect::Nothing
            },
            Message::SearchTextChange(value) => {
                if value.as_str().is_empty() {
                    self.search_text = value;
                    self.search_products = Vec::new();
                    assert(self@.search_products =~= Seq::empty());
                    Effect::Nothing
                } else {
                    self.search_text = value.clone();
                    Effect::Search(value)
                }
            },
            Message::ChangeProductsSearch(value) => {
                self.search_products = value;
                Effect::Nothing
            },
            Message::FinishPurchase => {
                let items = clone_items(&self.products);
                Effect::PostPurchase(items)
            },
            Message::ProductSelected(_, value) => {
                match self.search_index {
                    Some(place) => {
                        if place < self.products.len() {
                            self.products.set(place, ProductItem::from_product(&value, figures));
                            assert(self@.products =~= old(self)@.products.update(
                                place as int,
                                ProductItemView::of_product(value@, figures@),
                            ));
                        }
                    },
                    None => {},
                }
                self.close_search();
                Effect::Nothing
            },
            edit => {
                let taken = accepted(&edit, in_range);
                match self.item_edited(&edit) {
                    Some(item) => {
                        if taken {
                            let place = place_edited(&edit).unwrap();
                            let ghost wanted = item@.with_figures(edit@, figures@);
                            self.products.set(place, item.with_figures(&edit, figures));
                            assert(self@.products =~= old(self)@.products.update(place as int, wanted));
                        }
                    },
                    None => {},
                }
                Effect::Nothing
            },
        }
    }
}

} // verus!
