//! The sale counter: a search for products, and the cart of what is being
//! sold. The counter decides what a message does to the cart and what is
//! to be done outside; it draws nothing and calls nobody.

use chrono::NaiveDateTime;
use vstd::prelude::*;
use crate::entities::product::{clone_products, text_view, Product};
use crate::entities::views::ProductView;
use crate::helpers::money::{format_int_to_decimal, money_text};
use crate::posting::error::{failure_text, PostingError};
use crate::posting::rules::{fits, Failure};
use crate::posting::totals::line_views;

verus! {

/// A product in the cart or on offer in the search: what is sold of it,
/// at what price, and how much of it is in stock.
#[derive(Debug)]
pub struct ProductItem {
    pub id: i64,
    pub ean: Option<String>,
    pub name: String,
    pub quantity: i64,
    pub value: i64,
    pub value_purchase: i64,
    pub stock: i64,
}

/// Model of an item.
pub struct ProductItemView {
    pub id: int,
    pub ean: Option<Seq<char>>,
    pub name: Seq<char>,
    pub quantity: int,
    pub value: int,
    pub value_purchase: int,
    pub stock: int,
}

impl View for ProductItem {
    type V = ProductItemView;

    open spec fn view(&self) -> ProductItemView {
        ProductItemView {
            id: self.id as int,
            ean: text_view(self.ean),
            name: self.name@,
            quantity: self.quantity as int,
            value: self.value as int,
            value_purchase: self.value_purchase as int,
            stock: self.stock as int,
        }
    }
}

impl ProductItemView {
    /// The item that offers `product`: one piece of it, at its sale price.
    pub open spec fn of_product(product: ProductView) -> ProductItemView {
        ProductItemView {
            id: product.id,
            ean: product.ean,
            name: product.name,
            quantity: 1,
            value: product.price_sale,
            value_purchase: product.price_purchase,
            stock: product.quantity,
        }
    }

    /// The line of a sale that the item stands for, made at `created_at`.
    pub open spec fn as_product(self, created_at: NaiveDateTime) -> ProductView {
        ProductView {
            id: self.id,
            name: self.name,
            price_sale: self.value,
            price_purchase: self.value_purchase,
            quantity: self.quantity,
            ean: self.ean,
            created_at,
            updated_at: None,
        }
    }

    /// The amount of the item: quantity times sale price.
    pub open spec fn total_value(self) -> int {
        self.quantity * self.value
    }

    /// How the item reads in a list: its name, a dash, and its price.
    pub open spec fn label(self) -> Seq<char> {
        self.name + " - "@ + money_text(self.value)
    }
}

/// The models of a list of items, item by item.
pub open spec fn item_views(items: Seq<ProductItem>) -> Seq<ProductItemView> {
    Seq::new(items.len(), |i: int| items[i]@)
}

/// The items that offer the products of a list, one for each.
pub open spec fn offers(products: Seq<ProductView>) -> Seq<ProductItemView> {
    Seq::new(products.len(), |i: int| ProductItemView::of_product(products[i]))
}

/// The lines of the sale that a cart stands for, made at `created_at`.
pub open spec fn sale_lines(items: Seq<ProductItemView>, created_at: NaiveDateTime) -> Seq<ProductView> {
    Seq::new(items.len(), |i: int| items[i].as_product(created_at))
}

/// The amount of a cart: the sum of the amounts of its items.
pub open spec fn cart_total(items: Seq<ProductItemView>) -> int
    decreases items.len(),
{
    if items.len() == 0 {
        0
    } else {
        cart_total(items.drop_last()) + items.last().total_value()
    }
}

/// The amount of every item, and of the cart as far as each item, can be
/// held.
pub open spec fn cart_fits(items: Seq<ProductItemView>) -> bool
    decreases items.len(),
{
    items.len() == 0 || {
        &&& cart_fits(items.drop_last())
        &&& fits(items.last().total_value())
        &&& fits(cart_total(items))
    }
}

impl ProductItem {
    /// Whether the amount of the item can be held.
    pub fn total_fits(&self) -> (held: bool)
        ensures
            held == fits(self@.total_value()),
    {
        self.quantity.checked_mul(self.value).is_some()
    }

    /// The amount of the item: quantity times sale price.
    pub fn total_value(&self) -> (total: i64)
        requires
            fits(self@.total_value()),
        ensures
            total == self@.total_value(),
    {
        self.quantity * self.value
    }

    /// The item that offers `product`: one piece of it, at its sale price.
    pub fn from_product(product: Product) -> (item: Self)
        ensures
            item@ == ProductItemView::of_product(product@),
    {
        ProductItem {
            id: product.id,
            ean: product.ean,
            name: product.name,
            quantity: 1,
            value: product.price_sale,
            value_purchase: product.price_purchase,
            stock: product.quantity,
        }
    }

    /// The line of a sale that the item stands for, made at `created_at`.
    pub fn to_product(&self, created_at: NaiveDateTime) -> (product: Product)
        ensures
            product@ == self@.as_product(created_at),
    {
        let ean = match &self.ean {
            Some(code) => Some(code.clone()),
            None => None,
        };
        Product::new(
            self.id,
            self.name.clone(),
            self.value,
            self.value_purchase,
            self.quantity,
            ean,
            created_at,
        )
    }

    /// How the item reads in a list: its name, a dash, and its price.
    pub fn label(&self) -> (text: String)
        ensures
            text@ == self@.label(),
    {
        let mut text = self.name.clone();
        text.append(" - ");
        let price = format_int_to_decimal(self.value);
        text.append(price.as_str());
        assert(text@ =~= self@.label());
        text
    }
}

impl Clone for ProductItem {
    fn clone(&self) -> (copy: Self)
        ensures
            copy == *self,
    {
        let ean = match &self.ean {
            Some(code) => Some(code.clone()),
            None => None,
        };
        ProductItem {
            id: self.id,
            ean,
            name: self.name.clone(),
            quantity: self.quantity,
            value: self.value,
            value_purchase: self.value_purchase,
            stock: self.stock,
        }
    }
}

impl Default for ProductItem {
    /// A sample item: two pieces of a product that is not on record.
    fn default() -> (item: Self)
        ensures
            item@ == (ProductItemView {
                id: 0,
                ean: None,
                name: "Produto"@,
                quantity: 2,
                value: 1050,
                value_purchase: 800,
                stock: 10,
            }),
    {
        ProductItem {
            id: 0,
            ean: None,
            name: "Produto".to_owned(),
            quantity: 2,
            value: 1050,
            value_purchase: 800,
            stock: 10,
        }
    }
}

/// What happens at the counter.
#[derive(Debug)]
pub enum Message {
    /// The text in the search bar is now this.
    OnSearchBarChange(String),
    /// This item was picked from the search.
    SelectProduct(ProductItem),
    /// The search has come back with these products.
    SearchedProducts(Vec<Product>),
    /// Take the item at this place out of the cart.
    RemoveProduct(usize),
    /// One piece less of the item at this place.
    DecreaseProductQuantity(usize),
    /// One piece more of the item at this place.
    IncreaseProductQuantity(usize),
    /// Post the cart as a sale.
    FinishSale,
    /// The sale has been posted, with these words if any.
    OnSaleFinished(Option<String>),
    /// The sale has failed and nothing of it was posted; the words tell
    /// why.
    OnSaleFailed(String),
}

/// Model of a message.
pub enum MessageView {
    OnSearchBarChange(Seq<char>),
    SelectProduct(ProductItemView),
    SearchedProducts(Seq<ProductView>),
    RemoveProduct(int),
    DecreaseProductQuantity(int),
    IncreaseProductQuantity(int),
    FinishSale,
    OnSaleFinished(Option<Seq<char>>),
    OnSaleFailed(Seq<char>),
}

impl View for Message {
    type V = MessageView;

    open spec fn view(&self) -> MessageView {
        match self {
            Message::OnSearchBarChange(text) => MessageView::OnSearchBarChange(text@),
            Message::SelectProduct(item) => MessageView::SelectProduct(item@),
            Message::SearchedProducts(products) => MessageView::SearchedProducts(line_views(products@)),
            Message::RemoveProduct(place) => MessageView::RemoveProduct(*place as int),
            Message::DecreaseProductQuantity(place) => MessageView::DecreaseProductQuantity(
                *place as int,
            ),
            Message::IncreaseProductQuantity(place) => MessageView::IncreaseProductQuantity(
                *place as int,
            ),
            Message::FinishSale => MessageView::FinishSale,
            Message::OnSaleFinished(words) => MessageView::OnSaleFinished(text_view(*words)),
            Message::OnSaleFailed(words) => MessageView::OnSaleFailed(words@),
        }
    }
}

impl Clone for Message {
    fn clone(&self) -> (copy: Self)
        ensures
            copy@ == self@,
    {
        match self {
            Message::OnSearchBarChange(text) => Message::OnSearchBarChange(text.clone()),
            Message::SelectProduct(item) => Message::SelectProduct(item.clone()),
            Message::SearchedProducts(products) => Message::SearchedProducts(clone_products(products)),
            Message::RemoveProduct(place) => Message::RemoveProduct(*place),
            Message::DecreaseProductQuantity(place) => Message::DecreaseProductQuantity(*place),
            Message::IncreaseProductQuantity(place) => Message::IncreaseProductQuantity(*place),
            Message::FinishSale => Message::FinishSale,
            Message::OnSaleFinished(words) => Message::OnSaleFinished(
                match words {
                    Some(text) => Some(text.clone()),
                    None => None,
                },
            ),
            Message::OnSaleFailed(words) => Message::OnSaleFailed(words.clone()),
        }
    }
}

/// What is to be done outside the counter after a message.
#[derive(Debug)]
pub enum Effect {
    /// Nothing.
    Nothing,
    /// Search the products whose name contains this text, and come back
    /// with `Message::SearchedProducts`.
    Search(String),
    /// Empty the search bar on screen.
    ClearSearch,
    /// Post these lines as a sale, and come back with the message that
    /// `sale_finished` makes of the result.
    PostSale(Vec<Product>),
    /// Tell these words.
    Tell(String),
}

/// Model of an effect.
pub enum EffectView {
    Nothing,
    Search(Seq<char>),
    ClearSearch,
    PostSale(Seq<ProductView>),
    Tell(Seq<char>),
}

impl View for Effect {
    type V = EffectView;

    open spec fn view(&self) -> EffectView {
        match self {
            Effect::Nothing => EffectView::Nothing,
            Effect::Search(text) => EffectView::Search(text@),
            Effect::ClearSearch => EffectView::ClearSearch,
            Effect::PostSale(lines) => EffectView::PostSale(line_views(lines@)),
            Effect::Tell(words) => EffectView::Tell(words@),
        }
    }
}

/// The counter: the text searched for, the items that the search offers,
/// and the cart.
#[derive(Debug)]
pub struct State {
    pub search_bar: String,
    pub search_bar_products: Vec<ProductItem>,
    pub products: Vec<ProductItem>,
}

/// Model of the counter.
pub struct StateView {
    pub search_bar: Seq<char>,
    pub search_bar_products: Seq<ProductItemView>,
    pub products: Seq<ProductItemView>,
}

impl View for State {
    type V = StateView;

    open spec fn view(&self) -> StateView {
        StateView {
            search_bar: self.search_bar@,
            search_bar_products: item_views(self.search_bar_products@),
            products: item_views(self.products@),
        }
    }
}

impl StateView {
    /// The item at `place` with its quantity changed by `by`.
    pub open spec fn with_quantity_moved(self, place: int, by: int) -> StateView {
        StateView {
            products: self.products.update(
                place,
                ProductItemView { quantity: self.products[place].quantity + by, ..self.products[place] },
            ),
            ..self
        }
    }

    /// The counter after a message that came at `now`, and what is to be
    /// done outside.
    ///
    /// A search text that is not empty is searched for; an empty one
    /// empties the offer. A picked item goes to the end of the cart and the
    /// search starts afresh. An item is taken out, or gets one piece less
    /// or more, only if there is an item at that place; it never gets less
    /// than one piece nor more than are in stock. A cart that is not empty
    /// is posted as a sale, each item a line, and stays as it is meanwhile.
    /// When the sale has been posted the cart is emptied and the words, if
    /// any, are told. When the sale has failed the words are told and the
    /// cart is left as it was, to be corrected and posted again.
    pub open spec fn after(self, message: MessageView, now: NaiveDateTime) -> (StateView, EffectView) {
        match message {
            MessageView::OnSearchBarChange(text) => if text.len() == 0 {
                (
                    StateView { search_bar: text, search_bar_products: Seq::empty(), ..self },
                    EffectView::Nothing,
                )
            } else {
                (StateView { search_bar: text, ..self }, EffectView::Search(text))
            },
            MessageView::SelectProduct(item) => (
                StateView {
                    search_bar: Seq::empty(),
                    search_bar_products: Seq::empty(),
                    products: self.products.push(item),
                },
                EffectView::ClearSearch,
            ),
            MessageView::SearchedProducts(products) => (
                StateView { search_bar_products: offers(products), ..self },
                EffectView::Nothing,
            ),
            MessageView::RemoveProduct(place) => if 0 <= place < self.products.len() {
                (StateView { products: self.products.remove(place), ..self }, EffectView::Nothing)
            } else {
                (self, EffectView::Nothing)
            },
            MessageView::DecreaseProductQuantity(place) => if 0 <= place < self.products.len()
                && self.products[place].quantity > 1 {
                (self.with_quantity_moved(place, -1), EffectView::Nothing)
            } else {
                (self, EffectView::Nothing)
            },
            MessageView::IncreaseProductQuantity(place) => if 0 <= place < self.products.len()
                && self.products[place].quantity < self.products[place].stock {
                (self.with_quantity_moved(place, 1), EffectView::Nothing)
            } else {
                (self, EffectView::Nothing)
            },
            MessageView::FinishSale => if self.products.len() == 0 {
                (self, EffectView::Nothing)
            } else {
                (self, EffectView::PostSale(sale_lines(self.products, now)))
            },
            MessageView::OnSaleFinished(words) => (
                StateView { products: Seq::empty(), ..self },
                match words {
                    Some(text) => EffectView::Tell(text),
                    None => EffectView::Nothing,
                },
            ),
            MessageView::OnSaleFailed(words) => (self, EffectView::Tell(words)),
        }
    }
}

/// The words that tell how a sale has ended.
pub open spec fn sale_report(failure: Option<Failure>) -> Seq<char> {
    match failure {
        None => "Venda finalizada com sucesso!"@,
        Some(reason) => "Erro ao finalizar venda: "@ + failure_text(reason),
    }
}

/// The message that tells the counter how a sale has ended: that it has
/// been posted, or that it has failed and why.
pub fn sale_finished(result: &Result<(), PostingError>) -> (message: Message)
    ensures
        message@ == match result {
            Ok(_) => MessageView::OnSaleFinished(Some(sale_report(None))),
            Err(error) => MessageView::OnSaleFailed(sale_report(Some(error@))),
        },
{
    match result {
        Ok(_) => Message::OnSaleFinished(Some("Venda finalizada com sucesso!".to_owned())),
        Err(error) => {
            let mut words = "Erro ao finalizar venda: ".to_owned();
            let reason = error.message();
            words.append(reason.as_str());
            Message::OnSaleFailed(words)
        },
    }
}

impl State {
    /// A counter with an empty search and an empty cart.
    pub fn new() -> (state: Self)
        ensures
            state@ == (StateView {
                search_bar: Seq::empty(),
                search_bar_products: Seq::empty(),
                products: Seq::empty(),
            }),
    {
        let state = State {
            search_bar: String::new(),
            search_bar_products: Vec::new(),
            products: Vec::new(),
        };
        assert(state@.search_bar_products =~= Seq::empty());
        assert(state@.products =~= Seq::empty());
        state
    }

    /// Whether the amount of every item, and of the cart as far as each
    /// item, can be held.
    pub fn total_fits(&self) -> (held: bool)
        ensures
            held == cart_fits(self@.products),
    {
        let ghost items = self@.products;
        let mut total: i64 = 0;
        for i in 0..self.products.len()
            invariant
                items == item_views(self.products@),
                cart_fits(items.take(i as int)),
                total == cart_total(items.take(i as int)),
        {
            proof {
                assert(items.take(i + 1).drop_last() =~= items.take(i as int));
                assert(items.take(i + 1).last() == self.products@[i as int]@);
                if cart_fits(items) {
                    lemma_cart_fits_so_far(items, i + 1);
                }
            }
            let amount = match self.products[i].quantity.checked_mul(self.products[i].value) {
                Some(amount) => amount,
                None => {
                    return false;
                },
            };
            total = match total.checked_add(amount) {
                Some(sum) => sum,
                None => {
                    return false;
                },
            };
        }
        assert(items.take(self.products.len() as int) =~= items);
        true
    }

    /// The amount of the cart: the sum of the amounts of its items.
    pub fn total_value(&self) -> (total: i64)
        requires
            cart_fits(self@.products),
        ensures
            total == cart_total(self@.products),
    {
        let ghost items = self@.products;
        let mut total: i64 = 0;
        for i in 0..self.products.len()
            invariant
                items == item_views(self.products@),
                cart_fits(items),
                total == cart_total(items.take(i as int)),
        {
            proof {
                lemma_cart_fits_so_far(items, i + 1);
                assert(items.take(i + 1).drop_last() =~= items.take(i as int));
                assert(items.take(i + 1).last() == self.products@[i as int]@);
            }
            total = total + self.products[i].total_value();
        }
        assert(items.take(self.products.len() as int) =~= items);
        total
    }

    /// Takes a message that came at `now`: changes the counter and tells
    /// what is to be done outside.
    pub fn update(&mut self, message: Message, now: NaiveDateTime) -> (effect: Effect)
        ensures
            (final(self)@, effect@) == old(self)@.after(message@, now),
    {
        match message {
            Message::OnSearchBarChange(value) => {
                if value.as_str().is_empty() {
                    self.search_bar = value;
                    self.search_bar_products = Vec::new();
                    assert(self@.search_bar_products =~= Seq::empty());
                    Effect::Nothing
                } else {
                    self.search_bar = value.clone();
                    Effect::Search(value)
                }
            },
            Message::SelectProduct(product) => {
                self.products.push(product);
                self.search_bar = String::new();
                self.search_bar_products = Vec::new();
                assert(self@.search_bar_products =~= Seq::empty());
                assert(self@.products =~= old(self)@.products.push(product@));
                Effect::ClearSearch
            },
            Message::SearchedProducts(products) => {
                let mut items: Vec<ProductItem> = Vec::new();
                for i in 0..products.len()
                    invariant
                        items.len() == i,
                        item_views(items@) == offers(line_views(products@)).take(i as int),
                {
                    let ghost before = items@;
                    items.push(ProductItem::from_product(products[i].clone()));
                    assert forall|k: int| 0 <= k < i + 1 implies item_views(items@)[k] == offers(
                        line_views(products@),
                    )[k] by {
                        if k < i {
                            assert(item_views(before)[k] == offers(line_views(products@)).take(
                                i as int,
                            )[k]);
                        }
                    }
                    assert(item_views(items@) =~= offers(line_views(products@)).take(i + 1));
                }
                assert(offers(line_views(products@)).take(products.len() as int) =~= offers(
                    line_views(products@),
                ));
                self.search_bar_products = items;
                Effect::Nothing
            },
            Message::RemoveProduct(index) => {
                if index < self.products.len() {
                    self.products.remove(index);
                    assert(self@.products =~= old(self)@.products.remove(index as int));
                }
                Effect::Nothing
            },
            Message::DecreaseProductQuantity(index) => {
                if index < self.products.len() && self.products[index].quantity > 1 {
                    let mut item = self.products[index].clone();
                    item.quantity = item.quantity - 1;
                    self.products.set(index, item);
                    assert(self@.products =~= old(self)@.with_quantity_moved(index as int, -1).products);
                }
                Effect::Nothing
            },
            Message::IncreaseProductQuantity(index) => {
                if index < self.products.len() && self.products[index].quantity
                    < self.products[index].stock {
                    let mut item = self.products[index].clone();
                    item.quantity = item.quantity + 1;
                    self.products.set(index, item);
                    assert(self@.products =~= old(self)@.with_quantity_moved(index as int, 1).products);
                }
                Effect::Nothing
            },
            Message::FinishSale => {
                if self.products.len() == 0 {
                    Effect::Nothing
                } else {
                    let mut lines: Vec<Product> = Vec::new();
                    for i in 0..self.products.len()
                        invariant
                            lines.len() == i,
                            line_views(lines@) == sale_lines(item_views(self.products@), now).take(
                                i as int,
                            ),
                    {
                        let ghost before = lines@;
                        lines.push(self.products[i].to_product(now));
                        assert forall|k: int| 0 <= k < i + 1 implies line_views(lines@)[k] == sale_lines(
                            item_views(self.products@),
                            now,
                        )[k] by {
                            if k < i {
                                assert(line_views(before)[k] == sale_lines(
                                    item_views(self.products@),
                                    now,
                                ).take(i as int)[k]);
                            }
                        }
                        assert(line_views(lines@) =~= sale_lines(item_views(self.products@), now).take(
                            i + 1,
                        ));
                    }
                    assert(sale_lines(item_views(self.products@), now).take(self.products.len() as int)
                        =~= sale_lines(item_views(self.products@), now));
                    Effect::PostSale(lines)
                }
            },
            Message::OnSaleFinished(value) => {
                self.products = Vec::new();
                assert(self@.products =~= Seq::empty());
                match value {
                    Some(words) => Effect::Tell(words),
                    None => Effect::Nothing,
                }
            },
            Message::OnSaleFailed(words) => Effect::Tell(words),
        }
    }
}

/// A cart whose amounts can be held is one whose beginnings can.
pub proof fn lemma_cart_fits_so_far(items: Seq<ProductItemView>, count: int)
    requires
        cart_fits(items),
        0 <= count <= items.len(),
    ensures
        cart_fits(items.take(count)),
        fits(cart_total(items.take(count))),
        count > 0 ==> fits(items[count - 1].total_value()),
    decreases items.len(),
{
    if count == items.len() {
        assert(items.take(count) =~= items);
    } else {
        assert(items.drop_last().take(count) =~= items.take(count));
        lemma_cart_fits_so_far(items.drop_last(), count);
    }
}

} // verus!
