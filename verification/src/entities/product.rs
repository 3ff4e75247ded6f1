use chrono::NaiveDateTime;
use vstd::prelude::*;
use crate::entities::views::ProductView;

verus! {

/// A stocked item. An `id` of zero marks a product that no store has taken
/// in yet; prices are in minor units.
#[derive(Debug)]
pub struct Product {
    pub id: i64,
    pub name: String,
    pub price_sale: i64,
    pub price_purchase: i64,
    pub quantity: i64,
    pub ean: Option<String>,
    pub created_at: NaiveDateTime,
    pub updated_at: Option<NaiveDateTime>,
}

/// The characters of an optional text.
pub open spec fn text_view(text: Option<String>) -> Option<Seq<char>> {
    match text {
        Some(t) => Some(t@),
        None => None,
    }
}

impl View for Product {
    type V = ProductView;

    open spec fn view(&self) -> ProductView {
        ProductView {
            id: self.id as int,
            name: self.name@,
            price_sale: self.price_sale as int,
            price_purchase: self.price_purchase as int,
            quantity: self.quantity as int,
            ean: text_view(self.ean),
            created_at: self.created_at,
            updated_at: self.updated_at,
        }
    }
}

impl Product {
    /// A product that has not been updated since it was created.
    pub fn new(
        id: i64,
        name: String,
        price_sale: i64,
        price_purchase: i64,
        quantity: i64,
        ean: Option<String>,
        created_at: NaiveDateTime,
    ) -> (product: Self)
        ensures
            product@ == (ProductView {
                id: id as int,
                name: name@,
                price_sale: price_sale as int,
                price_purchase: price_purchase as int,
                quantity: quantity as int,
                ean: text_view(ean),
                created_at,
                updated_at: None,
            }),
    {
        Self { id, name, price_sale, price_purchase, quantity, ean, created_at, updated_at: None }
    }
}

impl Clone for Product {
    fn clone(&self) -> (copy: Self)
        ensures
            copy == *self,
    {
        let ean = match &self.ean {
            Some(text) => Some(text.clone()),
            None => None,
        };
        Self {
            id: self.id,
            name: self.name.clone(),
            price_sale: self.price_sale,
            price_purchase: self.price_purchase,
            quantity: self.quantity,
            ean,
            created_at: self.created_at,
            updated_at: self.updated_at,
        }
    }
}

/// Copies of all the products of a list, in their order.
pub fn clone_products(products: &Vec<Product>) -> (copies: Vec<Product>)
    ensures
        copies@ == products@,
{
    let mut copies: Vec<Product> = Vec::new();
    for i in 0..products.len()
        invariant
            copies@ == products@.subrange(0, i as int),
    {
        copies.push(products[i].clone());
        assert(copies@ =~= products@.subrange(0, i + 1));
    }
    assert(copies@ =~= products@);
    copies
}

} // verus!
