use chrono::NaiveDateTime;
use vstd::prelude::*;
use crate::entities::views::LineView;

verus! {

/// Line row of a purchase posting: how much of one product was bought, and
/// at what unit price.
#[derive(Debug)]
pub struct ProductPurchase {
    pub id: i64,
    pub product_id: i64,
    pub purchase_id: i64,
    pub price: i64,
    pub quantity: i64,
    pub total: i64,
    pub created_at: NaiveDateTime,
    pub updated_at: Option<NaiveDateTime>,
}

impl View for ProductPurchase {
    type V = LineView;

    open spec fn view(&self) -> LineView {
        LineView {
            id: self.id as int,
            product_id: self.product_id as int,
            header_id: self.purchase_id as int,
            price: self.price as int,
            quantity: self.quantity as int,
            total: self.total as int,
            created_at: self.created_at,
            updated_at: self.updated_at,
        }
    }
}

impl ProductPurchase {
    /// A purchase line that has not been updated since it was created.
    pub fn new(
        id: i64,
        product_id: i64,
        purchase_id: i64,
        price: i64,
        quantity: i64,
        total: i64,
        created_at: NaiveDateTime,
    ) -> (line: Self)
        ensures
            line@ == (LineView {
                id: id as int,
                product_id: product_id as int,
                header_id: purchase_id as int,
                price: price as int,
                quantity: quantity as int,
                total: total as int,
                created_at,
                updated_at: None,
            }),
    {
        Self { id, product_id, purchase_id, price, quantity, total, created_at, updated_at: None }
    }
}

impl Clone for ProductPurchase {
    fn clone(&self) -> (copy: Self)
        ensures
            copy == *self,
    {
        Self {
            id: self.id,
            product_id: self.product_id,
            purchase_id: self.purchase_id,
            price: self.price,
            quantity: self.quantity,
            total: self.total,
            created_at: self.created_at,
            updated_at: self.updated_at,
        }
    }
}

} // verus!
