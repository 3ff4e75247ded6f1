use chrono::NaiveDateTime;
use vstd::prelude::*;
use crate::entities::views::LineView;

verus! {

/// Line row of a sale posting: how much of one product was sold, and
/// at what unit price.
#[derive(Debug)]
pub struct ProductSale {
    pub id: i64,
    pub product_id: i64,
    pub sale_id: i64,
    pub price: i64,
    pub quantity: i64,
    pub total: i64,
    pub created_at: NaiveDateTime,
    pub updated_at: Option<NaiveDateTime>,
}

impl View for ProductSale {
    type V = LineView;

    open spec fn view(&self) -> LineView {
        LineView {
            id: self.id as int,
            product_id: self.product_id as int,
            header_id: self.sale_id as int,
            price: self.price as int,
            quantity: self.quantity as int,
            total: self.total as int,
            created_at: self.created_at,
            updated_at: self.updated_at,
        }
    }
}

impl ProductSale {
    /// A sale line that has not been updated since it was created.
    pub fn new(
        id: i64,
        product_id: i64,
        sale_id: i64,
        price: i64,
        quantity: i64,
        total: i64,
        created_at: NaiveDateTime,
    ) -> (line: Self)
        ensures
            line@ == (LineView {
                id: id as int,
                product_id: product_id as int,
                header_id: sale_id as int,
                price: price as int,
                quantity: quantity as int,
                total: total as int,
                created_at,
                updated_at: None,
            }),
    {
        Self { id, product_id, sale_id, price, quantity, total, created_at, updated_at: None }
    }
}

impl Clone for ProductSale {
    fn clone(&self) -> (copy: Self)
        ensures
            copy == *self,
    {
        Self {
            id: self.id,
            product_id: self.product_id,
            sale_id: self.sale_id,
            price: self.price,
            quantity: self.quantity,
            total: self.total,
            created_at: self.created_at,
            updated_at: self.updated_at,
        }
    }
}

} // verus!
