//! Mathematical models of the rows: what a row is, apart from how it is
//! held in memory. Contracts speak of rows through these.

use chrono::NaiveDateTime;
use vstd::prelude::*;

verus! {

/// `chrono::NaiveDateTime`, a date and time without a time zone. The library
/// carries such values through without looking inside them.
#[verifier::external_type_specification]
#[verifier::external_body]
pub struct ExNaiveDateTime(NaiveDateTime);

/// Model of a product row. An `id` of zero marks a product that no store
/// has taken in yet. Prices are in minor units.
pub struct ProductView {
    pub id: int,
    pub name: Seq<char>,
    pub price_sale: int,
    pub price_purchase: int,
    pub quantity: int,
    pub ean: Option<Seq<char>>,
    pub created_at: NaiveDateTime,
    pub updated_at: Option<NaiveDateTime>,
}

/// Model of a header row, one per posting: a purchase or a sale.
pub struct HeaderView {
    pub id: int,
    pub total: int,
    pub created_at: NaiveDateTime,
    pub updated_at: Option<NaiveDateTime>,
}

/// Model of a line row: one product's share of a posting, with the unit
/// price as it was when the posting was made.
pub struct LineView {
    pub id: int,
    pub product_id: int,
    pub header_id: int,
    pub price: int,
    pub quantity: int,
    pub total: int,
    pub created_at: NaiveDateTime,
    pub updated_at: Option<NaiveDateTime>,
}

} // verus!
