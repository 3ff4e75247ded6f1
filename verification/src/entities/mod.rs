pub mod product;
pub mod product_purchase;
pub mod product_sale;
pub mod purchase;
pub mod sale;
pub mod views;
