pub mod product_purchase_repository;
pub mod product_repository;
pub mod product_sale_repository;
pub mod purchase_repository;
pub mod sale_repository;
pub mod search;
