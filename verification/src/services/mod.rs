pub mod product_purchase_service;
pub mod product_sale_service;
pub mod product_service;
