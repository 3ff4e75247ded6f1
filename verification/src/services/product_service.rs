use std::sync::Arc;
use vstd::prelude::*;
use crate::entities::product::Product;
use crate::ledger::store::{product_rows, Ledger};
use crate::repositories::product_repository::{ProductRepository, SEARCH_LIMIT};
use crate::repositories::search::{first_matches, name_matches};

verus! {

/// Looks products up for whoever picks them.
#[derive(Debug)]
pub struct ProductService {
    product_repository: Arc<ProductRepository>,
}

impl ProductService {
    /// The repository that the service was made with.
    pub closed spec fn repository(&self) -> Arc<ProductRepository> {
        self.product_repository
    }

    /// A service that looks products up through `product_repository`.
    pub fn new(product_repository: Arc<ProductRepository>) -> (service: Self)
        ensures
            service.repository() == product_repository,
    {
        ProductService { product_repository }
    }

    /// The products in stock whose name contains `name`, in the order of
    /// the table, the first ten of them at most. A search that the store
    /// fails gives no product.
    pub fn search_products_by_name(&self, ledger: &Ledger, name: &str) -> (found: Vec<Product>)
        ensures
            product_rows(found@) == first_matches(
                ledger@.products,
                name_matches(name@),
                SEARCH_LIMIT as int,
            ),
    {
        match ProductRepository::search_by_name(ledger, name) {
            Ok(found) => found,
            Err(_) => Vec::new(),
        }
    }
}

} // verus!
