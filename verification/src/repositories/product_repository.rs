use chrono::NaiveDateTime;
use vstd::prelude::*;
use crate::entities::product::Product;
use crate::entities::views::ProductView;
use crate::ledger::error::StorageError;
use crate::ledger::model::max_rows;
use crate::clock::now;
use crate::helpers::validation::characters;
use crate::ledger::store::{product_rows, Ledger};
use crate::repositories::search::{
    ean_matches, first_matches, lemma_matches_next, lemma_matches_so_far, name_matches, text_contains,
};

verus! {

/// The most rows that a search gives.
pub const SEARCH_LIMIT: usize = 10;

/// Access to the table of products.
#[derive(Debug)]
pub struct ProductRepository;

/// The model of a product that may be absent.
pub open spec fn found_product(found: Option<Product>) -> Option<ProductView> {
    match found {
        Some(row) => Some(row@),
        None => None,
    }
}

impl ProductRepository {
    pub fn new() -> (repository: Self)
        ensures
            repository == ProductRepository,
    {
        ProductRepository
    }

    /// Takes `product` in as a new row and returns the row's number. The
    /// number and the update stamp that `product` carries are not used.
    /// Fails, and changes nothing, only when the table cannot number
    /// another row.
    pub fn insert(executor: &mut Ledger, product: &Product) -> (result: Result<i64, StorageError>)
        ensures
            match result {
                Ok(id) => {
                    &&& old(executor)@.products.len() < max_rows()
                    &&& id == old(executor)@.products.len() + 1
                    &&& final(executor)@ == old(executor)@.with_product(product@)
                },
                Err(error) => {
                    &&& old(executor)@.products.len() >= max_rows()
                    &&& *final(executor) == *old(executor)
                    &&& error.message@ == "table is full"@
                },
            },
            old(executor).wf() ==> final(executor).wf(),
    {
        let count: u64 = executor.products.len() as u64;
        if count >= 0x7fff_ffff_ffff_ffff {
            return Err(StorageError::table_full());
        }
        let id: i64 = (count + 1) as i64;
        let mut row = product.clone();
        row.id = id;
        row.updated_at = None;
        executor.products.push(row);
        assert(executor@.products =~= old(executor)@.with_product(product@).products);
        Ok(id)
    }

    /// Overwrites the row numbered `product.id` with `product` and stamps
    /// it as updated at `updated_at`; the row keeps its time of creation.
    /// Changes nothing if there is no such row.
    pub fn update_at(executor: &mut Ledger, product: &Product, updated_at: NaiveDateTime) -> (result:
        Result<(), StorageError>)
        ensures
            result is Ok,
            final(executor)@ == old(executor)@.with_product_updated(product@, updated_at),
            old(executor).wf() ==> final(executor).wf(),
    {
        if product.id >= 1 && (product.id as u64) <= executor.products.len() as u64 {
            let place: usize = (product.id - 1) as usize;
            let mut row = product.clone();
            row.created_at = executor.products[place].created_at;
            row.updated_at = Some(updated_at);
            executor.products.set(place, row);
            assert(executor@.products =~= old(executor)@.with_product_updated(
                product@,
                updated_at,
            ).products);
        }
        Ok(())
    }

    /// Overwrites the row numbered `product.id` with `product` and stamps
    /// it as updated at the time of the call, whatever the clock says then;
    /// the row keeps its time of creation. Changes nothing if there is no
    /// such row.
    pub fn update(executor: &mut Ledger, product: &Product) -> (result: Result<(), StorageError>)
        ensures
            result is Ok,
            exists|stamp: NaiveDateTime|
                final(executor)@ == #[trigger] old(executor)@.with_product_updated(product@, stamp),
            old(executor).wf() ==> final(executor).wf(),
    {
        let stamp = now();
        ProductRepository::update_at(executor, product, stamp)
    }

    /// The product numbered `id`, if there is one.
    pub fn find_by_id(executor: &Ledger, id: i64) -> (result: Result<Option<Product>, StorageError>)
        ensures
            result matches Ok(found) && found_product(found) == executor@.product(id as int),
    {
        if id >= 1 && (id as u64) <= executor.products.len() as u64 {
            Ok(Some(executor.products[(id - 1) as usize].clone()))
        } else {
            Ok(None)
        }
    }

    /// The products in stock whose name contains `name`, in the order of
    /// the table, the first ten of them at most.
    pub fn search_by_name(executor: &Ledger, name: &str) -> (result: Result<Vec<Product>, StorageError>)
        ensures
            result matches Ok(found) && product_rows(found@) == first_matches(
                executor@.products,
                name_matches(name@),
                SEARCH_LIMIT as int,
            ),
    {
        let needle = characters(name);
        let ghost rows = executor@.products;
        let ghost wanted = name_matches(name@);
        let mut found: Vec<Product> = Vec::new();
        let mut seen: usize = 0;
        while seen < executor.products.len() && found.len() < SEARCH_LIMIT
            invariant
                seen <= executor.products.len(),
                rows == executor@.products,
                wanted == name_matches(name@),
                needle@ == name@,
                found.len() <= SEARCH_LIMIT,
                product_rows(found@) == rows.take(seen as int).filter(wanted),
            decreases executor.products.len() - seen,
        {
            let row = &executor.products[seen];
            proof {
                lemma_matches_next(rows, wanted, seen as int);
            }
            let hay = characters(row.name.as_str());
            if row.quantity > 0 && text_contains(&hay, &needle) {
                found.push(row.clone());
                assert(product_rows(found@) =~= rows.take(seen as int).filter(wanted).push(row@));
            }
            seen += 1;
        }
        proof {
            lemma_matches_so_far(rows, wanted, seen as int);
            if seen == executor.products.len() {
                assert(rows.take(seen as int) =~= rows);
            }
        }
        Ok(found)
    }

    /// The products whose barcode is `ean`, in the order of the table, the
    /// first ten of them at most.
    pub fn search_by_ean(executor: &Ledger, ean: &str) -> (result: Result<Vec<Product>, StorageError>)
        ensures
            result matches Ok(found) && product_rows(found@) == first_matches(
                executor@.products,
                ean_matches(ean@),
                SEARCH_LIMIT as int,
            ),
    {
        let needle = ean.to_owned();
        let ghost rows = executor@.products;
        let ghost wanted = ean_matches(ean@);
        let mut found: Vec<Product> = Vec::new();
        let mut seen: usize = 0;
        while seen < executor.products.len() && found.len() < SEARCH_LIMIT
            invariant
                seen <= executor.products.len(),
                rows == executor@.products,
                wanted == ean_matches(ean@),
                needle@ == ean@,
                found.len() <= SEARCH_LIMIT,
                product_rows(found@) == rows.take(seen as int).filter(wanted),
            decreases executor.products.len() - seen,
        {
            let row = &executor.products[seen];
            proof {
                lemma_matches_next(rows, wanted, seen as int);
            }
            let matches = match &row.ean {
                Some(code) => *code == needle,
                None => false,
            };
            if matches {
                found.push(row.clone());
                assert(product_rows(found@) =~= rows.take(seen as int).filter(wanted).push(row@));
            }
            seen += 1;
        }
        proof {
            lemma_matches_so_far(rows, wanted, seen as int);
            if seen == executor.products.len() {
                assert(rows.take(seen as int) =~= rows);
            }
        }
        Ok(found)
    }
}

} // verus!
