use vstd::prelude::*;
use crate::entities::product_sale::ProductSale;
use crate::ledger::error::StorageError;
use crate::ledger::model::max_rows;
use crate::ledger::store::Ledger;

verus! {

/// Access to the table of sale lines.
#[derive(Debug)]
pub struct ProductSaleRepository;

impl ProductSaleRepository {
    pub fn new() -> (repository: Self)
        ensures
            repository == ProductSaleRepository,
    {
        ProductSaleRepository
    }

    /// Takes `product_sale` in as a new row and returns the row's
    /// number. The number and the update stamp that it carries are not
    /// used. Fails, and changes nothing, only when the table cannot number
    /// another row.
    pub fn insert(executor: &mut Ledger, product_sale: &ProductSale) -> (result: Result<
        i64,
        StorageError,
    >)
        ensures
            match result {
                Ok(id) => {
                    &&& old(executor)@.sale_lines.len() < max_rows()
                    &&& id == old(executor)@.sale_lines.len() + 1
                    &&& final(executor)@ == old(executor)@.with_sale_line(product_sale@)
                },
                Err(error) => {
                    &&& old(executor)@.sale_lines.len() >= max_rows()
                    &&& *final(executor) == *old(executor)
                    &&& error.message@ == "table is full"@
                },
            },
            old(executor).wf() ==> final(executor).wf(),
    {
        let count: u64 = executor.product_sales.len() as u64;
        if count >= 0x7fff_ffff_ffff_ffff {
            return Err(StorageError::table_full());
        }
        let id: i64 = (count + 1) as i64;
        executor.product_sales.push(
            ProductSale::new(
                id,
                product_sale.product_id,
                product_sale.sale_id,
                product_sale.price,
                product_sale.quantity,
                product_sale.total,
                product_sale.created_at,
            ),
        );
        assert(executor@.sale_lines =~= old(executor)@.with_sale_line(
            product_sale@,
        ).sale_lines);
        Ok(id)
    }
}

} // verus!
