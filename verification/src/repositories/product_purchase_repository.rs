use vstd::prelude::*;
use crate::entities::product_purchase::ProductPurchase;
use crate::ledger::error::StorageError;
use crate::ledger::model::max_rows;
use crate::ledger::store::Ledger;

verus! {

/// Access to the table of purchase lines.
#[derive(Debug)]
pub struct ProductPurchaseRepository;

impl ProductPurchaseRepository {
    pub fn new() -> (repository: Self)
        ensures
            repository == ProductPurchaseRepository,
    {
        ProductPurchaseRepository
    }

    /// Takes `product_purchase` in as a new row and returns the row's
    /// number. The number and the update stamp that it carries are not
    /// used. Fails, and changes nothing, only when the table cannot number
    /// another row.
    pub fn insert(executor: &mut Ledger, product_purchase: &ProductPurchase) -> (result: Result<
        i64,
        StorageError,
    >)
        ensures
            match result {
                Ok(id) => {
                    &&& old(executor)@.purchase_lines.len() < max_rows()
                    &&& id == old(executor)@.purchase_lines.len() + 1
                    &&& final(executor)@ == old(executor)@.with_purchase_line(product_purchase@)
                },
                Err(error) => {
                    &&& old(executor)@.purchase_lines.len() >= max_rows()
                    &&& *final(executor) == *old(executor)
                    &&& error.message@ == "table is full"@
                },
            },
            old(executor).wf() ==> final(executor).wf(),
    {
        let count: u64 = executor.product_purchases.len() as u64;
        if count >= 0x7fff_ffff_ffff_ffff {
            return Err(StorageError::table_full());
        }
        let id: i64 = (count + 1) as i64;
        executor.product_purchases.push(
            ProductPurchase::new(
                id,
                product_purchase.product_id,
                product_purchase.purchase_id,
                product_purchase.price,
                product_purchase.quantity,
                product_purchase.total,
                product_purchase.created_at,
            ),
        );
        assert(executor@.purchase_lines =~= old(executor)@.with_purchase_line(
            product_purchase@,
        ).purchase_lines);
        Ok(id)
    }
}

} // verus!
