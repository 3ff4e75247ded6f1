use vstd::prelude::*;
use crate::entities::purchase::Purchase;
use crate::entities::views::HeaderView;
use crate::ledger::error::StorageError;
use crate::ledger::model::max_rows;
use crate::ledger::store::Ledger;

verus! {

/// Access to the table of purchase headers.
#[derive(Debug)]
pub struct PurchaseRepository;

/// The model of a header that may be absent.
pub open spec fn found_purchase(found: Option<Purchase>) -> Option<HeaderView> {
    match found {
        Some(row) => Some(row@),
        None => None,
    }
}

impl PurchaseRepository {
    pub fn new() -> (repository: Self)
        ensures
            repository == PurchaseRepository,
    {
        PurchaseRepository
    }

    /// Takes `purchase` in as a new row and returns the row's number. The
    /// number and the update stamp that `purchase` carries are not used.
    /// Fails, and changes nothing, only when the table cannot number
    /// another row.
    pub fn insert(executor: &mut Ledger, purchase: &Purchase) -> (result: Result<i64, StorageError>)
        ensures
            match result {
                Ok(id) => {
                    &&& old(executor)@.purchases.len() < max_rows()
                    &&& id == old(executor)@.purchases.len() + 1
                    &&& final(executor)@ == old(executor)@.with_purchase(purchase@)
                },
                Err(error) => {
                    &&& old(executor)@.purchases.len() >= max_rows()
                    &&& *final(executor) == *old(executor)
                    &&& error.message@ == "table is full"@
                },
            },
            old(executor).wf() ==> final(executor).wf(),
    {
        let count: u64 = executor.purchases.len() as u64;
        if count >= 0x7fff_ffff_ffff_ffff {
            return Err(StorageError::table_full());
        }
        let id: i64 = (count + 1) as i64;
        executor.purchases.push(Purchase::new(id, purchase.total, purchase.created_at));
        assert(executor@.purchases =~= old(executor)@.with_purchase(purchase@).purchases);
        Ok(id)
    }

    /// The header numbered `id`, if there is one.
    pub fn find_by_id(executor: &Ledger, id: i64) -> (result: Result<Option<Purchase>, StorageError>)
        ensures
            result matches Ok(found) && found_purchase(found) == (if 1 <= id
                <= executor@.purchases.len() {
                Some(executor@.purchases[id - 1])
            } else {
                None
            }),
    {
        if id >= 1 && (id as u64) <= executor.purchases.len() as u64 {
            Ok(Some(executor.purchases[(id - 1) as usize].clone()))
        } else {
            Ok(None)
        }
    }
}

} // verus!
