use vstd::prelude::*;
use crate::entities::sale::Sale;
use crate::entities::views::HeaderView;
use crate::ledger::error::StorageError;
use crate::ledger::model::max_rows;
use crate::ledger::store::Ledger;

verus! {

/// Access to the table of sale headers.
#[derive(Debug)]
pub struct SaleRepository;

/// The model of a header that may be absent.
pub open spec fn found_sale(found: Option<Sale>) -> Option<HeaderView> {
    match found {
        Some(row) => Some(row@),
        None => None,
    }
}

impl SaleRepository {
    pub fn new() -> (repository: Self)
        ensures
            repository == SaleRepository,
    {
        SaleRepository
    }

    /// Takes `sale` in as a new row and returns the row's number. The
    /// number and the update stamp that `sale` carries are not used.
    /// Fails, and changes nothing, only when the table cannot number
    /// another row.
    pub fn insert(executor: &mut Ledger, sale: &Sale) -> (result: Result<i64, StorageError>)
        ensures
            match result {
                Ok(id) => {
                    &&& old(executor)@.sales.len() < max_rows()
                    &&& id == old(executor)@.sales.len() + 1
                    &&& final(executor)@ == old(executor)@.with_sale(sale@)
                },
                Err(error) => {
                    &&& old(executor)@.sales.len() >= max_rows()
                    &&& *final(executor) == *old(executor)
                    &&& error.message@ == "table is full"@
                },
            },
            old(executor).wf() ==> final(executor).wf(),
    {
        let count: u64 = executor.sales.len() as u64;
        if count >= 0x7fff_ffff_ffff_ffff {
            return Err(StorageError::table_full());
        }
        let id: i64 = (count + 1) as i64;
        executor.sales.push(Sale::new(id, sale.total, sale.created_at));
        assert(executor@.sales =~= old(executor)@.with_sale(sale@).sales);
        Ok(id)
    }

    /// The header numbered `id`, if there is one.
    pub fn find_by_id(executor: &Ledger, id: i64) -> (result: Result<Option<Sale>, StorageError>)
        ensures
            result matches Ok(found) && found_sale(found) == (if 1 <= id
                <= executor@.sales.len() {
                Some(executor@.sales[id - 1])
            } else {
                None
            }),
    {
        if id >= 1 && (id as u64) <= executor.sales.len() as u64 {
            Ok(Some(executor.sales[(id - 1) as usize].clone()))
        } else {
            Ok(None)
        }
    }
}

} // verus!
