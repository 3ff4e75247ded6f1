//! What a store reports when it cannot carry out a request.

use vstd::prelude::*;

verus! {

/// A failure of the store itself, with the store's own words.
#[derive(Debug)]
pub struct StorageError {
    pub message: String,
}

impl StorageError {
    /// The failure of a table that cannot number another row.
    pub fn table_full() -> (error: Self)
        ensures
            error.message@ == "table is full"@,
    {
        StorageError { message: "table is full".to_owned() }
    }
}

impl Clone for StorageError {
    fn clone(&self) -> (copy: Self)
        ensures
            copy == *self,
    {
        StorageError { message: self.message.clone() }
    }
}

} // verus!
