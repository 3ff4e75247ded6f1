use chrono::NaiveDateTime;
use vstd::prelude::*;
use crate::entities::views::HeaderView;

verus! {

/// Header row of one sale posting.
#[derive(Debug)]
pub struct Sale {
    pub id: i64,
    pub total: i64,
    pub created_at: NaiveDateTime,
    pub updated_at: Option<NaiveDateTime>,
}

impl View for Sale {
    type V = HeaderView;

    open spec fn view(&self) -> HeaderView {
        HeaderView {
            id: self.id as int,
            total: self.total as int,
            created_at: self.created_at,
            updated_at: self.updated_at,
        }
    }
}

impl Sale {
    /// A sale header that has not been updated since it was created.
    pub fn new(id: i64, total: i64, created_at: NaiveDateTime) -> (sale: Self)
        ensures
            sale@ == (HeaderView { id: id as int, total: total as int, created_at, updated_at: None }),
    {
        Self { id, total, created_at, updated_at: None }
    }
}

impl Clone for Sale {
    fn clone(&self) -> (copy: Self)
        ensures
            copy == *self,
    {
        Self {
            id: self.id,
            total: self.total,
            created_at: self.created_at,
            updated_at: self.updated_at,
        }
    }
}

} // verus!
