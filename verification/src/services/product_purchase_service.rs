use chrono::NaiveDateTime;
use vstd::prelude::*;
use crate::clock::now;
use crate::entities::product::{clone_products, Product};
use crate::ledger::model::LedgerView;
use crate::ledger::store::Ledger;
use crate::posting::error::{failure_of, PostingError};
use crate::posting::in_memory::{post, try_post};
use crate::posting::lemmas::lemma_postable_at_any_time;
use crate::posting::rules::{ended_as, postable, PostingKind};
use crate::posting::totals::line_views;

verus! {

/// Posts purchases to the ledger that it was made with.
#[derive(Debug)]
pub struct ProductPurchaseService {
    ledger: Ledger,
}

impl View for ProductPurchaseService {
    type V = LedgerView;

    closed spec fn view(&self) -> LedgerView {
        self.ledger@
    }
}

impl ProductPurchaseService {
    /// A service that posts to `ledger`.
    pub fn new(ledger: Ledger) -> (service: Self)
        ensures
            service@ == ledger@,
    {
        ProductPurchaseService { ledger }
    }

    /// The ledger as the postings so far have left it.
    pub fn ledger(&self) -> (ledger: &Ledger)
        ensures
            ledger@ == self@,
    {
        &self.ledger
    }

    /// Whether `products` can be posted as one purchase made at `now`: whether
    /// the lines are valid and the machine can hold what the posting
    /// computes.
    pub fn admits(&self, products: &Vec<Product>, now: NaiveDateTime) -> (admitted: bool)
        requires
            self@.wf(),
        ensures
            admitted == postable(self@, PostingKind::Purchase, line_views(products@), now),
    {
        let mut trial = self.ledger.clone();
        try_post(&mut trial, PostingKind::Purchase, clone_products(products), now).is_some()
    }

    /// Posts `products` as one purchase made at `now`: a header with the
    /// batch's amount at purchase prices, and for each line the stock taken
    /// in and a line row. Either all of it is kept or none.
    pub fn add_purchase_at(&mut self, products: Vec<Product>, now: NaiveDateTime) -> (result: Result<
        (),
        PostingError,
    >)
        requires
            old(self)@.wf(),
            postable(old(self)@, PostingKind::Purchase, line_views(products@), now),
        ensures
            final(self)@.wf(),
            old(self)@.stock_is_sound() ==> final(self)@.stock_is_sound(),
            ended_as(
                old(self)@,
                PostingKind::Purchase,
                line_views(products@),
                now,
                failure_of(result),
                final(self)@,
            ),
    {
        post(&mut self.ledger, PostingKind::Purchase, products, now)
    }

    /// Posts `products` as one purchase made at the time of the call,
    /// whatever the clock says then.
    pub fn add_purchase(&mut self, products: Vec<Product>) -> (result: Result<(), PostingError>)
        requires
            old(self)@.wf(),
            exists|now: NaiveDateTime|
                postable(old(self)@, PostingKind::Purchase, line_views(products@), now),
        ensures
            final(self)@.wf(),
            old(self)@.stock_is_sound() ==> final(self)@.stock_is_sound(),
            exists|now: NaiveDateTime|
                ended_as(
                    old(self)@,
                    PostingKind::Purchase,
                    line_views(products@),
                    now,
                    failure_of(result),
                    final(self)@,
                ),
    {
        let time = now();
        proof {
            let once = choose|once: NaiveDateTime|
                postable(self@, PostingKind::Purchase, line_views(products@), once);
            lemma_postable_at_any_time(self@, PostingKind::Purchase, line_views(products@), once, time);
        }
        self.add_purchase_at(products, time)
    }
}

} // verus!
