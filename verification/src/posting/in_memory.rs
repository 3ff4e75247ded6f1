//! Posting to the ledger held in memory: the posting's requests are carried
//! out one by one on a copy of the ledger, and the copy takes the ledger's
//! place only when the posting is complete.

use chrono::NaiveDateTime;
use vstd::prelude::*;
use crate::entities::product::Product;
use crate::entities::views::ProductView;
use crate::ledger::error::StorageError;
use crate::ledger::model::{max_rows, LedgerView};
use crate::ledger::store::Ledger;
use crate::posting::error::{failure_of, PostingError};
use crate::posting::laws::{lemma_posting_keeps_stock_sound, lemma_valid_lines_are_positive};
use crate::posting::lemmas::{
    lemma_failure_stays, lemma_lines_fit_after_failure, lemma_lines_fit_at, lemma_lines_fit_step,
    lemma_lines_posted_shape, lemma_lines_posted_step, lemma_product_settled_shape,
};
use crate::posting::machine::{Posting, PostingView, Stage};
use crate::posting::protocol::{insert_header, insert_line, Request, RequestView, Response, ResponseView};
use crate::posting::rules::{
    ended_as, has_room, header_row, line_row, lines_fit, lines_posted, postable, posted,
    product_settled, restocked, Failure, PostingKind,
};
use crate::posting::totals::line_views;
use crate::repositories::product_purchase_repository::ProductPurchaseRepository;
use crate::repositories::product_repository::ProductRepository;
use crate::repositories::product_sale_repository::ProductSaleRepository;
use crate::repositories::purchase_repository::PurchaseRepository;
use crate::repositories::sale_repository::SaleRepository;

verus! {

/// What a table that cannot number another row reports.
pub open spec fn table_full() -> ResponseView {
    ResponseView::Failed("table is full"@)
}

impl LedgerView {
    /// The ledger's answer to a request made at `now`, and the ledger after
    /// it. A row is taken in under the next number of its table, unless the
    /// numbers have run out; a product is overwritten with `now` as the
    /// time of the update. Opening and closing a unit of work change
    /// nothing in the tables.
    pub open spec fn answer(self, request: RequestView, now: NaiveDateTime) -> (ResponseView, LedgerView) {
        match request {
            RequestView::InsertPurchase(header) => if self.purchases.len() < max_rows() {
                (ResponseView::Inserted(self.purchases.len() as int + 1), self.with_purchase(header))
            } else {
                (table_full(), self)
            },
            RequestView::InsertSale(header) => if self.sales.len() < max_rows() {
                (ResponseView::Inserted(self.sales.len() as int + 1), self.with_sale(header))
            } else {
                (table_full(), self)
            },
            RequestView::InsertProduct(product) => if self.products.len() < max_rows() {
                (ResponseView::Inserted(self.products.len() as int + 1), self.with_product(product))
            } else {
                (table_full(), self)
            },
            RequestView::FindProduct(id) => (ResponseView::Found(self.product(id)), self),
            RequestView::UpdateProduct(product) => (
                ResponseView::Done,
                self.with_product_updated(product, now),
            ),
            RequestView::InsertProductPurchase(line) => if self.purchase_lines.len() < max_rows() {
                (
                    ResponseView::Inserted(self.purchase_lines.len() as int + 1),
                    self.with_purchase_line(line),
                )
            } else {
                (table_full(), self)
            },
            RequestView::InsertProductSale(line) => if self.sale_lines.len() < max_rows() {
                (ResponseView::Inserted(self.sale_lines.len() as int + 1), self.with_sale_line(line))
            } else {
                (table_full(), self)
            },
            _ => (ResponseView::Done, self),
        }
    }
}

/// The response that tells of an insertion or of its failure.
fn inserted(result: Result<i64, StorageError>) -> (response: Response)
    ensures
        response@ == match result {
            Ok(id) => ResponseView::Inserted(id as int),
            Err(error) => ResponseView::Failed(error.message@),
        },
{
    match result {
        Ok(id) => Response::Inserted(id),
        Err(error) => Response::Failed(error.message),
    }
}

/// Carries out one request on the ledger and gives the ledger's answer.
pub fn carry_out(ledger: &mut Ledger, request: &Request, now: NaiveDateTime) -> (response: Response)
    ensures
        (response@, final(ledger)@) == old(ledger)@.answer(request@, now),
        old(ledger).wf() ==> final(ledger).wf(),
{
    match request {
        Request::InsertPurchase(header) => inserted(PurchaseRepository::insert(ledger, header)),
        Request::InsertSale(header) => inserted(SaleRepository::insert(ledger, header)),
        Request::InsertProduct(product) => inserted(ProductRepository::insert(ledger, product)),
        Request::FindProduct(id) => match ProductRepository::find_by_id(ledger, *id) {
            Ok(found) => Response::Found(found),
            Err(error) => Response::Failed(error.message),
        },
        Request::UpdateProduct(product) => match ProductRepository::update_at(ledger, product, now) {
            Ok(()) => Response::Done,
            Err(error) => Response::Failed(error.message),
        },
        Request::InsertProductPurchase(line) => inserted(ProductPurchaseRepository::insert(ledger, line)),
        Request::InsertProductSale(line) => inserted(ProductSaleRepository::insert(ledger, line)),
        _ => Response::Done,
    }
}

/// The ledger with the header of the posting taken in: what the lines are
/// posted on.
pub open spec fn with_posting_header(start: LedgerView, posting: PostingView) -> LedgerView {
    start.with_header(posting.kind, header_row(posting.kind, posting.lines, posting.now))
}

/// The number under which the header of a posting is taken in.
pub open spec fn header_number(start: LedgerView, kind: PostingKind) -> int {
    start.headers(kind).len() as int + 1
}

/// The ledger after the lines that the posting has done.
pub open spec fn lines_done(start: LedgerView, posting: PostingView) -> Result<LedgerView, Failure> {
    lines_posted(
        with_posting_header(start, posting),
        posting.kind,
        header_number(start, posting.kind),
        posting.lines.take(posting.position),
        posting.now,
    )
}

/// The posting, the request that is out and the working copy agree with
/// the rules: the copy holds what the rules say of the lines done so far,
/// the request is the one that the rules ask for next, and a posting that
/// is over has ended as the rules say of the whole batch.
pub open spec fn on_track(
    posting: PostingView,
    request: RequestView,
    start: LedgerView,
    work: LedgerView,
) -> bool {
    let kind = posting.kind;
    let line = posting.line();
    let number = header_number(start, kind);
    match posting.stage {
        Stage::Begin => request == RequestView::Begin && work == start,
        Stage::Header => {
            &&& request == insert_header(kind, header_row(kind, posting.lines, posting.now))
            &&& work == start
        },
        Stage::Insert => {
            &&& posting.header_id == number
            &&& lines_done(start, posting) == Ok::<LedgerView, Failure>(work)
            &&& request == RequestView::InsertProduct(line)
        },
        Stage::Find => {
            &&& posting.header_id == number
            &&& lines_done(start, posting) == Ok::<LedgerView, Failure>(work)
            &&& request == RequestView::FindProduct(line.id)
        },
        Stage::Update => {
            &&& posting.header_id == number
            &&& lines_done(start, posting) == Ok::<LedgerView, Failure>(work)
            &&& work.has_product(line.id)
            &&& !(kind is Sale && work.stock(line.id) < line.quantity)
            &&& request == RequestView::UpdateProduct(restocked(kind, line, work.products[line.id - 1]))
        },
        Stage::Line => {
            &&& posting.header_id == number
            &&& lines_done(start, posting) matches Ok(before)
            &&& product_settled(before, kind, line, posting.now) matches Ok(settled)
            &&& settled.0 == work
            &&& request == insert_line(kind, line_row(kind, settled.1, number, line, posting.now))
        },
        Stage::Commit => {
            &&& lines_done(start, posting) == Ok::<LedgerView, Failure>(work)
            &&& request == RequestView::Commit
        },
        Stage::Closed => match request {
            RequestView::Complete => posted(start, kind, posting.lines, posting.now) == Ok::<
                LedgerView,
                Failure,
            >(work),
            RequestView::Abort(failure) => posted(start, kind, posting.lines, posting.now) == Err::<
                LedgerView,
                Failure,
            >(failure),
            _ => false,
        },
    }
}

/// A bound on the requests that a posting has yet to make.
pub open spec fn requests_left(posting: PostingView) -> int {
    let lines_left = posting.lines.len() - posting.position;
    match posting.stage {
        Stage::Begin => 4 * lines_left + 6,
        Stage::Header => 4 * lines_left + 5,
        Stage::Insert | Stage::Find => 4 * lines_left + 3,
        Stage::Update => 4 * lines_left + 2,
        Stage::Line => 4 * lines_left + 1,
        Stage::Commit => 2,
        Stage::Closed => 0,
    }
}

/// How many of the lines have been looked at for whether the quantity
/// that they leave on hand can be held.
pub open spec fn lines_weighed(posting: PostingView) -> int {
    match posting.stage {
        Stage::Begin | Stage::Header => 0,
        Stage::Insert | Stage::Find => posting.position,
        Stage::Update | Stage::Line => posting.position + 1,
        Stage::Commit | Stage::Closed => posting.lines.len() as int,
    }
}

/// The quantities that the lines leave on hand can be held, as far as the
/// posting has looked at the lines.
pub open spec fn fit_so_far(posting: PostingView, start: LedgerView) -> bool {
    lines_fit(
        with_posting_header(start, posting),
        posting.kind,
        header_number(start, posting.kind),
        posting.lines.take(lines_weighed(posting)),
        posting.now,
    )
}

/// One request further, the posting is still on track: the posting's next
/// request is again the one that the rules ask for. The ledger's answer is
/// one that the posting can take, unless it shows a product whose stock a
/// purchase would raise beyond what can be held; then the batch cannot be
/// posted at all.
pub proof fn lemma_stays_on_track(
    posting: PostingView,
    request: RequestView,
    start: LedgerView,
    work: LedgerView,
)
    requires
        posting.wf(),
        start.wf(),
        work.wf(),
        has_room(start, posting.kind, posting.lines),
        on_track(posting, request, start, work),
        fit_so_far(posting, start),
        !(posting.stage is Closed),
    ensures
        ({
            let (response, answered) = work.answer(request, posting.now);
            let (next_posting, next_request) = posting.next(response);
            &&& on_track(next_posting, next_request, start, answered)
            &&& 0 <= requests_left(next_posting) < requests_left(posting)
            &&& posting.accepts(response) ==> fit_so_far(next_posting, start)
            &&& !posting.accepts(response) ==> !lines_fit(
                with_posting_header(start, posting),
                posting.kind,
                header_number(start, posting.kind),
                posting.lines,
                posting.now,
            )
        }),
{
    let kind = posting.kind;
    let lines = posting.lines;
    let now = posting.now;
    let at = posting.position;
    let base = with_posting_header(start, posting);
    let number = header_number(start, kind);
    let (response, answered) = work.answer(request, now);
    let (next_posting, next_request) = posting.next(response);
    match posting.stage {
        Stage::Begin => {},
        Stage::Header => {
            assert(lines.take(0) =~= Seq::<ProductView>::empty());
            assert(lines_done(start, next_posting) == Ok::<LedgerView, Failure>(answered));
        },
        Stage::Insert => {
            lemma_lines_posted_shape(base, kind, number, lines.take(at), now);
            lemma_lines_fit_step(base, kind, number, lines, now, at);
        },
        Stage::Find => {
            lemma_lines_fit_step(base, kind, number, lines, now, at);
            lemma_lines_posted_step(base, kind, number, lines, now, at);
            if !posting.accepts(response) {
                if lines_fit(base, kind, number, lines, now) {
                    lemma_lines_fit_at(base, kind, number, lines, now, at);
                }
            } else if next_posting.stage is Closed {
                lemma_failure_stays(base, kind, number, lines, now, at + 1);
                lemma_lines_fit_after_failure(base, kind, number, lines, now, at + 1);
                assert(lines.take(lines.len() as int) =~= lines);
            }
        },
        Stage::Update => {},
        Stage::Line => {
            let before = lines_done(start, posting)->Ok_0;
            lemma_lines_posted_shape(base, kind, number, lines.take(at), now);
            lemma_product_settled_shape(before, kind, posting.line(), now);
            lemma_lines_posted_step(base, kind, number, lines, now, at);
            if at + 1 == lines.len() {
                assert(lines.take(at + 1) =~= lines);
            }
        },
        Stage::Commit => {
            assert(lines.take(at) =~= lines);
        },
        Stage::Closed => {},
    }
}

/// Whether the tables have room for a posting of `lines`.
pub fn has_room_for(ledger: &Ledger, kind: PostingKind, lines: &Vec<Product>) -> (room: bool)
    ensures
        room == has_room(ledger@, kind, line_views(lines@)),
{
    let most: u128 = 0x7fff_ffff_ffff_ffff;
    let count = lines.len() as u128;
    let (headers, rows) = match kind {
        PostingKind::Purchase => (ledger.purchases.len(), ledger.product_purchases.len()),
        PostingKind::Sale => (ledger.sales.len(), ledger.product_sales.len()),
    };
    (headers as u128) < most && ledger.products.len() as u128 + count <= most && rows as u128 + count
        <= most
}

/// Posts `lines` to the ledger as one purchase or one sale made at `now`,
/// if the batch can be posted at all. It cannot if a line is not valid (no
/// quantity above zero, or a negative price), or if the machine cannot
/// hold what the posting computes; then nothing is given and the ledger is
/// left as it was.
///
/// A batch that can be posted either is posted as a whole, or the ledger
/// is left as it was and the error tells why: a line names a product that
/// is not on record, or a sale asks for more than is on hand.
pub fn try_post(ledger: &mut Ledger, kind: PostingKind, lines: Vec<Product>, now: NaiveDateTime) -> (result:
    Option<Result<(), PostingError>>)
    requires
        old(ledger).wf(),
    ensures
        final(ledger).wf(),
        result is Some == postable(old(ledger)@, kind, line_views(lines@), now),
        result matches Some(ended) ==> ended_as(
            old(ledger)@,
            kind,
            line_views(lines@),
            now,
            failure_of(ended),
            final(ledger)@,
        ),
        !(result matches Some(Ok(_))) ==> *final(ledger) == *old(ledger),
        old(ledger)@.stock_is_sound() ==> final(ledger)@.stock_is_sound(),
{
    let ghost start = ledger@;
    let ghost views = line_views(lines@);
    if !Posting::admits(kind, &lines) || !has_room_for(ledger, kind, &lines) {
        return None;
    }
    let mut work = ledger.clone();
    let (mut posting, mut request) = Posting::begin(kind, lines, now);
    assert(views.take(0) =~= Seq::<ProductView>::empty());
    loop
        invariant
            *ledger == *old(ledger),
            start == ledger@,
            views == line_views(lines@),
            start.wf(),
            work.wf(),
            posting@.wf(),
            posting@.kind == kind,
            posting@.lines == views,
            posting@.now == now,
            has_room(start, kind, views),
            on_track(posting@, request@, start, work@),
            fit_so_far(posting@, start),
        decreases requests_left(posting@) + (if posting@.stage is Closed { 0int } else { 1int }),
    {
        match &request {
            Request::Abort(error) => {
                assert(views.take(views.len() as int) =~= views);
                return Some(Err(error.clone()));
            },
            Request::Complete => {
                proof {
                    assert(views.take(views.len() as int) =~= views);
                    if start.stock_is_sound() {
                        lemma_valid_lines_are_positive(views);
                        lemma_posting_keeps_stock_sound(start, kind, views, now);
                    }
                }
                *ledger = work;
                return Some(Ok(()));
            },
            _ => {},
        }
        proof {
            lemma_stays_on_track(posting@, request@, start, work@);
        }
        let response = carry_out(&mut work, &request, now);
        if !posting.accepts(&response) {
            return None;
        }
        request = posting.step(response);
    }
}

/// Posts `lines` to the ledger as one purchase or one sale made at `now`.
/// The lines must be valid and the machine must be able to hold what the
/// posting computes.
///
/// Either the whole batch is posted, or the ledger is left as it was and
/// the error tells why: a line names a product that is not on record, or a
/// sale asks for more than is on hand.
pub fn post(ledger: &mut Ledger, kind: PostingKind, lines: Vec<Product>, now: NaiveDateTime) -> (result:
    Result<(), PostingError>)
    requires
        old(ledger).wf(),
        postable(old(ledger)@, kind, line_views(lines@), now),
    ensures
        final(ledger).wf(),
        ended_as(old(ledger)@, kind, line_views(lines@), now, failure_of(result), final(ledger)@),
        result is Err ==> *final(ledger) == *old(ledger),
        old(ledger)@.stock_is_sound() ==> final(ledger)@.stock_is_sound(),
{
    try_post(ledger, kind, lines, now).unwrap()
}

} // verus!
