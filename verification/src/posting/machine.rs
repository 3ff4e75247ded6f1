//! A posting as a sequence of requests to a store. The posting decides; the
//! store is asked one thing at a time, and each answer leads to the next
//! request. Nothing here touches a store: whoever holds one carries the
//! requests out.

use chrono::NaiveDateTime;
use vstd::prelude::*;
use crate::entities::product::Product;
use crate::entities::product_purchase::ProductPurchase;
use crate::entities::product_sale::ProductSale;
use crate::entities::purchase::Purchase;
use crate::entities::sale::Sale;
use crate::entities::views::ProductView;
use crate::posting::error::PostingError;
use crate::posting::protocol::{insert_header, insert_line, Request, RequestView, Response, ResponseView};
use crate::posting::rules::{
    batch_total, fits, header_row, line_row, restocked, valid_line, valid_lines, Failure,
    PostingKind,
};
use crate::posting::totals::{
    is_valid_line, lemma_line_total_bounded, line_views, price_of, total_of,
};

verus! {

/// Where a posting stands: which answer it is waiting for.
#[derive(Debug, Clone, Copy)]
pub enum Stage {
    /// Waiting for the unit of work to be opened.
    Begin,
    /// Waiting for the header's number.
    Header,
    /// Waiting for the number of the current line's new product.
    Insert,
    /// Waiting for the product that the current line names.
    Find,
    /// Waiting for the current line's product to be overwritten.
    Update,
    /// Waiting for the number of the current line's row.
    Line,
    /// Waiting for the unit of work to be made lasting.
    Commit,
    /// Over: the last request was `Complete` or `Abort`.
    Closed,
}

/// Model of a posting under way.
pub struct PostingView {
    pub kind: PostingKind,
    pub lines: Seq<ProductView>,
    pub now: NaiveDateTime,
    pub stage: Stage,
    /// How many lines are done.
    pub position: int,
    /// The header's number, once the store has given it.
    pub header_id: int,
}

impl PostingView {
    /// The line that the posting is at.
    pub open spec fn line(self) -> ProductView {
        self.lines[self.position]
    }

    /// The lines are valid and their amount can be held; the posting is at
    /// a line whenever it waits for something about one, and at a line of
    /// the right sort: a new product is taken in, a known one looked up.
    pub open spec fn wf(self) -> bool {
        &&& valid_lines(self.lines)
        &&& fits(batch_total(self.kind, self.lines))
        &&& fits(self.header_id)
        &&& 0 <= self.position <= self.lines.len()
        &&& match self.stage {
            Stage::Begin | Stage::Header => self.position == 0,
            Stage::Insert => self.position < self.lines.len() && self.line().id == 0,
            Stage::Find | Stage::Update => self.position < self.lines.len() && self.line().id != 0,
            Stage::Line => self.position < self.lines.len(),
            Stage::Commit => self.position == self.lines.len(),
            Stage::Closed => true,
        }
    }

    /// Whether `response` is an answer that the posting can take: one to
    /// the request that is out, or a failure of the store. A product that
    /// was found must leave a quantity that can be held when the line's
    /// quantity is added to it.
    pub open spec fn accepts(self, response: ResponseView) -> bool {
        match response {
            ResponseView::Failed(_) => !(self.stage is Closed),
            ResponseView::Done => self.stage is Begin || self.stage is Update || self.stage is Commit,
            ResponseView::Inserted(_) => self.stage is Header || self.stage is Insert
                || self.stage is Line,
            ResponseView::Found(found) => {
                &&& self.stage is Find
                &&& (self.kind is Purchase && found is Some) ==> fits(
                    found->Some_0.quantity + self.line().quantity,
                )
            },
        }
    }

    /// The posting stopped for `failure`.
    pub open spec fn stopped(self, failure: Failure) -> (PostingView, RequestView) {
        (PostingView { stage: Stage::Closed, ..self }, RequestView::Abort(failure))
    }

    /// The posting turned to the line at its position: a new product is
    /// to be taken in, a known one to be looked up; after the last line the
    /// unit of work is to be made lasting.
    pub open spec fn turned(self) -> (PostingView, RequestView) {
        if self.position >= self.lines.len() {
            (PostingView { stage: Stage::Commit, ..self }, RequestView::Commit)
        } else if self.line().id == 0 {
            (PostingView { stage: Stage::Insert, ..self }, RequestView::InsertProduct(self.line()))
        } else {
            (PostingView { stage: Stage::Find, ..self }, RequestView::FindProduct(self.line().id))
        }
    }

    /// The posting after `response`, and the request that it makes then.
    ///
    /// Any failure of the store ends the posting. Otherwise the header is
    /// taken in first, with the amount of the whole batch. Then each line
    /// in turn: its product is taken in, or looked up and overwritten with
    /// the adjusted quantity, and its row is taken in under the header and
    /// the product. A product that is not on record, or a sale of more
    /// than is on hand, ends the posting. After the last line the unit of
    /// work is made lasting.
    pub open spec fn next(self, response: ResponseView) -> (PostingView, RequestView) {
        match response {
            ResponseView::Failed(message) => self.stopped(Failure::Storage(message)),
            ResponseView::Done => match self.stage {
                Stage::Begin => (
                    PostingView { stage: Stage::Header, ..self },
                    insert_header(self.kind, header_row(self.kind, self.lines, self.now)),
                ),
                Stage::Update => (
                    PostingView { stage: Stage::Line, ..self },
                    insert_line(
                        self.kind,
                        line_row(self.kind, self.line().id, self.header_id, self.line(), self.now),
                    ),
                ),
                _ => (PostingView { stage: Stage::Closed, ..self }, RequestView::Complete),
            },
            ResponseView::Inserted(id) => match self.stage {
                Stage::Header => PostingView { header_id: id, ..self }.turned(),
                Stage::Insert => (
                    PostingView { stage: Stage::Line, ..self },
                    insert_line(self.kind, line_row(self.kind, id, self.header_id, self.line(), self.now)),
                ),
                _ => PostingView { position: self.position + 1, ..self }.turned(),
            },
            ResponseView::Found(found) => match found {
                None => self.stopped(Failure::NotFound(self.line().id)),
                Some(existing) => if self.kind is Sale && existing.quantity < self.line().quantity {
                    self.stopped(Failure::InsufficientStock(self.line().id))
                } else {
                    (
                        PostingView { stage: Stage::Update, ..self },
                        RequestView::UpdateProduct(restocked(self.kind, self.line(), existing)),
                    )
                },
            },
        }
    }
}

/// A posting under way: the batch, and how far it has come.
#[derive(Debug)]
pub struct Posting {
    kind: PostingKind,
    lines: Vec<Product>,
    now: NaiveDateTime,
    stage: Stage,
    position: usize,
    header_id: i64,
}

impl View for Posting {
    type V = PostingView;

    closed spec fn view(&self) -> PostingView {
        PostingView {
            kind: self.kind,
            lines: line_views(self.lines@),
            now: self.now,
            stage: self.stage,
            position: self.position as int,
            header_id: self.header_id as int,
        }
    }
}

impl Posting {
    /// Whether a batch can be posted as far as the batch itself tells:
    /// every line is valid and the batch's amount can be held.
    pub fn admits(kind: PostingKind, lines: &Vec<Product>) -> (admitted: bool)
        ensures
            admitted == (valid_lines(line_views(lines@)) && fits(
                batch_total(kind, line_views(lines@)),
            )),
    {
        for i in 0..lines.len()
            invariant
                forall|j: int| 0 <= j < i ==> valid_line(#[trigger] line_views(lines@)[j]),
        {
            if !is_valid_line(&lines[i]) {
                assert(!valid_line(line_views(lines@)[i as int]));
                return false;
            }
        }
        total_of(kind, lines).is_some()
    }

    /// Starts a posting of `lines`, made at `now`. The first request is to
    /// open a unit of work.
    pub fn begin(kind: PostingKind, lines: Vec<Product>, now: NaiveDateTime) -> (started: (Posting, Request))
        requires
            valid_lines(line_views(lines@)),
            fits(batch_total(kind, line_views(lines@))),
        ensures
            started.0@ == (PostingView {
                kind,
                lines: line_views(lines@),
                now,
                stage: Stage::Begin,
                position: 0,
                header_id: 0,
            }),
            started.0@.wf(),
            started.1@ == RequestView::Begin,
    {
        (Posting { kind, lines, now, stage: Stage::Begin, position: 0, header_id: 0 }, Request::Begin)
    }

    /// Whether `response` is an answer that the posting can take.
    pub fn accepts(&self, response: &Response) -> (accepted: bool)
        requires
            self@.wf(),
        ensures
            accepted == self@.accepts(response@),
    {
        match response {
            Response::Failed(_) => !matches!(self.stage, Stage::Closed),
            Response::Done => matches!(self.stage, Stage::Begin | Stage::Update | Stage::Commit),
            Response::Inserted(_) => matches!(self.stage, Stage::Header | Stage::Insert | Stage::Line),
            Response::Found(found) => {
                if !matches!(self.stage, Stage::Find) {
                    false
                } else {
                    match (self.kind, found) {
                        (PostingKind::Purchase, Some(existing)) => existing.quantity.checked_add(
                            self.lines[self.position].quantity,
                        ).is_some(),
                        _ => true,
                    }
                }
            },
        }
    }

    /// The request to take in the row of the current line, for the product
    /// numbered `product_id`.
    fn line_request(&self, product_id: i64) -> (request: Request)
        requires
            self@.wf(),
            self@.position < self@.lines.len(),
        ensures
            request@ == insert_line(
                self@.kind,
                line_row(self@.kind, product_id as int, self@.header_id, self@.line(), self@.now),
            ),
    {
        let line = &self.lines[self.position];
        proof {
            lemma_line_total_bounded(self.kind, self@.lines, self.position as int);
        }
        let price = price_of(self.kind, line);
        let total = line.quantity * price;
        match self.kind {
            PostingKind::Purchase => Request::InsertProductPurchase(
                ProductPurchase::new(0, product_id, self.header_id, price, line.quantity, total, self.now),
            ),
            PostingKind::Sale => Request::InsertProductSale(
                ProductSale::new(0, product_id, self.header_id, price, line.quantity, total, self.now),
            ),
        }
    }

    /// Turns to the line at the current position, or to the end.
    fn turn(&mut self) -> (request: Request)
        requires
            old(self)@.position <= old(self)@.lines.len(),
        ensures
            (final(self)@, request@) == old(self)@.turned(),
    {
        if self.position >= self.lines.len() {
            self.stage = Stage::Commit;
            Request::Commit
        } else if self.lines[self.position].id == 0 {
            self.stage = Stage::Insert;
            Request::InsertProduct(self.lines[self.position].clone())
        } else {
            self.stage = Stage::Find;
            Request::FindProduct(self.lines[self.position].id)
        }
    }

    /// Takes the store's answer to the request that is out and makes the
    /// next request.
    pub fn step(&mut self, response: Response) -> (request: Request)
        requires
            old(self)@.wf(),
            old(self)@.accepts(response@),
        ensures
            (final(self)@, request@) == old(self)@.next(response@),
            final(self)@.wf(),
    {
        match response {
            Response::Failed(message) => {
                self.stage = Stage::Closed;
                Request::Abort(PostingError::Storage(message))
            },
            Response::Done => match self.stage {
                Stage::Begin => {
                    let total = total_of(self.kind, &self.lines).unwrap();
                    self.stage = Stage::Header;
                    match self.kind {
                        PostingKind::Purchase => Request::InsertPurchase(Purchase::new(0, total, self.now)),
                        PostingKind::Sale => Request::InsertSale(Sale::new(0, total, self.now)),
                    }
                },
                Stage::Update => {
                    let request = self.line_request(self.lines[self.position].id);
                    self.stage = Stage::Line;
                    request
                },
                _ => {
                    self.stage = Stage::Closed;
                    Request::Complete
                },
            },
            Response::Inserted(id) => match self.stage {
                Stage::Header => {
                    self.header_id = id;
                    self.turn()
                },
                Stage::Insert => {
                    let request = self.line_request(id);
                    self.stage = Stage::Line;
                    request
                },
                _ => {
                    assert(self@.stage is Line);
                    assert(self.position < self.lines.len());
                    self.position = self.position + 1;
                    self.turn()
                },
            },
            Response::Found(found) => match found {
                None => {
                    self.stage = Stage::Closed;
                    Request::Abort(PostingError::NotFound(self.lines[self.position].id))
                },
                Some(existing) => {
                    let line = &self.lines[self.position];
                    assert(valid_line(self@.lines[self.position as int]));
                    match self.kind {
                        PostingKind::Sale => {
                            if existing.quantity < line.quantity {
                                let id = line.id;
                                self.stage = Stage::Closed;
                                Request::Abort(PostingError::InsufficientStock(id))
                            } else {
                                let mut product = line.clone();
                                product.quantity = existing.quantity - line.quantity;
                                self.stage = Stage::Update;
                                Request::UpdateProduct(product)
                            }
                        },
                        PostingKind::Purchase => {
                            let mut product = line.clone();
                            product.quantity = existing.quantity + line.quantity;
                            self.stage = Stage::Update;
                            Request::UpdateProduct(product)
                        },
                    }
                },
            },
        }
    }
}

} // verus!
