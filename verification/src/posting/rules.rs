//! What a posting is: the ledger after a batch of lines has been posted as
//! one purchase or one sale, or the reason why the batch is refused.

use chrono::NaiveDateTime;
use vstd::prelude::*;
use crate::entities::views::{HeaderView, LineView, ProductView};
use crate::ledger::model::{max_rows, LedgerView};

verus! {

/// The two kinds of posting. A purchase takes stock in and goes by the
/// purchase price; a sale gives stock out and goes by the sale price.
#[derive(Debug, Clone, Copy)]
pub enum PostingKind {
    Purchase,
    Sale,
}

/// Model of the reasons for which a posting fails.
pub enum Failure {
    /// A line names a product that is not on record.
    NotFound(int),
    /// A sale asks for more of a product than is on hand.
    InsufficientStock(int),
    /// The store itself failed; the text is the store's.
    Storage(Seq<char>),
}

/// The price that counts for a line: the purchase price in a purchase, the
/// sale price in a sale.
pub open spec fn unit_price(kind: PostingKind, line: ProductView) -> int {
    match kind {
        PostingKind::Purchase => line.price_purchase,
        PostingKind::Sale => line.price_sale,
    }
}

/// The amount of one line: quantity times unit price.
pub open spec fn line_total(kind: PostingKind, line: ProductView) -> int {
    line.quantity * unit_price(kind, line)
}

/// The amount of a batch: the sum of the amounts of its lines.
pub open spec fn batch_total(kind: PostingKind, lines: Seq<ProductView>) -> int
    decreases lines.len(),
{
    if lines.len() == 0 {
        0
    } else {
        batch_total(kind, lines.drop_last()) + line_total(kind, lines.last())
    }
}

/// A line as a posting takes it: a quantity above zero, and no negative
/// price.
pub open spec fn valid_line(line: ProductView) -> bool {
    &&& line.quantity > 0
    &&& line.price_purchase >= 0
    &&& line.price_sale >= 0
}

/// Every line of the batch is valid.
pub open spec fn valid_lines(lines: Seq<ProductView>) -> bool {
    forall|i: int| 0 <= i < lines.len() ==> valid_line(#[trigger] lines[i])
}

/// The quantity on hand after a line: more after a purchase, less after a
/// sale.
pub open spec fn stock_after(kind: PostingKind, stock: int, quantity: int) -> int {
    match kind {
        PostingKind::Purchase => stock + quantity,
        PostingKind::Sale => stock - quantity,
    }
}

/// The header of a posting of `lines` made at `now`, before the store has
/// numbered it.
pub open spec fn header_row(kind: PostingKind, lines: Seq<ProductView>, now: NaiveDateTime) -> HeaderView {
    HeaderView { id: 0, total: batch_total(kind, lines), created_at: now, updated_at: None }
}

/// The row of `line` under the header numbered `header_id`, before the
/// store has numbered it. It keeps the unit price and the quantity of the
/// line as they were asked for.
pub open spec fn line_row(
    kind: PostingKind,
    product_id: int,
    header_id: int,
    line: ProductView,
    now: NaiveDateTime,
) -> LineView {
    LineView {
        id: 0,
        product_id,
        header_id,
        price: unit_price(kind, line),
        quantity: line.quantity,
        total: line_total(kind, line),
        created_at: now,
        updated_at: None,
    }
}

/// The product row that a line leaves behind when it meets `existing`: the
/// line's own name, barcode and prices, with the quantity on hand adjusted.
pub open spec fn restocked(kind: PostingKind, line: ProductView, existing: ProductView) -> ProductView {
    ProductView { quantity: stock_after(kind, existing.quantity, line.quantity), ..line }
}

impl LedgerView {
    /// The headers of one kind.
    pub open spec fn headers(self, kind: PostingKind) -> Seq<HeaderView> {
        match kind {
            PostingKind::Purchase => self.purchases,
            PostingKind::Sale => self.sales,
        }
    }

    /// The lines of one kind.
    pub open spec fn lines(self, kind: PostingKind) -> Seq<LineView> {
        match kind {
            PostingKind::Purchase => self.purchase_lines,
            PostingKind::Sale => self.sale_lines,
        }
    }

    /// The ledger after it took in a header of the given kind.
    pub open spec fn with_header(self, kind: PostingKind, header: HeaderView) -> LedgerView {
        match kind {
            PostingKind::Purchase => self.with_purchase(header),
            PostingKind::Sale => self.with_sale(header),
        }
    }

    /// The ledger after it took in a line of the given kind.
    pub open spec fn with_line(self, kind: PostingKind, line: LineView) -> LedgerView {
        match kind {
            PostingKind::Purchase => self.with_purchase_line(line),
            PostingKind::Sale => self.with_sale_line(line),
        }
    }
}

/// The first step of a line: settling which product it is about.
///
/// A line numbered zero brings a new product, which is taken in with the
/// line's quantity. Any other line must name a product on record, whose
/// quantity on hand is adjusted and whose other fields the line overwrites;
/// a sale that asks for more than is on hand is refused. The result is the
/// ledger after that and the number of the product.
pub open spec fn product_settled(
    ledger: LedgerView,
    kind: PostingKind,
    line: ProductView,
    now: NaiveDateTime,
) -> Result<(LedgerView, int), Failure> {
    if line.id == 0 {
        Ok((ledger.with_product(line), ledger.products.len() as int + 1))
    } else if !ledger.has_product(line.id) {
        Err(Failure::NotFound(line.id))
    } else if kind is Sale && ledger.stock(line.id) < line.quantity {
        Err(Failure::InsufficientStock(line.id))
    } else {
        Ok((ledger.with_product_updated(restocked(kind, line, ledger.products[line.id - 1]), now), line.id))
    }
}

/// The ledger after one line was posted under the header numbered
/// `header_id`: the product is settled, then the line's row is taken in.
pub open spec fn line_posted(
    ledger: LedgerView,
    kind: PostingKind,
    header_id: int,
    line: ProductView,
    now: NaiveDateTime,
) -> Result<LedgerView, Failure> {
    match product_settled(ledger, kind, line, now) {
        Ok((settled, product_id)) => Ok(
            settled.with_line(kind, line_row(kind, product_id, header_id, line, now)),
        ),
        Err(failure) => Err(failure),
    }
}

/// The ledger after the lines were posted one after the other, each on
/// what the one before left; the failure of the first line that fails.
pub open spec fn lines_posted(
    ledger: LedgerView,
    kind: PostingKind,
    header_id: int,
    lines: Seq<ProductView>,
    now: NaiveDateTime,
) -> Result<LedgerView, Failure>
    decreases lines.len(),
{
    if lines.len() == 0 {
        Ok(ledger)
    } else {
        match lines_posted(ledger, kind, header_id, lines.drop_last(), now) {
            Ok(before) => line_posted(before, kind, header_id, lines.last(), now),
            Err(failure) => Err(failure),
        }
    }
}

/// The ledger after `lines` were posted at `now` as one purchase or one
/// sale: a header with the batch's amount, then the lines in their order.
/// If a line fails, so does the posting, with that line's failure.
pub open spec fn posted(
    ledger: LedgerView,
    kind: PostingKind,
    lines: Seq<ProductView>,
    now: NaiveDateTime,
) -> Result<LedgerView, Failure> {
    lines_posted(
        ledger.with_header(kind, header_row(kind, lines, now)),
        kind,
        ledger.headers(kind).len() as int + 1,
        lines,
        now,
    )
}

/// How a posting of `lines` to the ledger `before`, made at `now`, has
/// ended: without failure and with the ledger that the rules give, or with
/// the failure that the rules give and the ledger as it was.
pub open spec fn ended_as(
    before: LedgerView,
    kind: PostingKind,
    lines: Seq<ProductView>,
    now: NaiveDateTime,
    failure: Option<Failure>,
    after: LedgerView,
) -> bool {
    match failure {
        None => posted(before, kind, lines, now) == Ok::<LedgerView, Failure>(after),
        Some(reason) => {
            &&& posted(before, kind, lines, now) == Err::<LedgerView, Failure>(reason)
            &&& after == before
        },
    }
}

/// The amount or quantity can be held in a row.
pub open spec fn fits(amount: int) -> bool {
    -0x8000_0000_0000_0000 <= amount <= 0x7fff_ffff_ffff_ffff
}

/// The quantity that `line` leaves on hand can be held. Only a purchase
/// of a product on record can fail this: a sale never leaves more than
/// there was, and a new product starts with the line's own quantity.
pub open spec fn line_fits(ledger: LedgerView, kind: PostingKind, line: ProductView) -> bool {
    kind is Purchase && line.id != 0 && ledger.has_product(line.id) ==> fits(
        ledger.stock(line.id) + line.quantity,
    )
}

/// Every quantity that the lines leave on hand, one after the other, can
/// be held.
pub open spec fn lines_fit(
    ledger: LedgerView,
    kind: PostingKind,
    header_id: int,
    lines: Seq<ProductView>,
    now: NaiveDateTime,
) -> bool
    decreases lines.len(),
{
    lines.len() == 0 || {
        &&& lines_fit(ledger, kind, header_id, lines.drop_last(), now)
        &&& lines_posted(ledger, kind, header_id, lines.drop_last(), now) matches Ok(before)
            ==> line_fits(before, kind, lines.last())
    }
}

/// The tables have room for one more header of the kind and for as many
/// more products and lines as the batch may bring.
pub open spec fn has_room(ledger: LedgerView, kind: PostingKind, lines: Seq<ProductView>) -> bool {
    &&& ledger.headers(kind).len() < max_rows()
    &&& ledger.products.len() + lines.len() <= max_rows()
    &&& ledger.lines(kind).len() + lines.len() <= max_rows()
}

/// What a posting asks of its input. Every line must be valid: a quantity
/// above zero and no negative price. And the machine must be able to hold
/// what the posting computes: the batch's amount, every quantity left on
/// hand and every row number must fit.
pub open spec fn postable(
    ledger: LedgerView,
    kind: PostingKind,
    lines: Seq<ProductView>,
    now: NaiveDateTime,
) -> bool {
    &&& valid_lines(lines)
    &&& fits(batch_total(kind, lines))
    &&& has_room(ledger, kind, lines)
    &&& lines_fit(
        ledger.with_header(kind, header_row(kind, lines, now)),
        kind,
        ledger.headers(kind).len() as int + 1,
        lines,
        now,
    )
}

} // verus!
