//! What holds of every posting.

use chrono::NaiveDateTime;
use vstd::prelude::*;
use crate::entities::views::{HeaderView, LineView, ProductView};
use crate::ledger::model::LedgerView;
use crate::posting::lemmas::{
    lemma_failure_stays, lemma_lines_posted_shape, lemma_lines_posted_step, other_kind,
};
use crate::posting::rules::{
    batch_total, header_row, line_total, lines_posted, posted, product_settled, stock_after,
    unit_price, valid_line, valid_lines, Failure, PostingKind,
};

verus! {

/// The quantity that the lines of a batch ask for of the product numbered
/// `id`, all lines that name it taken together.
pub open spec fn quantity_asked(lines: Seq<ProductView>, id: int) -> int
    decreases lines.len(),
{
    if lines.len() == 0 {
        0
    } else {
        quantity_asked(lines.drop_last(), id) + if lines.last().id == id {
            lines.last().quantity
        } else {
            0
        }
    }
}

/// Settling a line's product leaves every other product on record as it
/// was, and moves the stock of the product that the line names by the
/// line's quantity.
pub proof fn lemma_settled_stock(
    ledger: LedgerView,
    kind: PostingKind,
    line: ProductView,
    now: NaiveDateTime,
    id: int,
)
    requires
        ledger.has_product(id),
        product_settled(ledger, kind, line, now) is Ok,
    ensures
        ({
            let settled = product_settled(ledger, kind, line, now)->Ok_0.0;
            &&& settled.has_product(id)
            &&& settled.stock(id) == if line.id == id {
                stock_after(kind, ledger.stock(id), line.quantity)
            } else {
                ledger.stock(id)
            }
        }),
{
}

/// Stock is moved by what the lines ask for and by nothing else: after a
/// batch of lines, a product that was on record before has the quantity
/// it had, plus all that the lines bought of it, or less all that they
/// sold of it.
pub proof fn lemma_lines_move_stock(
    ledger: LedgerView,
    kind: PostingKind,
    header_id: int,
    lines: Seq<ProductView>,
    now: NaiveDateTime,
    id: int,
)
    requires
        ledger.has_product(id),
        lines_posted(ledger, kind, header_id, lines, now) is Ok,
    ensures
        ({
            let after = lines_posted(ledger, kind, header_id, lines, now)->Ok_0;
            &&& after.has_product(id)
            &&& after.stock(id) == stock_after(kind, ledger.stock(id), quantity_asked(lines, id))
        }),
    decreases lines.len(),
{
    if lines.len() > 0 {
        lemma_lines_move_stock(ledger, kind, header_id, lines.drop_last(), now, id);
        let before = lines_posted(ledger, kind, header_id, lines.drop_last(), now)->Ok_0;
        lemma_settled_stock(before, kind, lines.last(), now, id);
    }
}

/// Stock is moved by what the lines ask for and by nothing else: after a
/// posting, a product that was on record before has the quantity it had,
/// plus all that the batch bought of it, or less all that it sold of it.
pub proof fn lemma_posting_moves_stock(
    ledger: LedgerView,
    kind: PostingKind,
    lines: Seq<ProductView>,
    now: NaiveDateTime,
    id: int,
)
    requires
        ledger.has_product(id),
        posted(ledger, kind, lines, now) is Ok,
    ensures
        ({
            let after = posted(ledger, kind, lines, now)->Ok_0;
            &&& after.has_product(id)
            &&& after.stock(id) == stock_after(kind, ledger.stock(id), quantity_asked(lines, id))
        }),
{
    let base = ledger.with_header(kind, header_row(kind, lines, now));
    lemma_lines_move_stock(base, kind, ledger.headers(kind).len() as int + 1, lines, now, id);
}

/// What a posting does to the tables: one header more of its kind, with
/// the batch's amount and the time of the posting; one line row more for
/// each line; at most one product more for each line; the rows of the
/// other kind untouched, and every row still numbered by its place.
pub proof fn lemma_posting_shape(
    ledger: LedgerView,
    kind: PostingKind,
    lines: Seq<ProductView>,
    now: NaiveDateTime,
)
    requires
        ledger.wf(),
        posted(ledger, kind, lines, now) is Ok,
    ensures
        ({
            let after = posted(ledger, kind, lines, now)->Ok_0;
            &&& after.wf()
            &&& after.headers(kind) == ledger.headers(kind).push(
                HeaderView {
                    id: ledger.headers(kind).len() as int + 1,
                    total: batch_total(kind, lines),
                    created_at: now,
                    updated_at: None,
                },
            )
            &&& after.headers(other_kind(kind)) == ledger.headers(other_kind(kind))
            &&& after.lines(kind).len() == ledger.lines(kind).len() + lines.len()
            &&& after.lines(other_kind(kind)) == ledger.lines(other_kind(kind))
            &&& ledger.products.len() <= after.products.len() <= ledger.products.len() + lines.len()
        }),
{
    let base = ledger.with_header(kind, header_row(kind, lines, now));
    lemma_lines_posted_shape(base, kind, ledger.headers(kind).len() as int + 1, lines, now);
}

/// Whether the lines of a purchase can be posted depends only on how many
/// products are on record: what can be posted to a ledger can be posted to
/// any ledger that holds at least as many products.
pub proof fn lemma_purchase_lines_need_products_only(
    one: LedgerView,
    other: LedgerView,
    header_id: int,
    other_header_id: int,
    lines: Seq<ProductView>,
    now: NaiveDateTime,
    then: NaiveDateTime,
)
    requires
        one.products.len() <= other.products.len(),
        lines_posted(one, PostingKind::Purchase, header_id, lines, now) is Ok,
    ensures
        lines_posted(other, PostingKind::Purchase, other_header_id, lines, then) is Ok,
        lines_posted(one, PostingKind::Purchase, header_id, lines, now)->Ok_0.products.len()
            <= lines_posted(other, PostingKind::Purchase, other_header_id, lines, then)->Ok_0.products.len(),
    decreases lines.len(),
{
    if lines.len() > 0 {
        lemma_purchase_lines_need_products_only(
            one,
            other,
            header_id,
            other_header_id,
            lines.drop_last(),
            now,
            then,
        );
    }
}

/// A purchase that was posted can be posted again: the second posting
/// does not fail. (A sale may: the first may have used up the stock.)
pub proof fn lemma_purchase_can_be_repeated(
    ledger: LedgerView,
    lines: Seq<ProductView>,
    first: NaiveDateTime,
    second: NaiveDateTime,
)
    requires
        posted(ledger, PostingKind::Purchase, lines, first) is Ok,
    ensures
        posted(
            posted(ledger, PostingKind::Purchase, lines, first)->Ok_0,
            PostingKind::Purchase,
            lines,
            second,
        ) is Ok,
{
    let kind = PostingKind::Purchase;
    let once = posted(ledger, kind, lines, first)->Ok_0;
    let base = ledger.with_header(kind, header_row(kind, lines, first));
    lemma_lines_keep_products(base, kind, ledger.purchases.len() as int + 1, lines, first);
    lemma_purchase_lines_need_products_only(
        base,
        once.with_header(kind, header_row(kind, lines, second)),
        ledger.purchases.len() as int + 1,
        once.purchases.len() as int + 1,
        lines,
        first,
        second,
    );
}

/// A posting is made each time it is asked for. Posting the same batch a
/// second time leaves the headers that were there, and behind them two
/// new ones with two new numbers and the same amount; it leaves two rows
/// for each line, and moves the stock of a product on record twice.
pub proof fn lemma_posting_twice(
    ledger: LedgerView,
    kind: PostingKind,
    lines: Seq<ProductView>,
    first: NaiveDateTime,
    second: NaiveDateTime,
    id: int,
)
    requires
        ledger.wf(),
        posted(ledger, kind, lines, first) is Ok,
        posted(posted(ledger, kind, lines, first)->Ok_0, kind, lines, second) is Ok,
    ensures
        ({
            let once = posted(ledger, kind, lines, first)->Ok_0;
            let twice = posted(once, kind, lines, second)->Ok_0;
            &&& twice.headers(kind).len() == ledger.headers(kind).len() + 2
            &&& twice.headers(kind).take(ledger.headers(kind).len() as int) == ledger.headers(kind)
            &&& twice.headers(kind)[ledger.headers(kind).len() as int].id == ledger.headers(kind).len()
                + 1
            &&& twice.headers(kind)[ledger.headers(kind).len() as int + 1].id
                == ledger.headers(kind).len() + 2
            &&& twice.headers(kind)[ledger.headers(kind).len() as int].total == batch_total(kind, lines)
            &&& twice.headers(kind)[ledger.headers(kind).len() as int + 1].total == batch_total(kind, lines)
            &&& twice.lines(kind).len() == ledger.lines(kind).len() + 2 * lines.len()
            &&& ledger.has_product(id) ==> twice.stock(id) == stock_after(
                kind,
                ledger.stock(id),
                2 * quantity_asked(lines, id),
            )
        }),
{
    let once = posted(ledger, kind, lines, first)->Ok_0;
    let twice = posted(once, kind, lines, second)->Ok_0;
    lemma_posting_shape(ledger, kind, lines, first);
    lemma_posting_shape(once, kind, lines, second);
    assert(twice.headers(kind).take(ledger.headers(kind).len() as int) =~= ledger.headers(kind));
    if ledger.has_product(id) {
        lemma_posting_moves_stock(ledger, kind, lines, first, id);
        lemma_posting_moves_stock(once, kind, lines, second, id);
    }
}

/// Every line of the batch asks for a quantity above zero.
pub open spec fn quantities_are_positive(lines: Seq<ProductView>) -> bool {
    forall|i: int| 0 <= i < lines.len() ==> (#[trigger] lines[i]).quantity > 0
}

/// Valid lines ask for quantities above zero.
pub proof fn lemma_valid_lines_are_positive(lines: Seq<ProductView>)
    requires
        valid_lines(lines),
    ensures
        quantities_are_positive(lines),
{
    assert forall|i: int| 0 <= i < lines.len() implies (#[trigger] lines[i]).quantity > 0 by {
        assert(valid_line(lines[i]));
    }
}

/// Settling the product of a line that asks for a quantity above zero
/// leaves no product short, if none was short before.
pub proof fn lemma_settled_stock_is_sound(
    ledger: LedgerView,
    kind: PostingKind,
    line: ProductView,
    now: NaiveDateTime,
)
    requires
        ledger.stock_is_sound(),
        line.quantity > 0,
        product_settled(ledger, kind, line, now) is Ok,
    ensures
        product_settled(ledger, kind, line, now)->Ok_0.0.stock_is_sound(),
{
    if line.id != 0 {
        assert(ledger.products[line.id - 1].quantity >= 0);
    }
}

/// Posting lines that ask for quantities above zero leaves no product
/// short, if none was short before.
pub proof fn lemma_lines_keep_stock_sound(
    ledger: LedgerView,
    kind: PostingKind,
    header_id: int,
    lines: Seq<ProductView>,
    now: NaiveDateTime,
)
    requires
        ledger.stock_is_sound(),
        quantities_are_positive(lines),
        lines_posted(ledger, kind, header_id, lines, now) is Ok,
    ensures
        lines_posted(ledger, kind, header_id, lines, now)->Ok_0.stock_is_sound(),
    decreases lines.len(),
{
    if lines.len() > 0 {
        assert(quantities_are_positive(lines.drop_last())) by {
            assert forall|i: int| 0 <= i < lines.drop_last().len() implies (
            #[trigger] lines.drop_last()[i]).quantity > 0 by {
                assert(lines.drop_last()[i] == lines[i]);
            }
        }
        lemma_lines_keep_stock_sound(ledger, kind, header_id, lines.drop_last(), now);
        let before = lines_posted(ledger, kind, header_id, lines.drop_last(), now)->Ok_0;
        assert(lines[lines.len() - 1].quantity > 0);
        lemma_settled_stock_is_sound(before, kind, lines.last(), now);
    }
}

/// No posting leaves a product short: if every quantity on hand was zero
/// or more before a purchase or a sale whose lines ask for quantities
/// above zero, it is so after.
pub proof fn lemma_posting_keeps_stock_sound(
    ledger: LedgerView,
    kind: PostingKind,
    lines: Seq<ProductView>,
    now: NaiveDateTime,
)
    requires
        ledger.stock_is_sound(),
        quantities_are_positive(lines),
        posted(ledger, kind, lines, now) is Ok,
    ensures
        posted(ledger, kind, lines, now)->Ok_0.stock_is_sound(),
{
    let base = ledger.with_header(kind, header_row(kind, lines, now));
    lemma_lines_keep_stock_sound(base, kind, ledger.headers(kind).len() as int + 1, lines, now);
}

/// A sale that would leave a product short is refused as a whole: if the
/// lines before line `at` can be posted, and line `at` asks for more of a
/// product on record than those lines have left of it, the posting fails
/// for want of stock of that product.
pub proof fn lemma_short_sale_is_refused(
    ledger: LedgerView,
    lines: Seq<ProductView>,
    now: NaiveDateTime,
    at: int,
)
    requires
        0 <= at < lines.len(),
        lines[at].id != 0,
        lines_posted(
            ledger.with_header(PostingKind::Sale, header_row(PostingKind::Sale, lines, now)),
            PostingKind::Sale,
            ledger.sales.len() as int + 1,
            lines.take(at),
            now,
        ) matches Ok(before) && before.has_product(lines[at].id) && before.stock(lines[at].id)
            < lines[at].quantity,
    ensures
        posted(ledger, PostingKind::Sale, lines, now) == Err::<LedgerView, Failure>(
            Failure::InsufficientStock(lines[at].id),
        ),
{
    let kind = PostingKind::Sale;
    let base = ledger.with_header(kind, header_row(kind, lines, now));
    lemma_lines_posted_step(base, kind, ledger.sales.len() as int + 1, lines, now, at);
    lemma_failure_stays(base, kind, ledger.sales.len() as int + 1, lines, now, at + 1);
}

/// The sum of the amounts of line rows.
pub open spec fn rows_total(rows: Seq<LineView>) -> int
    decreases rows.len(),
{
    if rows.len() == 0 {
        0
    } else {
        rows_total(rows.drop_last()) + rows.last().total
    }
}

/// The row that a posting has left for its line `at`, where `first` rows
/// of the kind were there before.
pub open spec fn row_of_line(after: LedgerView, kind: PostingKind, first: int, at: int) -> LineView {
    after.lines(kind)[first + at]
}

/// The ledger as the lines before line `at` of a batch have left it.
pub open spec fn ledger_before(
    ledger: LedgerView,
    kind: PostingKind,
    header_id: int,
    lines: Seq<ProductView>,
    now: NaiveDateTime,
    at: int,
) -> LedgerView {
    lines_posted(ledger, kind, header_id, lines.take(at), now)->Ok_0
}

/// The number of the product that line `at` of a batch is about: the
/// number that the line names, or, where the line brings a new product,
/// the number under which that product is taken in, which is the next
/// after the products that the lines before it have left.
pub open spec fn product_of_line(
    ledger: LedgerView,
    kind: PostingKind,
    header_id: int,
    lines: Seq<ProductView>,
    now: NaiveDateTime,
    at: int,
) -> int {
    if lines[at].id != 0 {
        lines[at].id
    } else {
        ledger_before(ledger, kind, header_id, lines, now, at).products.len() as int + 1
    }
}

/// The row `row` is the one that belongs to `line` under the header
/// numbered `header_id` and the product numbered `product_id`: it names
/// both, and holds the line's unit price and quantity as they were asked
/// for, their product as its amount, and the time of the posting.
pub open spec fn is_row_of(
    row: LineView,
    kind: PostingKind,
    header_id: int,
    product_id: int,
    line: ProductView,
    now: NaiveDateTime,
) -> bool {
    &&& row.header_id == header_id
    &&& row.product_id == product_id
    &&& row.price == unit_price(kind, line)
    &&& row.quantity == line.quantity
    &&& row.total == row.price * row.quantity
    &&& row.created_at == now
    &&& row.updated_at is None
}

/// Line `at` of a batch has left its row in the ledger `after`, and the
/// row names the product that the line is about, which is on record. Where
/// the line has brought a new product, that product was taken in with the
/// line's own name, barcode, prices and quantity, under a number that no
/// product had before.
pub open spec fn line_is_kept(
    ledger: LedgerView,
    kind: PostingKind,
    header_id: int,
    lines: Seq<ProductView>,
    now: NaiveDateTime,
    at: int,
    after: LedgerView,
) -> bool {
    let number = product_of_line(ledger, kind, header_id, lines, now, at);
    &&& is_row_of(
        row_of_line(after, kind, ledger.lines(kind).len() as int, at),
        kind,
        header_id,
        number,
        lines[at],
        now,
    )
    &&& after.has_product(number)
    &&& lines[at].id == 0 ==> {
        &&& number > ledger.products.len()
        &&& lines_posted(ledger, kind, header_id, lines.take(at + 1), now) matches Ok(with_line)
        &&& with_line.product(number) == Some(
            ProductView { id: number, updated_at: None, ..lines[at] },
        )
    }
}

/// Posting lines never takes a product off the record.
pub proof fn lemma_lines_keep_products(
    ledger: LedgerView,
    kind: PostingKind,
    header_id: int,
    lines: Seq<ProductView>,
    now: NaiveDateTime,
)
    requires
        lines_posted(ledger, kind, header_id, lines, now) is Ok,
    ensures
        ledger.products.len() <= lines_posted(ledger, kind, header_id, lines, now)->Ok_0.products.len(),
    decreases lines.len(),
{
    if lines.len() > 0 {
        lemma_lines_keep_products(ledger, kind, header_id, lines.drop_last(), now);
    }
}

/// The line rows that a batch of lines leaves: the rows that were there
/// stay, and behind them comes one row for each line, in the order of the
/// lines, each naming the product that its line is about. The amounts of
/// the new rows add up to the amount of the batch.
pub proof fn lemma_lines_posted_rows(
    ledger: LedgerView,
    kind: PostingKind,
    header_id: int,
    lines: Seq<ProductView>,
    now: NaiveDateTime,
)
    requires
        lines_posted(ledger, kind, header_id, lines, now) is Ok,
    ensures
        ({
            let after = lines_posted(ledger, kind, header_id, lines, now)->Ok_0;
            let first = ledger.lines(kind).len() as int;
            &&& after.lines(kind).len() == first + lines.len()
            &&& after.lines(kind).take(first) == ledger.lines(kind)
            &&& forall|at: int|
                0 <= at < lines.len() ==> #[trigger] line_is_kept(
                    ledger,
                    kind,
                    header_id,
                    lines,
                    now,
                    at,
                    after,
                )
            &&& rows_total(after.lines(kind).skip(first)) == batch_total(kind, lines)
        }),
    decreases lines.len(),
{
    let after = lines_posted(ledger, kind, header_id, lines, now)->Ok_0;
    let first = ledger.lines(kind).len() as int;
    if lines.len() == 0 {
        assert(after.lines(kind).take(first) =~= ledger.lines(kind));
        assert(after.lines(kind).skip(first) =~= Seq::<LineView>::empty());
    } else {
        let fewer = lines.drop_last();
        lemma_lines_posted_rows(ledger, kind, header_id, fewer, now);
        lemma_lines_keep_products(ledger, kind, header_id, fewer, now);
        let before = lines_posted(ledger, kind, header_id, fewer, now)->Ok_0;
        let line = lines.last();
        let settled = product_settled(before, kind, line, now)->Ok_0;
        assert(settled.0.lines(kind) == before.lines(kind));
        let row = after.lines(kind).last();
        assert(after.lines(kind) =~= before.lines(kind).push(row));
        assert(after.lines(kind).take(first) =~= before.lines(kind).take(first));
        assert(after.lines(kind).skip(first).drop_last() =~= before.lines(kind).skip(first));
        assert(after.lines(kind).skip(first).last() == row);
        assert(row.total == line_total(kind, line));
        assert(row.price * row.quantity == line.quantity * unit_price(kind, line)) by (nonlinear_arith)
            requires
                row.price == unit_price(kind, line),
                row.quantity == line.quantity,
        ;
        assert forall|at: int| 0 <= at < lines.len() implies #[trigger] line_is_kept(
            ledger,
            kind,
            header_id,
            lines,
            now,
            at,
            after,
        ) by {
            if at < lines.len() - 1 {
                assert(line_is_kept(ledger, kind, header_id, fewer, now, at, before));
                assert(fewer.take(at) =~= lines.take(at));
                assert(fewer.take(at + 1) =~= lines.take(at + 1));
                assert(fewer[at] == lines[at]);
                assert(row_of_line(after, kind, first, at) == row_of_line(before, kind, first, at));
            } else {
                assert(lines.take(at) =~= fewer);
                assert(lines.take(at + 1) =~= lines);
            }
        }
    }
}

/// The header and the line rows that a posting leaves. The header holds
/// the amount of the batch; each line has its row under that header, in
/// the order of the lines, behind the rows that were there; each row names
/// the product that its line is about, the one that the line has brought
/// where it names none; and the amounts of those rows add up to the
/// header's.
pub proof fn lemma_posting_rows(
    ledger: LedgerView,
    kind: PostingKind,
    lines: Seq<ProductView>,
    now: NaiveDateTime,
)
    requires
        posted(ledger, kind, lines, now) is Ok,
    ensures
        ({
            let after = posted(ledger, kind, lines, now)->Ok_0;
            let first = ledger.lines(kind).len() as int;
            let number = ledger.headers(kind).len() as int + 1;
            &&& after.headers(kind).len() == number
            &&& after.headers(kind).last().id == number
            &&& after.headers(kind).last().total == batch_total(kind, lines)
            &&& after.lines(kind).len() == first + lines.len()
            &&& after.lines(kind).take(first) == ledger.lines(kind)
            &&& forall|at: int|
                0 <= at < lines.len() ==> #[trigger] line_is_kept(
                    ledger.with_header(kind, header_row(kind, lines, now)),
                    kind,
                    number,
                    lines,
                    now,
                    at,
                    after,
                )
            &&& rows_total(after.lines(kind).skip(first)) == after.headers(kind).last().total
        }),
{
    let base = ledger.with_header(kind, header_row(kind, lines, now));
    let number = ledger.headers(kind).len() as int + 1;
    lemma_lines_posted_rows(base, kind, number, lines, now);
    lemma_lines_keep_headers(base, kind, number, lines, now);
}

/// Posting lines leaves the headers as they were.
pub proof fn lemma_lines_keep_headers(
    ledger: LedgerView,
    kind: PostingKind,
    header_id: int,
    lines: Seq<ProductView>,
    now: NaiveDateTime,
)
    requires
        lines_posted(ledger, kind, header_id, lines, now) is Ok,
    ensures
        lines_posted(ledger, kind, header_id, lines, now)->Ok_0.purchases == ledger.purchases,
        lines_posted(ledger, kind, header_id, lines, now)->Ok_0.sales == ledger.sales,
    decreases lines.len(),
{
    if lines.len() > 0 {
        lemma_lines_keep_headers(ledger, kind, header_id, lines.drop_last(), now);
    }
}

/// A sale that asks for more than there is fails as a whole. If the lines
/// before line `at` can be posted, and line `at` asks for more of a
/// product on record than the ledger holds of it less what those lines
/// have asked of it, the posting fails for want of stock of that product.
pub proof fn lemma_sale_beyond_stock_is_refused(
    ledger: LedgerView,
    lines: Seq<ProductView>,
    now: NaiveDateTime,
    at: int,
)
    requires
        0 <= at < lines.len(),
        ledger.has_product(lines[at].id),
        lines_posted(
            ledger.with_header(PostingKind::Sale, header_row(PostingKind::Sale, lines, now)),
            PostingKind::Sale,
            ledger.sales.len() as int + 1,
            lines.take(at),
            now,
        ) is Ok,
        ledger.stock(lines[at].id) - quantity_asked(lines.take(at), lines[at].id) < lines[at].quantity,
    ensures
        posted(ledger, PostingKind::Sale, lines, now) == Err::<LedgerView, Failure>(
            Failure::InsufficientStock(lines[at].id),
        ),
{
    let kind = PostingKind::Sale;
    let base = ledger.with_header(kind, header_row(kind, lines, now));
    lemma_lines_move_stock(base, kind, ledger.sales.len() as int + 1, lines.take(at), now, lines[at].id);
    lemma_short_sale_is_refused(ledger, lines, now, at);
}

/// One posting in a history of postings.
pub struct Batch {
    pub kind: PostingKind,
    pub lines: Seq<ProductView>,
    pub now: NaiveDateTime,
}

/// The ledger after a history of postings, each made on what the one
/// before left. A posting that fails leaves the ledger as it was.
pub open spec fn replayed(ledger: LedgerView, history: Seq<Batch>) -> LedgerView
    decreases history.len(),
{
    if history.len() == 0 {
        ledger
    } else {
        let before = replayed(ledger, history.drop_last());
        match posted(before, history.last().kind, history.last().lines, history.last().now) {
            Ok(after) => after,
            Err(_) => before,
        }
    }
}

/// Every line of every batch of the history asks for a quantity above
/// zero.
pub open spec fn valid_history(history: Seq<Batch>) -> bool {
    forall|i: int| 0 <= i < history.len() ==> quantities_are_positive((#[trigger] history[i]).lines)
}

/// Whatever purchases and sales are posted, in whatever order, and
/// whichever of them fail: no product is ever left short.
pub proof fn lemma_history_keeps_stock_sound(ledger: LedgerView, history: Seq<Batch>)
    requires
        ledger.stock_is_sound(),
        valid_history(history),
    ensures
        replayed(ledger, history).stock_is_sound(),
    decreases history.len(),
{
    if history.len() > 0 {
        assert(valid_history(history.drop_last())) by {
            assert forall|i: int| 0 <= i < history.drop_last().len() implies quantities_are_positive(
                (#[trigger] history.drop_last()[i]).lines,
            ) by {
                assert(history.drop_last()[i] == history[i]);
            }
        }
        lemma_history_keeps_stock_sound(ledger, history.drop_last());
        let before = replayed(ledger, history.drop_last());
        let batch = history.last();
        assert(quantities_are_positive(history[history.len() - 1].lines));
        if posted(before, batch.kind, batch.lines, batch.now) is Ok {
            lemma_posting_keeps_stock_sound(before, batch.kind, batch.lines, batch.now);
        }
    }
}

} // verus!
