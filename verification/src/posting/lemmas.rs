//! Facts about posting line after line.

use chrono::NaiveDateTime;
use vstd::prelude::*;
use crate::entities::views::ProductView;
use crate::ledger::model::LedgerView;
use crate::posting::rules::{
    header_row, line_fits, line_posted, lines_fit, lines_posted, postable, product_settled, PostingKind,
};

verus! {

/// The other kind of posting.
pub open spec fn other_kind(kind: PostingKind) -> PostingKind {
    match kind {
        PostingKind::Purchase => PostingKind::Sale,
        PostingKind::Sale => PostingKind::Purchase,
    }
}

/// Posting one line more is posting that line on what the lines before it
/// left.
pub proof fn lemma_lines_posted_step(
    ledger: LedgerView,
    kind: PostingKind,
    header_id: int,
    lines: Seq<ProductView>,
    now: NaiveDateTime,
    done: int,
)
    requires
        0 <= done < lines.len(),
    ensures
        lines_posted(ledger, kind, header_id, lines.take(done + 1), now) == match lines_posted(
            ledger,
            kind,
            header_id,
            lines.take(done),
            now,
        ) {
            Ok(before) => line_posted(before, kind, header_id, lines[done], now),
            Err(failure) => Err(failure),
        },
{
    assert(lines.take(done + 1).drop_last() =~= lines.take(done));
    assert(lines.take(done + 1).last() == lines[done]);
}

/// Once a line has failed, the batch fails with that line's failure,
/// whatever follows.
pub proof fn lemma_failure_stays(
    ledger: LedgerView,
    kind: PostingKind,
    header_id: int,
    lines: Seq<ProductView>,
    now: NaiveDateTime,
    done: int,
)
    requires
        0 <= done <= lines.len(),
        lines_posted(ledger, kind, header_id, lines.take(done), now) is Err,
    ensures
        lines_posted(ledger, kind, header_id, lines, now) == lines_posted(
            ledger,
            kind,
            header_id,
            lines.take(done),
            now,
        ),
    decreases lines.len() - done,
{
    if done == lines.len() {
        assert(lines.take(done) =~= lines);
    } else {
        lemma_lines_posted_step(ledger, kind, header_id, lines, now, done);
        lemma_failure_stays(ledger, kind, header_id, lines, now, done + 1);
    }
}

/// What settling a line's product does to the tables: at most one product
/// more, the products that were there still in their places, and nothing
/// else touched.
pub proof fn lemma_product_settled_shape(
    ledger: LedgerView,
    kind: PostingKind,
    line: ProductView,
    now: NaiveDateTime,
)
    requires
        ledger.wf(),
        product_settled(ledger, kind, line, now) is Ok,
    ensures
        ({
            let (settled, product_id) = product_settled(ledger, kind, line, now)->Ok_0;
            &&& settled.wf()
            &&& settled.has_product(product_id)
            &&& ledger.products.len() <= settled.products.len() <= ledger.products.len() + 1
            &&& settled.purchases == ledger.purchases
            &&& settled.sales == ledger.sales
            &&& settled.purchase_lines == ledger.purchase_lines
            &&& settled.sale_lines == ledger.sale_lines
        }),
{
}

/// What posting a batch of lines does to the tables: one line row more
/// for each line, at most one product more for each line, the headers and
/// the lines of the other kind untouched.
pub proof fn lemma_lines_posted_shape(
    ledger: LedgerView,
    kind: PostingKind,
    header_id: int,
    lines: Seq<ProductView>,
    now: NaiveDateTime,
)
    requires
        ledger.wf(),
        lines_posted(ledger, kind, header_id, lines, now) is Ok,
    ensures
        ({
            let after = lines_posted(ledger, kind, header_id, lines, now)->Ok_0;
            &&& after.wf()
            &&& ledger.products.len() <= after.products.len() <= ledger.products.len() + lines.len()
            &&& after.purchases == ledger.purchases
            &&& after.sales == ledger.sales
            &&& after.lines(kind).len() == ledger.lines(kind).len() + lines.len()
            &&& after.lines(other_kind(kind)) == ledger.lines(other_kind(kind))
        }),
    decreases lines.len(),
{
    if lines.len() > 0 {
        lemma_lines_posted_shape(ledger, kind, header_id, lines.drop_last(), now);
        let before = lines_posted(ledger, kind, header_id, lines.drop_last(), now)->Ok_0;
        lemma_product_settled_shape(before, kind, lines.last(), now);
    }
}

/// If every quantity that a batch leaves on hand can be held, so can the
/// one that each single line leaves on what the lines before it left.
pub proof fn lemma_lines_fit_at(
    ledger: LedgerView,
    kind: PostingKind,
    header_id: int,
    lines: Seq<ProductView>,
    now: NaiveDateTime,
    done: int,
)
    requires
        0 <= done < lines.len(),
        lines_fit(ledger, kind, header_id, lines, now),
        lines_posted(ledger, kind, header_id, lines.take(done), now) is Ok,
    ensures
        line_fits(
            lines_posted(ledger, kind, header_id, lines.take(done), now)->Ok_0,
            kind,
            lines[done],
        ),
    decreases lines.len(),
{
    if done == lines.len() - 1 {
        assert(lines.take(done) =~= lines.drop_last());
    } else {
        assert(lines.drop_last().take(done) =~= lines.take(done));
        lemma_lines_fit_at(ledger, kind, header_id, lines.drop_last(), now, done);
    }
}

/// Posting one line more leaves quantities that can be held if the lines
/// before it do and the line itself does on what they left.
pub proof fn lemma_lines_fit_step(
    ledger: LedgerView,
    kind: PostingKind,
    header_id: int,
    lines: Seq<ProductView>,
    now: NaiveDateTime,
    done: int,
)
    requires
        0 <= done < lines.len(),
    ensures
        lines_fit(ledger, kind, header_id, lines.take(done + 1), now) == {
            &&& lines_fit(ledger, kind, header_id, lines.take(done), now)
            &&& lines_posted(ledger, kind, header_id, lines.take(done), now) matches Ok(before)
                ==> line_fits(before, kind, lines[done])
        },
{
    assert(lines.take(done + 1).drop_last() =~= lines.take(done));
    assert(lines.take(done + 1).last() == lines[done]);
}

/// Once a line has failed, the lines behind it are never reached: if the
/// quantities fit as far as the failure, they fit for the whole batch.
pub proof fn lemma_lines_fit_after_failure(
    ledger: LedgerView,
    kind: PostingKind,
    header_id: int,
    lines: Seq<ProductView>,
    now: NaiveDateTime,
    done: int,
)
    requires
        0 <= done <= lines.len(),
        lines_posted(ledger, kind, header_id, lines.take(done), now) is Err,
        lines_fit(ledger, kind, header_id, lines.take(done), now),
    ensures
        lines_fit(ledger, kind, header_id, lines, now),
    decreases lines.len() - done,
{
    if done == lines.len() {
        assert(lines.take(done) =~= lines);
    } else {
        lemma_lines_fit_step(ledger, kind, header_id, lines, now, done);
        lemma_lines_posted_step(ledger, kind, header_id, lines, now, done);
        lemma_lines_fit_after_failure(ledger, kind, header_id, lines, now, done + 1);
    }
}

/// Two ledgers hold the same products in the same quantities.
pub open spec fn same_stock(one: LedgerView, other: LedgerView) -> bool {
    &&& one.products.len() == other.products.len()
    &&& forall|i: int|
        0 <= i < one.products.len() ==> (#[trigger] one.products[i]).quantity
            == other.products[i].quantity
}

/// Whether a line's product can be settled, and what stock that leaves,
/// depends on the stock alone.
pub proof fn lemma_settled_by_stock(
    one: LedgerView,
    other: LedgerView,
    kind: PostingKind,
    line: ProductView,
    now: NaiveDateTime,
    then: NaiveDateTime,
)
    requires
        same_stock(one, other),
    ensures
        line_fits(one, kind, line) == line_fits(other, kind, line),
        product_settled(one, kind, line, now) is Ok == product_settled(other, kind, line, then) is Ok,
        product_settled(one, kind, line, now) is Ok ==> same_stock(
            product_settled(one, kind, line, now)->Ok_0.0,
            product_settled(other, kind, line, then)->Ok_0.0,
        ),
{
    if line.id != 0 && one.has_product(line.id) {
        assert(one.products[line.id - 1].quantity == other.products[line.id - 1].quantity);
    }
}

/// Whether a batch of lines can be posted, what stock that leaves, and
/// whether every quantity left can be held, depend on the stock alone: not
/// on the time, the header or the other rows.
pub proof fn lemma_lines_posted_by_stock(
    one: LedgerView,
    other: LedgerView,
    kind: PostingKind,
    header_id: int,
    other_header_id: int,
    lines: Seq<ProductView>,
    now: NaiveDateTime,
    then: NaiveDateTime,
)
    requires
        same_stock(one, other),
    ensures
        lines_fit(one, kind, header_id, lines, now) == lines_fit(
            other,
            kind,
            other_header_id,
            lines,
            then,
        ),
        lines_posted(one, kind, header_id, lines, now) is Ok == lines_posted(
            other,
            kind,
            other_header_id,
            lines,
            then,
        ) is Ok,
        lines_posted(one, kind, header_id, lines, now) is Ok ==> same_stock(
            lines_posted(one, kind, header_id, lines, now)->Ok_0,
            lines_posted(other, kind, other_header_id, lines, then)->Ok_0,
        ),
    decreases lines.len(),
{
    if lines.len() > 0 {
        lemma_lines_posted_by_stock(
            one,
            other,
            kind,
            header_id,
            other_header_id,
            lines.drop_last(),
            now,
            then,
        );
        if lines_posted(one, kind, header_id, lines.drop_last(), now) is Ok {
            lemma_settled_by_stock(
                lines_posted(one, kind, header_id, lines.drop_last(), now)->Ok_0,
                lines_posted(other, kind, other_header_id, lines.drop_last(), then)->Ok_0,
                kind,
                lines.last(),
                now,
                then,
            );
        }
    }
}

/// Whether a batch can be posted to a ledger does not depend on the time
/// of the posting.
pub proof fn lemma_postable_at_any_time(
    ledger: LedgerView,
    kind: PostingKind,
    lines: Seq<ProductView>,
    now: NaiveDateTime,
    then: NaiveDateTime,
)
    requires
        postable(ledger, kind, lines, now),
    ensures
        postable(ledger, kind, lines, then),
{
    let number = ledger.headers(kind).len() as int + 1;
    lemma_lines_posted_by_stock(
        ledger.with_header(kind, header_row(kind, lines, now)),
        ledger.with_header(kind, header_row(kind, lines, then)),
        kind,
        number,
        number,
        lines,
        now,
        then,
    );
}

} // verus!
