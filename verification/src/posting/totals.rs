//! The amount of a batch, computed and bounded.

use vstd::prelude::*;
use crate::entities::product::Product;
use crate::entities::views::ProductView;
use crate::posting::rules::{batch_total, fits, line_total, unit_price, valid_line, valid_lines, PostingKind};

verus! {

/// The models of a batch of lines, line by line.
pub open spec fn line_views(lines: Seq<Product>) -> Seq<ProductView> {
    Seq::new(lines.len(), |i: int| lines[i]@)
}

/// The amount of a valid line is not negative.
pub proof fn lemma_line_total_nonnegative(kind: PostingKind, line: ProductView)
    requires
        valid_line(line),
    ensures
        line_total(kind, line) >= 0,
{
    let quantity = line.quantity;
    let price = unit_price(kind, line);
    assert(quantity * price >= 0) by (nonlinear_arith)
        requires
            quantity > 0,
            price >= 0,
    ;
}

/// In a batch of valid lines, the amount of the first `count` lines is
/// not negative and not above the amount of the whole batch.
pub proof fn lemma_batch_total_grows(kind: PostingKind, lines: Seq<ProductView>, count: int)
    requires
        valid_lines(lines),
        0 <= count <= lines.len(),
    ensures
        0 <= batch_total(kind, lines.take(count)) <= batch_total(kind, lines),
    decreases lines.len() - count,
{
    if count == lines.len() {
        assert(lines.take(count) =~= lines);
        lemma_batch_total_nonnegative(kind, lines);
    } else {
        lemma_batch_total_grows(kind, lines, count + 1);
        assert(lines.take(count + 1).drop_last() =~= lines.take(count));
        assert(lines.take(count + 1).last() == lines[count]);
        lemma_line_total_nonnegative(kind, lines[count]);
        lemma_batch_total_nonnegative(kind, lines.take(count));
    }
}

/// The amount of a batch of valid lines is not negative.
pub proof fn lemma_batch_total_nonnegative(kind: PostingKind, lines: Seq<ProductView>)
    requires
        valid_lines(lines),
    ensures
        batch_total(kind, lines) >= 0,
    decreases lines.len(),
{
    if lines.len() > 0 {
        lemma_batch_total_nonnegative(kind, lines.drop_last());
        lemma_line_total_nonnegative(kind, lines.last());
    }
}

/// In a batch of valid lines, no line's amount is above the batch's.
pub proof fn lemma_line_total_bounded(kind: PostingKind, lines: Seq<ProductView>, at: int)
    requires
        valid_lines(lines),
        0 <= at < lines.len(),
    ensures
        0 <= line_total(kind, lines[at]) <= batch_total(kind, lines),
{
    lemma_batch_total_grows(kind, lines, at + 1);
    lemma_batch_total_grows(kind, lines, at);
    assert(lines.take(at + 1).drop_last() =~= lines.take(at));
    assert(lines.take(at + 1).last() == lines[at]);
    lemma_line_total_nonnegative(kind, lines[at]);
    assert(lines.take(at).take(at) =~= lines.take(at));
    lemma_batch_total_nonnegative(kind, lines.take(at));
}

/// The price that counts for `line` in a posting of the given kind.
pub fn price_of(kind: PostingKind, line: &Product) -> (price: i64)
    ensures
        price == unit_price(kind, line@),
{
    match kind {
        PostingKind::Purchase => line.price_purchase,
        PostingKind::Sale => line.price_sale,
    }
}

/// Whether a line has the shape that a posting takes.
pub fn is_valid_line(line: &Product) -> (valid: bool)
    ensures
        valid == valid_line(line@),
{
    line.quantity > 0 && line.price_purchase >= 0 && line.price_sale >= 0
}

/// The amount of a batch of valid lines, where a row can hold it.
pub fn total_of(kind: PostingKind, lines: &Vec<Product>) -> (total: Option<i64>)
    requires
        valid_lines(line_views(lines@)),
    ensures
        match total {
            Some(amount) => amount == batch_total(kind, line_views(lines@)),
            None => !fits(batch_total(kind, line_views(lines@))),
        },
{
    let ghost views = line_views(lines@);
    let mut total: i64 = 0;
    for i in 0..lines.len()
        invariant
            views == line_views(lines@),
            valid_lines(views),
            total == batch_total(kind, views.take(i as int)),
    {
        let line = &lines[i];
        proof {
            assert(views.take(i + 1).drop_last() =~= views.take(i as int));
            assert(views.take(i + 1).last() == line@);
            assert(valid_line(views[i as int]));
            lemma_line_total_nonnegative(kind, line@);
            lemma_batch_total_grows(kind, views, i as int);
            lemma_batch_total_grows(kind, views, i + 1);
        }
        let amount = match line.quantity.checked_mul(price_of(kind, line)) {
            Some(amount) => amount,
            None => {
                return None;
            },
        };
        total = match total.checked_add(amount) {
            Some(sum) => sum,
            None => {
                return None;
            },
        };
    }
    assert(views.take(lines.len() as int) =~= views);
    Some(total)
}

} // verus!
