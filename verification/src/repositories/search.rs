//! Looking products up by what they hold: the rows that match, in the
//! order of the table, up to a limit.

use vstd::prelude::*;
use crate::entities::views::ProductView;

verus! {

/// `needle` stands in `hay` at place `at`.
pub open spec fn occurs_at(hay: Seq<char>, needle: Seq<char>, at: int) -> bool {
    &&& 0 <= at
    &&& at + needle.len() <= hay.len()
    &&& hay.subrange(at, at + needle.len()) == needle
}

/// `needle` stands somewhere in `hay`, character for character.
pub open spec fn contains_text(hay: Seq<char>, needle: Seq<char>) -> bool {
    exists|at: int| occurs_at(hay, needle, at)
}

/// The products in stock whose name contains `needle`.
pub open spec fn name_matches(needle: Seq<char>) -> spec_fn(ProductView) -> bool {
    |product: ProductView| product.quantity > 0 && contains_text(product.name, needle)
}

/// The products whose barcode is `ean`.
pub open spec fn ean_matches(ean: Seq<char>) -> spec_fn(ProductView) -> bool {
    |product: ProductView| product.ean == Some(ean)
}

/// The rows that are wanted, in the order of the table; of more than
/// `limit` of them the first `limit`.
pub open spec fn first_matches(
    rows: Seq<ProductView>,
    wanted: spec_fn(ProductView) -> bool,
    limit: int,
) -> Seq<ProductView> {
    let all = rows.filter(wanted);
    if all.len() <= limit {
        all
    } else {
        all.take(limit)
    }
}

/// The matches among the first rows of a table are the first of the
/// matches in the whole table.
pub proof fn lemma_matches_so_far(rows: Seq<ProductView>, wanted: spec_fn(ProductView) -> bool, seen: int)
    requires
        0 <= seen <= rows.len(),
    ensures
        rows.take(seen).filter(wanted).len() <= rows.filter(wanted).len(),
        rows.filter(wanted).take(rows.take(seen).filter(wanted).len() as int) == rows.take(seen).filter(
            wanted,
        ),
{
    let head = rows.take(seen);
    let tail = rows.skip(seen);
    assert(head + tail =~= rows);
    Seq::filter_distributes_over_add(head, tail, wanted);
    assert((head.filter(wanted) + tail.filter(wanted)).take(head.filter(wanted).len() as int)
        =~= head.filter(wanted));
}

/// One row further, the matches so far are those before, with the row
/// itself behind them if it is wanted.
pub proof fn lemma_matches_next(rows: Seq<ProductView>, wanted: spec_fn(ProductView) -> bool, seen: int)
    requires
        0 <= seen < rows.len(),
    ensures
        rows.take(seen + 1).filter(wanted) == if wanted(rows[seen]) {
            rows.take(seen).filter(wanted).push(rows[seen])
        } else {
            rows.take(seen).filter(wanted)
        },
{
    reveal(Seq::filter);
    assert(rows.take(seen + 1).drop_last() =~= rows.take(seen));
    assert(rows.take(seen + 1).last() == rows[seen]);
}

/// Whether `needle` stands in `hay` at place `at`.
fn text_occurs_at(hay: &Vec<char>, needle: &Vec<char>, at: usize) -> (found: bool)
    requires
        at + needle.len() <= hay.len(),
    ensures
        found == occurs_at(hay@, needle@, at as int),
{
    let mut i: usize = 0;
    while i < needle.len()
        invariant
            i <= needle.len(),
            at + needle.len() <= hay.len(),
            forall|j: int| 0 <= j < i ==> hay@[at + j] == needle@[j],
        decreases needle.len() - i,
    {
        if hay[at + i] != needle[i] {
            assert(hay@.subrange(at as int, at + needle.len())[i as int] != needle@[i as int]);
            return false;
        }
        i += 1;
    }
    assert(hay@.subrange(at as int, at + needle.len()) =~= needle@);
    true
}

/// Whether `needle` stands somewhere in `hay`, character for character.
pub fn text_contains(hay: &Vec<char>, needle: &Vec<char>) -> (found: bool)
    ensures
        found == contains_text(hay@, needle@),
{
    if needle.len() > hay.len() {
        assert(forall|at: int| !occurs_at(hay@, needle@, at));
        return false;
    }
    let last: usize = hay.len() - needle.len();
    let mut at: usize = 0;
    while at < last
        invariant
            at <= last,
            last == hay.len() - needle.len(),
            forall|k: int| 0 <= k < at ==> !occurs_at(hay@, needle@, k),
        decreases last - at,
    {
        if text_occurs_at(hay, needle, at) {
            return true;
        }
        at += 1;
    }
    let found = text_occurs_at(hay, needle, last);
    assert(!found ==> forall|k: int| !occurs_at(hay@, needle@, k));
    found
}

} // verus!
