//! The ledger as a mathematical value: five tables of rows, each row
//! numbered by its place.

use chrono::NaiveDateTime;
use vstd::prelude::*;
use crate::entities::views::{HeaderView, LineView, ProductView};

verus! {

/// Model of the ledger's state: the product table, the headers of the
/// purchases and of the sales, and their lines.
pub struct LedgerView {
    pub products: Seq<ProductView>,
    pub purchases: Seq<HeaderView>,
    pub sales: Seq<HeaderView>,
    pub purchase_lines: Seq<LineView>,
    pub sale_lines: Seq<LineView>,
}

/// The largest number a row can have.
pub open spec fn max_rows() -> int {
    0x7fff_ffff_ffff_ffff
}

impl LedgerView {
    /// The ledger without any row.
    pub open spec fn empty() -> LedgerView {
        LedgerView {
            products: Seq::empty(),
            purchases: Seq::empty(),
            sales: Seq::empty(),
            purchase_lines: Seq::empty(),
            sale_lines: Seq::empty(),
        }
    }

    /// Rows are numbered from one in the order in which they came, so the
    /// row numbered `id` stands at place `id - 1` of its table.
    pub open spec fn wf(self) -> bool {
        &&& forall|i: int| 0 <= i < self.products.len() ==> (#[trigger] self.products[i]).id == i + 1
        &&& forall|i: int| 0 <= i < self.purchases.len() ==> (#[trigger] self.purchases[i]).id == i + 1
        &&& forall|i: int| 0 <= i < self.sales.len() ==> (#[trigger] self.sales[i]).id == i + 1
        &&& forall|i: int|
            0 <= i < self.purchase_lines.len() ==> (#[trigger] self.purchase_lines[i]).id == i + 1
        &&& forall|i: int| 0 <= i < self.sale_lines.len() ==> (#[trigger] self.sale_lines[i]).id == i + 1
    }

    /// No product is short: every quantity on hand is zero or more.
    pub open spec fn stock_is_sound(self) -> bool {
        forall|i: int| 0 <= i < self.products.len() ==> (#[trigger] self.products[i]).quantity >= 0
    }

    /// Whether a product numbered `id` is on record.
    pub open spec fn has_product(self, id: int) -> bool {
        1 <= id <= self.products.len()
    }

    /// The product numbered `id`, if it is on record.
    pub open spec fn product(self, id: int) -> Option<ProductView> {
        if self.has_product(id) {
            Some(self.products[id - 1])
        } else {
            None
        }
    }

    /// The quantity on hand of the product numbered `id`; zero if there is
    /// no such product.
    pub open spec fn stock(self, id: int) -> int {
        if self.has_product(id) {
            self.products[id - 1].quantity
        } else {
            0
        }
    }

    /// The ledger after it took in `product` as a new row: the row gets the
    /// next number and counts as never updated.
    pub open spec fn with_product(self, product: ProductView) -> LedgerView {
        LedgerView {
            products: self.products.push(
                ProductView { id: self.products.len() as int + 1, updated_at: None, ..product },
            ),
            ..self
        }
    }

    /// The ledger after the row numbered `product.id` was overwritten with
    /// `product`. The row keeps its time of creation and is stamped as
    /// updated at `stamp`. Nothing changes if there is no such row.
    pub open spec fn with_product_updated(self, product: ProductView, stamp: NaiveDateTime) -> LedgerView {
        if self.has_product(product.id) {
            LedgerView {
                products: self.products.update(
                    product.id - 1,
                    ProductView {
                        created_at: self.products[product.id - 1].created_at,
                        updated_at: Some(stamp),
                        ..product
                    },
                ),
                ..self
            }
        } else {
            self
        }
    }

    /// The ledger after it took in a purchase header.
    pub open spec fn with_purchase(self, header: HeaderView) -> LedgerView {
        LedgerView {
            purchases: self.purchases.push(
                HeaderView { id: self.purchases.len() as int + 1, updated_at: None, ..header },
            ),
            ..self
        }
    }

    /// The ledger after it took in a sale header.
    pub open spec fn with_sale(self, header: HeaderView) -> LedgerView {
        LedgerView {
            sales: self.sales.push(HeaderView { id: self.sales.len() as int + 1, updated_at: None, ..header }),
            ..self
        }
    }

    /// The ledger after it took in a purchase line.
    pub open spec fn with_purchase_line(self, line: LineView) -> LedgerView {
        LedgerView {
            purchase_lines: self.purchase_lines.push(
                LineView { id: self.purchase_lines.len() as int + 1, updated_at: None, ..line },
            ),
            ..self
        }
    }

    /// The ledger after it took in a sale line.
    pub open spec fn with_sale_line(self, line: LineView) -> LedgerView {
        LedgerView {
            sale_lines: self.sale_lines.push(
                LineView { id: self.sale_lines.len() as int + 1, updated_at: None, ..line },
            ),
            ..self
        }
    }
}

} // verus!
