//! The ledger held in memory.

use vstd::prelude::*;
use crate::entities::product::{clone_products, Product};
use crate::entities::product_purchase::ProductPurchase;
use crate::entities::product_sale::ProductSale;
use crate::entities::purchase::Purchase;
use crate::entities::sale::Sale;
use crate::entities::views::{HeaderView, LineView, ProductView};
use crate::ledger::model::LedgerView;

verus! {

/// The models of a table of products, row by row.
pub open spec fn product_rows(rows: Seq<Product>) -> Seq<ProductView> {
    Seq::new(rows.len(), |i: int| rows[i]@)
}

/// The models of a table of purchase headers, row by row.
pub open spec fn purchase_rows(rows: Seq<Purchase>) -> Seq<HeaderView> {
    Seq::new(rows.len(), |i: int| rows[i]@)
}

/// The models of a table of sale headers, row by row.
pub open spec fn sale_rows(rows: Seq<Sale>) -> Seq<HeaderView> {
    Seq::new(rows.len(), |i: int| rows[i]@)
}

/// The models of a table of purchase lines, row by row.
pub open spec fn purchase_line_rows(rows: Seq<ProductPurchase>) -> Seq<LineView> {
    Seq::new(rows.len(), |i: int| rows[i]@)
}

/// The models of a table of sale lines, row by row.
pub open spec fn sale_line_rows(rows: Seq<ProductSale>) -> Seq<LineView> {
    Seq::new(rows.len(), |i: int| rows[i]@)
}

/// The ledger's five tables. The repositories read and write them; a
/// posting works on a copy, which takes the ledger's place only when every
/// step has succeeded.
#[derive(Debug)]
pub struct Ledger {
    pub products: Vec<Product>,
    pub purchases: Vec<Purchase>,
    pub sales: Vec<Sale>,
    pub product_purchases: Vec<ProductPurchase>,
    pub product_sales: Vec<ProductSale>,
}

impl View for Ledger {
    type V = LedgerView;

    open spec fn view(&self) -> LedgerView {
        LedgerView {
            products: product_rows(self.products@),
            purchases: purchase_rows(self.purchases@),
            sales: sale_rows(self.sales@),
            purchase_lines: purchase_line_rows(self.product_purchases@),
            sale_lines: sale_line_rows(self.product_sales@),
        }
    }
}

impl Ledger {
    /// Rows are numbered from one in the order in which they came.
    pub open spec fn wf(&self) -> bool {
        self@.wf()
    }

    /// Whether the rows are numbered from one in the order in which they
    /// came.
    pub fn is_wf(&self) -> (sound: bool)
        ensures
            sound == self.wf(),
    {
        for i in 0..self.products.len()
            invariant
                forall|j: int| 0 <= j < i ==> (#[trigger] self@.products[j]).id == j + 1,
        {
            if self.products[i].id as i128 != i as i128 + 1 {
                assert(self@.products[i as int].id != i + 1);
                return false;
            }
        }
        for i in 0..self.purchases.len()
            invariant
                forall|j: int| 0 <= j < i ==> (#[trigger] self@.purchases[j]).id == j + 1,
        {
            if self.purchases[i].id as i128 != i as i128 + 1 {
                assert(self@.purchases[i as int].id != i + 1);
                return false;
            }
        }
        for i in 0..self.sales.len()
            invariant
                forall|j: int| 0 <= j < i ==> (#[trigger] self@.sales[j]).id == j + 1,
        {
            if self.sales[i].id as i128 != i as i128 + 1 {
                assert(self@.sales[i as int].id != i + 1);
                return false;
            }
        }
        for i in 0..self.product_purchases.len()
            invariant
                forall|j: int| 0 <= j < i ==> (#[trigger] self@.purchase_lines[j]).id == j + 1,
        {
            if self.product_purchases[i].id as i128 != i as i128 + 1 {
                assert(self@.purchase_lines[i as int].id != i + 1);
                return false;
            }
        }
        for i in 0..self.product_sales.len()
            invariant
                forall|j: int| 0 <= j < i ==> (#[trigger] self@.sale_lines[j]).id == j + 1,
        {
            if self.product_sales[i].id as i128 != i as i128 + 1 {
                assert(self@.sale_lines[i as int].id != i + 1);
                return false;
            }
        }
        true
    }

    /// Whether no product is short: every quantity on hand is zero or more.
    pub fn has_sound_stock(&self) -> (sound: bool)
        ensures
            sound == self@.stock_is_sound(),
    {
        for i in 0..self.products.len()
            invariant
                forall|j: int| 0 <= j < i ==> (#[trigger] self@.products[j]).quantity >= 0,
        {
            if self.products[i].quantity < 0 {
                assert(self@.products[i as int].quantity < 0);
                return false;
            }
        }
        true
    }

    /// A ledger without any row.
    pub fn new() -> (ledger: Self)
        ensures
            ledger@ == LedgerView::empty(),
            ledger.wf(),
    {
        let ledger = Ledger {
            products: Vec::new(),
            purchases: Vec::new(),
            sales: Vec::new(),
            product_purchases: Vec::new(),
            product_sales: Vec::new(),
        };
        assert(ledger@.products =~= Seq::empty());
        assert(ledger@.purchases =~= Seq::empty());
        assert(ledger@.sales =~= Seq::empty());
        assert(ledger@.purchase_lines =~= Seq::empty());
        assert(ledger@.sale_lines =~= Seq::empty());
        ledger
    }
}

impl Clone for Ledger {
    fn clone(&self) -> (copy: Self)
        ensures
            copy@ == self@,
    {
        let products = clone_products(&self.products);
        let mut purchases: Vec<Purchase> = Vec::new();
        for i in 0..self.purchases.len()
            invariant
                purchases@ == self.purchases@.subrange(0, i as int),
        {
            purchases.push(self.purchases[i].clone());
            assert(purchases@ =~= self.purchases@.subrange(0, i + 1));
        }
        assert(purchases@ =~= self.purchases@);
        let mut sales: Vec<Sale> = Vec::new();
        for i in 0..self.sales.len()
            invariant
                sales@ == self.sales@.subrange(0, i as int),
        {
            sales.push(self.sales[i].clone());
            assert(sales@ =~= self.sales@.subrange(0, i + 1));
        }
        assert(sales@ =~= self.sales@);
        let mut product_purchases: Vec<ProductPurchase> = Vec::new();
        for i in 0..self.product_purchases.len()
            invariant
                product_purchases@ == self.product_purchases@.subrange(0, i as int),
        {
            product_purchases.push(self.product_purchases[i].clone());
            assert(product_purchases@ =~= self.product_purchases@.subrange(0, i + 1));
        }
        assert(product_purchases@ =~= self.product_purchases@);
        let mut product_sales: Vec<ProductSale> = Vec::new();
        for i in 0..self.product_sales.len()
            invariant
                product_sales@ == self.product_sales@.subrange(0, i as int),
        {
            product_sales.push(self.product_sales[i].clone());
            assert(product_sales@ =~= self.product_sales@.subrange(0, i + 1));
        }
        assert(product_sales@ =~= self.product_sales@);
        Ledger { products, purchases, sales, product_purchases, product_sales }
    }
}

} // verus!
