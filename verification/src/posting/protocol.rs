//! What a posting asks of a store, and what the store answers.

use vstd::prelude::*;
use crate::entities::product::Product;
use crate::entities::product_purchase::ProductPurchase;
use crate::entities::product_sale::ProductSale;
use crate::entities::purchase::Purchase;
use crate::entities::sale::Sale;
use crate::entities::views::{HeaderView, LineView, ProductView};
use crate::posting::error::PostingError;
use crate::posting::rules::{Failure, PostingKind};
use crate::repositories::product_repository::found_product;

verus! {

/// One thing that a posting asks of the store, or the end of the posting.
#[derive(Debug)]
pub enum Request {
    /// Open a unit of work: what follows takes effect together or not at all.
    Begin,
    /// Take in a purchase header and answer with its number.
    InsertPurchase(Purchase),
    /// Take in a sale header and answer with its number.
    InsertSale(Sale),
    /// Take in a new product and answer with its number.
    InsertProduct(Product),
    /// Look up the product with this number.
    FindProduct(i64),
    /// Overwrite the product that has this product's number.
    UpdateProduct(Product),
    /// Take in a purchase line and answer with its number.
    InsertProductPurchase(ProductPurchase),
    /// Take in a sale line and answer with its number.
    InsertProductSale(ProductSale),
    /// Make the unit of work lasting.
    Commit,
    /// The posting has failed: undo the unit of work and report the error.
    Abort(PostingError),
    /// The posting is done and lasting.
    Complete,
}

/// Model of a request.
pub enum RequestView {
    Begin,
    InsertPurchase(HeaderView),
    InsertSale(HeaderView),
    InsertProduct(ProductView),
    FindProduct(int),
    UpdateProduct(ProductView),
    InsertProductPurchase(LineView),
    InsertProductSale(LineView),
    Commit,
    Abort(Failure),
    Complete,
}

impl View for Request {
    type V = RequestView;

    open spec fn view(&self) -> RequestView {
        match self {
            Request::Begin => RequestView::Begin,
            Request::InsertPurchase(header) => RequestView::InsertPurchase(header@),
            Request::InsertSale(header) => RequestView::InsertSale(header@),
            Request::InsertProduct(product) => RequestView::InsertProduct(product@),
            Request::FindProduct(id) => RequestView::FindProduct(*id as int),
            Request::UpdateProduct(product) => RequestView::UpdateProduct(product@),
            Request::InsertProductPurchase(line) => RequestView::InsertProductPurchase(line@),
            Request::InsertProductSale(line) => RequestView::InsertProductSale(line@),
            Request::Commit => RequestView::Commit,
            Request::Abort(error) => RequestView::Abort(error@),
            Request::Complete => RequestView::Complete,
        }
    }
}

/// The request to take in a header of the given kind.
pub open spec fn insert_header(kind: PostingKind, header: HeaderView) -> RequestView {
    match kind {
        PostingKind::Purchase => RequestView::InsertPurchase(header),
        PostingKind::Sale => RequestView::InsertSale(header),
    }
}

/// The request to take in a line of the given kind.
pub open spec fn insert_line(kind: PostingKind, line: LineView) -> RequestView {
    match kind {
        PostingKind::Purchase => RequestView::InsertProductPurchase(line),
        PostingKind::Sale => RequestView::InsertProductSale(line),
    }
}

/// The store's answer to a request.
#[derive(Debug)]
pub enum Response {
    /// The request was carried out and there is nothing to tell.
    Done,
    /// The row was taken in under this number.
    Inserted(i64),
    /// The product that was looked up, if it is on record.
    Found(Option<Product>),
    /// The store failed; the text is the store's.
    Failed(String),
}

/// Model of a response.
pub enum ResponseView {
    Done,
    Inserted(int),
    Found(Option<ProductView>),
    Failed(Seq<char>),
}

impl View for Response {
    type V = ResponseView;

    open spec fn view(&self) -> ResponseView {
        match self {
            Response::Done => ResponseView::Done,
            Response::Inserted(id) => ResponseView::Inserted(*id as int),
            Response::Found(found) => ResponseView::Found(found_product(*found)),
            Response::Failed(message) => ResponseView::Failed(message@),
        }
    }
}

} // verus!
