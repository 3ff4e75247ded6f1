//! A point-of-sale ledger: products in stock, purchases that take stock in
//! and sales that give it out, each posted as a whole or not at all, with
//! amounts kept in minor units of the currency.

pub mod clock;
pub mod entities;
pub mod helpers;
pub mod ledger;
pub mod posting;
pub mod repositories;
pub mod screens;
pub mod services;
