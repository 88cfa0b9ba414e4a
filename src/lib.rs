//! Extraction of product-listing records from catalog pages of a militaria shop.
//!
//! The pure logic (text scanning, price and state parsing, record assembly and
//! URL building) is verified against spec functions over plain values; the
//! HTML tree is read through `scraper`, behind a few trusted wrappers.
pub mod adapter;
pub mod dom;
pub mod fields;
pub mod item;
pub mod laws;
pub mod page;
pub mod text;
