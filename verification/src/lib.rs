//! Parsing and modelling of Spanish public auctions published in the BOE
//! auction portal.

pub mod text;
pub mod concepts;
pub mod table;
pub mod provinces;
pub mod categories;
pub mod dates;
pub mod types;
pub mod html;
pub mod parser;
pub mod util;
pub mod web;
pub mod listing;
pub mod scrape;
pub mod catalog;
pub mod geosolver;
pub mod frontend;
