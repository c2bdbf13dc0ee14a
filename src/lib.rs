//! A small client library for the MediaWiki query API: request URL
//! building, title normalization, the response schema and the rules that
//! turn returned pages into printable reports.

pub mod errors;
pub mod present;
pub mod schema;
pub mod urlbuilder;

