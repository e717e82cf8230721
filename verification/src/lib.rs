//! A verified query router for a database browser.
//!
//! A single background task owns the one live database connection. It accepts
//! typed query requests over a channel, executes them, converts raw result
//! rows into a typed representation, and returns exactly one response per
//! request over a second channel. The decision logic — which SQL each query
//! variant runs, how cells are decoded and labelled, and how the router moves
//! between its states — lives here and is verified; the asynchronous plumbing
//! around it is ordinary Rust.

pub mod classify;
pub mod pg;
pub mod query;
pub mod router;
pub mod table;
pub mod text;

pub use classify::TypedField;
pub use classify::TypedTable;
pub use classify::TypedTableResult;
pub use classify::convert_rows;
pub use classify::convert_to_typed_cell;
pub use pg::ColKind;
pub use pg::PgCell;
pub use query::Connection;
pub use query::CustomQuery;
pub use query::DatabaseTable;
pub use query::FullQuery;
pub use query::Query;
pub use query::get_resulting_connection_string;
pub use router::DatabaseQueryResult;
pub use router::RouterAction;
pub use router::RouterEvent;
pub use router::RouterState;
pub use router::WhateverError;
pub use router::router_step;
pub use table::BasicTextField;
pub use table::BasicTextTable;
