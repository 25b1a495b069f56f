//! Verified core of the Fates List API v3 routes: the Markdown documentation
//! generator and the decisions that the HTTP handlers take.

pub mod text;
pub mod docs;
pub mod routes;
pub mod votes;
