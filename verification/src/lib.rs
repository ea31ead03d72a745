//! Refetchable-query generation for a GraphQL compiler.
//!
//! Given a fragment that a client wants to re-fetch independently, this
//! library synthesizes a standalone, schema-valid query operation that
//! fetches the fragment's data from an appropriate root field. A registry
//! of strategies is tried in order; the first strategy that recognizes the
//! fragment's type condition either produces a refetch root or reports a
//! structured validation error.

pub mod config;
pub mod ir;
pub mod refetchable_fragment;
pub mod root_variables;
pub mod schema;
pub mod viewer_query_generator;

