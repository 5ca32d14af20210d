//! A verified boundary layer between a caller and a graph-query engine that is
//! reached only through an opaque handle API: connection lifecycle, query
//! execution, and decoding of the engine's tagged result cells.
pub mod driver;
pub mod error;
pub mod models;
pub mod props;
pub mod state;
pub mod text;

pub use driver::{Diagnostic, Executor, MetrixDB, Phase, RawEdge, RawNode, Reply, Request};
pub use error::{translate_last_error, DbError};
pub use models::{GraphEdge, GraphNode, QueryResult, Value, ValueType};
pub use props::parse_props;
pub use state::AppState;
