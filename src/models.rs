//! The values a decoded query result is made of.
use vstd::prelude::*;

verus! {

/// The engine's type tag of one result cell.
#[derive(PartialEq, Eq, Structural, Clone, Copy, Debug)]
pub enum ValueType {
    Null,
    Bool,
    Int,
    Double,
    String,
    Node,
    Edge,
}

/// One decoded result cell. A double is carried as its IEEE-754 bit pattern;
/// a graph entity is carried as a reference to an entry of `nodes` or `edges`.
#[derive(PartialEq, Eq, Clone, Debug)]
pub enum Value {
    Null,
    Bool(bool),
    Int(i64),
    Double(u64),
    Str(String),
    NodeRef(i64),
    EdgeRef(i64),
}

/// A node met in a result cell. `properties` is the text of a JSON object.
#[derive(Clone, Debug)]
pub struct GraphNode {
    pub id: i64,
    pub label: String,
    pub properties: String,
}

/// An edge met in a result cell. `properties` is the text of a JSON object.
#[derive(Clone, Debug)]
pub struct GraphEdge {
    pub id: i64,
    pub source: i64,
    pub target: i64,
    pub label: String,
    pub properties: String,
}

/// A fully decoded query result.
#[derive(Debug)]
pub struct QueryResult {
    pub columns: Vec<String>,
    pub rows: Vec<Vec<Value>>,
    pub nodes: Vec<GraphNode>,
    pub edges: Vec<GraphEdge>,
    pub duration_ms: u128,
}

impl QueryResult {
    /// Every row holds one cell per column.
    pub open spec fn rectangular(&self) -> bool {
        forall|i: int| 0 <= i < self.rows@.len() ==> #[trigger] self.rows@[i]@.len() == self.columns@.len()
    }

    pub fn empty() -> (r: QueryResult)
        ensures
            r.columns@.len() == 0,
            r.rows@.len() == 0,
            r.nodes@.len() == 0,
            r.edges@.len() == 0,
            r.duration_ms == 0,
    {
        QueryResult { columns: Vec::new(), rows: Vec::new(), nodes: Vec::new(), edges: Vec::new(), duration_ms: 0 }
    }
}

} // verus!
