//! The connection handle and the query executor.
//!
//! The engine's handle API is driven from outside the library: an
//! [`Executor`] names the next engine operation to perform ([`Request`]) and
//! consumes what that operation gave back ([`Reply`]). Every decision (which
//! accessor a cell needs, what a null pointer becomes, when the cursor is
//! released) is made here.
use vstd::prelude::*;
use crate::error::{DbError, translate_last_error, translated_error};
use crate::models::{GraphEdge, GraphNode, QueryResult, Value, ValueType};
use crate::props::{decoded_props, parse_props};
use crate::text::{concat, contains_nul, decimal, has_nul, u32_to_decimal};

verus! {

/// A node as the engine's node accessor reports it; a null label is `None`.
pub struct RawNode {
    pub id: i64,
    pub label: Option<String>,
}

/// An edge as the engine's edge accessor reports it; a null label is `None`.
pub struct RawEdge {
    pub id: i64,
    pub source: i64,
    pub target: i64,
    pub label: Option<String>,
}

/// The engine operation an executor asks for next. A column index is below
/// the declared column count, which itself is at most `i32::MAX`.
#[derive(PartialEq, Eq, Structural, Clone, Copy, Debug)]
pub enum Request {
    /// Run the query on the connection.
    Execute,
    /// Read the engine's last error (no cursor was returned).
    ReadLastError,
    /// Read the cursor's success flag.
    CheckSuccess,
    /// Read the cursor's error text.
    ReadError,
    ColumnCount,
    ColumnName(u32),
    /// Advance the cursor to the next row.
    Next,
    CellType(u32),
    ReadString(u32),
    ReadInt(u32),
    ReadDouble(u32),
    ReadBool(u32),
    ReadNode(u32),
    ReadEdge(u32),
    ReadProps(u32),
    /// Release the cursor.
    CloseCursor,
    /// Nothing more: the outcome is ready.
    Finished,
}

/// What an engine operation gave back. A null string pointer is `None`; a
/// double is given as its bit pattern; a failed node or edge extraction is
/// `None`.
pub enum Reply {
    Cursor(bool),
    LastError(Option<String>),
    Success(bool),
    ErrorText(Option<String>),
    ColumnCount(i32),
    ColumnName(Option<String>),
    HasRow(bool),
    CellType(ValueType),
    Str(Option<String>),
    Int(i64),
    Double(u64),
    Bool(bool),
    Node(Option<RawNode>),
    Edge(Option<RawEdge>),
    Props(Option<String>),
    Closed,
}

/// A non-fatal event met while decoding: the cell at `row`, `column` was
/// tagged as a node or an edge (`entity`), but the entity could not be
/// extracted, and the cell became `Null`.
#[derive(PartialEq, Eq, Structural, Clone, Copy, Debug)]
pub struct Diagnostic {
    pub row: usize,
    pub column: u32,
    pub entity: ValueType,
}

/// Where an executor stands.
pub enum Phase {
    Execute,
    ReadLastError,
    CheckSuccess,
    ReadError,
    CloseAfterFailure,
    ColumnCount,
    ColumnName(u32),
    NextRow,
    CellType(u32),
    CellValue(u32, ValueType),
    NodeProps(u32, i64, String),
    EdgeProps(u32, i64, i64, i64, String),
    CloseAfterRows,
    Done,
}

/// One query's execution, from the engine call to the released cursor.
pub struct Executor {
    pub phase: Phase,
    /// The declared column count (zero until it is read).
    pub count: u32,
    pub result: QueryResult,
    /// The cells of the row being read.
    pub row: Vec<Value>,
    pub failure: Option<DbError>,
    /// The non-fatal events met so far, in order.
    pub events: Vec<Diagnostic>,
    /// Whether the engine returned a cursor.
    pub obtained: Ghost<bool>,
    /// How many times the cursor was released.
    pub closes: Ghost<nat>,
}

pub open spec fn opt_view(o: Option<String>) -> Option<Seq<char>> {
    match o {
        Some(s) => Some(s@),
        None => None,
    }
}

/// The column count that a reported count declares: a negative count is none.
pub open spec fn declared_count(n: i32) -> nat {
    if n < 0 { 0 } else { n as nat }
}

/// The name of column `i`: the engine's, or `col_<i>` where it has none.
pub open spec fn column_name_of(i: u32, raw: Option<Seq<char>>) -> Seq<char> {
    match raw {
        Some(t) => t,
        None => "col_"@ + decimal(i as nat),
    }
}

pub open spec fn unknown_execution_error() -> Seq<char> {
    "Unknown database execution error"@
}

/// The text of a failed query: the cursor's error, or a fixed text for null.
pub open spec fn execution_error_of(raw: Option<Seq<char>>) -> Seq<char> {
    match raw {
        Some(t) => t,
        None => unknown_execution_error(),
    }
}

pub open spec fn text_or(raw: Option<Seq<char>>, default: Seq<char>) -> Seq<char> {
    match raw {
        Some(t) => t,
        None => default,
    }
}

pub open spec fn request_of(p: Phase) -> Request {
    match p {
        Phase::Execute => Request::Execute,
        Phase::ReadLastError => Request::ReadLastError,
        Phase::CheckSuccess => Request::CheckSuccess,
        Phase::ReadError => Request::ReadError,
        Phase::CloseAfterFailure => Request::CloseCursor,
        Phase::ColumnCount => Request::ColumnCount,
        Phase::ColumnName(i) => Request::ColumnName(i),
        Phase::NextRow => Request::Next,
        Phase::CellType(c) => Request::CellType(c),
        Phase::CellValue(c, t) => match t {
            ValueType::String => Request::ReadString(c),
            ValueType::Int => Request::ReadInt(c),
            ValueType::Double => Request::ReadDouble(c),
            ValueType::Bool => Request::ReadBool(c),
            ValueType::Node => Request::ReadNode(c),
            ValueType::Edge => Request::ReadEdge(c),
            ValueType::Null => Request::Finished,
        },
        Phase::NodeProps(c, _, _) => Request::ReadProps(c),
        Phase::EdgeProps(c, _, _, _, _) => Request::ReadProps(c),
        Phase::CloseAfterRows => Request::CloseCursor,
        Phase::Done => Request::Finished,
    }
}

impl Executor {
    /// Everything but the phase is as in `a`.
    pub open spec fn kept(a: Executor, b: Executor) -> bool {
        &&& b.count == a.count
        &&& b.result.columns@ == a.result.columns@
        &&& b.result.rows@ == a.result.rows@
        &&& b.result.nodes@ == a.result.nodes@
        &&& b.result.edges@ == a.result.edges@
        &&& b.result.duration_ms == a.result.duration_ms
        &&& b.row@ == a.row@
        &&& b.failure == a.failure
        &&& b.events@ == a.events@
        &&& b.obtained@ == a.obtained@
        &&& b.closes@ == a.closes@
    }

    /// `b` is `a` with cell `v` placed in column `c`, and entities `n`, `e`
    /// and events `d` appended: a full row moves to `rows` and the executor
    /// reads the next row; otherwise it reads the next column.
    pub open spec fn cell_added(
        a: Executor,
        b: Executor,
        c: u32,
        v: Value,
        n: Seq<GraphNode>,
        e: Seq<GraphEdge>,
        d: Seq<Diagnostic>,
    ) -> bool {
        &&& b.count == a.count
        &&& b.result.columns@ == a.result.columns@
        &&& b.result.nodes@ == a.result.nodes@ + n
        &&& b.result.edges@ == a.result.edges@ + e
        &&& b.events@ == a.events@ + d
        &&& b.result.duration_ms == a.result.duration_ms
        &&& b.failure == a.failure
        &&& b.obtained@ == a.obtained@
        &&& b.closes@ == a.closes@
        &&& if c + 1 == a.count {
            &&& b.result.rows@.len() == a.result.rows@.len() + 1
            &&& b.result.rows@.drop_last() == a.result.rows@
            &&& b.result.rows@.last()@ == a.row@.push(v)
            &&& b.row@.len() == 0
            &&& b.phase == Phase::NextRow
        } else {
            &&& b.result.rows@ == a.result.rows@
            &&& b.row@ == a.row@.push(v)
            &&& b.phase == Phase::CellType((c + 1) as u32)
        }
    }

    /// What one reply does to an executor. A reply that does not answer the
    /// pending request changes nothing.
    pub open spec fn step_spec(a: Executor, reply: Reply, b: Executor) -> bool {
        match (a.phase, reply) {
            (Phase::Execute, Reply::Cursor(got)) => {
                &&& b.phase == (if got { Phase::CheckSuccess } else { Phase::ReadLastError })
                &&& b.obtained@ == got
                &&& b.count == a.count && b.result.columns@ == a.result.columns@ && b.result.rows@ == a.result.rows@
                &&& b.result.nodes@ == a.result.nodes@ && b.result.edges@ == a.result.edges@
                &&& b.row@ == a.row@ && b.failure == a.failure && b.closes@ == a.closes@ && b.events@ == a.events@
            },
            (Phase::ReadLastError, Reply::LastError(raw)) => {
                &&& b.phase == Phase::Done
                &&& b.failure matches Some(DbError::SystemFailure(t)) && t@ == translated_error(opt_view(raw))
                &&& b.count == a.count && b.result.columns@ == a.result.columns@ && b.result.rows@ == a.result.rows@
                &&& b.result.nodes@ == a.result.nodes@ && b.result.edges@ == a.result.edges@
                &&& b.row@ == a.row@ && b.obtained@ == a.obtained@ && b.closes@ == a.closes@ && b.events@ == a.events@
            },
            (Phase::CheckSuccess, Reply::Success(ok)) => {
                &&& b.phase == (if ok { Phase::ColumnCount } else { Phase::ReadError })
                &&& Self::kept(a, b)
            },
            (Phase::ReadError, Reply::ErrorText(raw)) => {
                &&& b.phase == Phase::CloseAfterFailure
                &&& b.failure matches Some(DbError::ExecutionFailure(t)) && t@ == execution_error_of(opt_view(raw))
                &&& b.count == a.count && b.result.columns@ == a.result.columns@ && b.result.rows@ == a.result.rows@
                &&& b.result.nodes@ == a.result.nodes@ && b.result.edges@ == a.result.edges@
                &&& b.row@ == a.row@ && b.obtained@ == a.obtained@ && b.closes@ == a.closes@ && b.events@ == a.events@
            },
            (Phase::CloseAfterFailure, Reply::Closed) | (Phase::CloseAfterRows, Reply::Closed) => {
                &&& b.phase == Phase::Done
                &&& b.closes@ == a.closes@ + 1
                &&& b.count == a.count && b.result.columns@ == a.result.columns@ && b.result.rows@ == a.result.rows@
                &&& b.result.nodes@ == a.result.nodes@ && b.result.edges@ == a.result.edges@
                &&& b.row@ == a.row@ && b.failure == a.failure && b.obtained@ == a.obtained@ && b.events@ == a.events@
            },
            (Phase::ColumnCount, Reply::ColumnCount(n)) => {
                &&& b.count == declared_count(n)
                &&& b.phase == (if declared_count(n) == 0 { Phase::NextRow } else { Phase::ColumnName(0) })
                &&& b.result.columns@ == a.result.columns@ && b.result.rows@ == a.result.rows@
                &&& b.result.nodes@ == a.result.nodes@ && b.result.edges@ == a.result.edges@
                &&& b.row@ == a.row@ && b.failure == a.failure && b.obtained@ == a.obtained@ && b.closes@ == a.closes@ && b.events@ == a.events@
            },
            (Phase::ColumnName(i), Reply::ColumnName(raw)) => {
                &&& b.result.columns@.len() == a.result.columns@.len() + 1
                &&& b.result.columns@.drop_last() == a.result.columns@
                &&& b.result.columns@.last()@ == column_name_of(i, opt_view(raw))
                &&& b.phase == (if i + 1 == a.count { Phase::NextRow } else { Phase::ColumnName((i + 1) as u32) })
                &&& b.count == a.count && b.result.rows@ == a.result.rows@
                &&& b.result.nodes@ == a.result.nodes@ && b.result.edges@ == a.result.edges@
                &&& b.row@ == a.row@ && b.failure == a.failure && b.obtained@ == a.obtained@ && b.closes@ == a.closes@ && b.events@ == a.events@
            },
            (Phase::NextRow, Reply::HasRow(more)) => {
                if !more {
                    b.phase == Phase::CloseAfterRows && Self::kept(a, b)
                } else if a.count == 0 {
                    &&& b.result.rows@.len() == a.result.rows@.len() + 1
                    &&& b.result.rows@.drop_last() == a.result.rows@
                    &&& b.result.rows@.last()@.len() == 0
                    &&& b.phase == Phase::NextRow
                    &&& b.count == a.count && b.result.columns@ == a.result.columns@
                    &&& b.result.nodes@ == a.result.nodes@ && b.result.edges@ == a.result.edges@
                    &&& b.row@ == a.row@ && b.failure == a.failure && b.obtained@ == a.obtained@ && b.closes@ == a.closes@ && b.events@ == a.events@
                } else {
                    b.phase == Phase::CellType(0) && Self::kept(a, b)
                }
            },
            (Phase::CellType(c), Reply::CellType(t)) => {
                if t == ValueType::Null {
                    Self::cell_added(a, b, c, Value::Null, seq![], seq![], seq![])
                } else {
                    b.phase == Phase::CellValue(c, t) && Self::kept(a, b)
                }
            },
            (Phase::CellValue(c, ValueType::String), Reply::Str(raw)) =>
                exists|s: String| s@ == text_or(opt_view(raw), ""@) && #[trigger] Self::cell_added(a, b, c, Value::Str(s), seq![], seq![], seq![]),
            (Phase::CellValue(c, ValueType::Int), Reply::Int(v)) => Self::cell_added(a, b, c, Value::Int(v), seq![], seq![], seq![]),
            (Phase::CellValue(c, ValueType::Double), Reply::Double(v)) => Self::cell_added(a, b, c, Value::Double(v), seq![], seq![], seq![]),
            (Phase::CellValue(c, ValueType::Bool), Reply::Bool(v)) => Self::cell_added(a, b, c, Value::Bool(v), seq![], seq![], seq![]),
            (Phase::CellValue(c, ValueType::Node), Reply::Node(raw)) => match raw {
                Some(rn) => b.phase matches Phase::NodeProps(c2, id, l)
                    && c2 == c && id == rn.id && l@ == text_or(opt_view(rn.label), "Node"@) && Self::kept(a, b),
                None => Self::cell_added(a, b, c, Value::Null, seq![], seq![],
                    seq![Diagnostic { row: a.result.rows@.len() as usize, column: c, entity: ValueType::Node }]),
            },
            (Phase::CellValue(c, ValueType::Edge), Reply::Edge(raw)) => match raw {
                Some(re) => b.phase matches Phase::EdgeProps(c2, id, s, t, l)
                    && c2 == c && id == re.id && s == re.source && t == re.target
                    && l@ == text_or(opt_view(re.label), "Edge"@) && Self::kept(a, b),
                None => Self::cell_added(a, b, c, Value::Null, seq![], seq![],
                    seq![Diagnostic { row: a.result.rows@.len() as usize, column: c, entity: ValueType::Edge }]),
            },
            (Phase::NodeProps(c, id, label), Reply::Props(raw)) =>
                exists|n: GraphNode| n.id == id && n.label == label && n.properties@ == decoded_props(opt_view(raw))
                    && #[trigger] Self::cell_added(a, b, c, Value::NodeRef(id), seq![n], seq![], seq![]),
            (Phase::EdgeProps(c, id, s, t, label), Reply::Props(raw)) =>
                exists|e: GraphEdge| e.id == id && e.source == s && e.target == t && e.label == label
                    && e.properties@ == decoded_props(opt_view(raw))
                    && #[trigger] Self::cell_added(a, b, c, Value::EdgeRef(id), seq![], seq![e], seq![]),
            _ => b == a,
        }
    }
}


impl Executor {
    /// Every row read so far holds one cell per declared column.
    pub open spec fn rows_fit(&self) -> bool {
        forall|i: int| 0 <= i < self.result.rows@.len() ==> #[trigger] self.result.rows@[i]@.len() == self.count
    }

    /// Nothing has been collected yet.
    pub open spec fn blank(&self) -> bool {
        &&& self.count == 0
        &&& self.result.columns@.len() == 0
        &&& self.result.rows@.len() == 0
        &&& self.row@.len() == 0
    }

    /// The cursor is held and has not been released, and nothing failed.
    pub open spec fn live(&self) -> bool {
        self.obtained@ && self.closes@ == 0 && self.failure is None
    }

    /// Reading column `c` of a row, after all columns were named.
    pub open spec fn at_cell(&self, c: u32) -> bool {
        &&& self.live()
        &&& self.result.columns@.len() == self.count
        &&& c < self.count
        &&& self.row@.len() == c
    }

    /// The executor's invariant.
    pub open spec fn wf(&self) -> bool {
        &&& self.rows_fit()
        &&& self.count <= i32::MAX
        &&& self.result.nodes@.len() + self.result.edges@.len()
            <= self.result.rows@.len() * self.count + self.row@.len()
        &&& match self.phase {
            Phase::Execute => !self.obtained@ && self.closes@ == 0 && self.failure is None && self.blank(),
            Phase::ReadLastError => !self.obtained@ && self.closes@ == 0 && self.failure is None && self.blank(),
            Phase::CheckSuccess | Phase::ReadError | Phase::ColumnCount => self.live() && self.blank(),
            Phase::CloseAfterFailure => {
                &&& self.obtained@ && self.closes@ == 0
                &&& self.failure matches Some(DbError::ExecutionFailure(_))
                &&& self.blank()
            },
            Phase::ColumnName(i) => {
                &&& self.live()
                &&& i < self.count
                &&& self.result.columns@.len() == i
                &&& self.result.rows@.len() == 0
                &&& self.row@.len() == 0
            },
            Phase::NextRow | Phase::CloseAfterRows => {
                &&& self.live()
                &&& self.result.columns@.len() == self.count
                &&& self.row@.len() == 0
            },
            Phase::CellType(c) => self.at_cell(c),
            Phase::CellValue(c, t) => self.at_cell(c) && t != ValueType::Null,
            Phase::NodeProps(c, _, _) => self.at_cell(c),
            Phase::EdgeProps(c, _, _, _, _) => self.at_cell(c),
            Phase::Done => {
                &&& self.closes@ == (if self.obtained@ { 1nat } else { 0nat })
                &&& self.row@.len() == 0
                &&& (self.failure is None) ==> (self.obtained@ && self.result.columns@.len() == self.count)
                &&& (self.failure is Some) ==> (self.result.rows@.len() == 0)
            },
        }
    }

    pub open spec fn is_done_spec(&self) -> bool {
        self.phase is Done
    }

    /// An executor that has not yet run its query.
    pub fn new() -> (r: Executor)
        ensures
            r.wf(),
            r.phase is Execute,
            r.result.nodes@.len() == 0,
            r.result.edges@.len() == 0,
    {
        Executor {
            phase: Phase::Execute,
            count: 0,
            result: QueryResult::empty(),
            row: Vec::new(),
            failure: None,
            events: Vec::new(),
            obtained: Ghost(false),
            closes: Ghost(0),
        }
    }

    /// The engine operation to perform next.
    pub fn request(&self) -> (r: Request)
        requires
            self.wf(),
        ensures
            r == request_of(self.phase),
    {
        match &self.phase {
            Phase::Execute => Request::Execute,
            Phase::ReadLastError => Request::ReadLastError,
            Phase::CheckSuccess => Request::CheckSuccess,
            Phase::ReadError => Request::ReadError,
            Phase::CloseAfterFailure => Request::CloseCursor,
            Phase::ColumnCount => Request::ColumnCount,
            Phase::ColumnName(i) => Request::ColumnName(*i),
            Phase::NextRow => Request::Next,
            Phase::CellType(c) => Request::CellType(*c),
            Phase::CellValue(c, t) => match t {
                ValueType::String => Request::ReadString(*c),
                ValueType::Int => Request::ReadInt(*c),
                ValueType::Double => Request::ReadDouble(*c),
                ValueType::Bool => Request::ReadBool(*c),
                ValueType::Node => Request::ReadNode(*c),
                ValueType::Edge => Request::ReadEdge(*c),
                ValueType::Null => Request::Finished,
            },
            Phase::NodeProps(c, _, _) => Request::ReadProps(*c),
            Phase::EdgeProps(c, _, _, _, _) => Request::ReadProps(*c),
            Phase::CloseAfterRows => Request::CloseCursor,
            Phase::Done => Request::Finished,
        }
    }

    /// Whether the outcome is ready (the cursor, if any, was released).
    pub fn is_done(&self) -> (r: bool)
        ensures
            r == self.is_done_spec(),
    {
        matches!(self.phase, Phase::Done)
    }

    /// Places cell `v` in column `c`, moving a completed row to `rows`.
    fn add_cell(&mut self, c: u32, v: Value)
        requires
            old(self).rows_fit(),
            old(self).count <= i32::MAX,
            old(self).at_cell(c),
            old(self).result.nodes@.len() + old(self).result.edges@.len()
                <= old(self).result.rows@.len() * old(self).count + old(self).row@.len() + 1,
        ensures
            final(self).wf(),
            Self::cell_added(*old(self), *final(self), c, v, seq![], seq![], seq![]),
    {
        let ghost a = *self;
        self.row.push(v);
        if c + 1 == self.count {
            let mut full: Vec<Value> = Vec::new();
            std::mem::swap(&mut self.row, &mut full);
            self.result.rows.push(full);
            self.phase = Phase::NextRow;
            proof {
                let r = a.result.rows@.len();
                let k = a.count as int;
                assert(r * k + k == (r + 1) * k) by (nonlinear_arith);
                assert(self.result.rows@.drop_last() =~= a.result.rows@);
                assert forall|i: int| 0 <= i < self.result.rows@.len() implies #[trigger] self.result.rows@[i]@.len() == self.count by {
                    if i < r {
                        assert(self.result.rows@[i] == a.result.rows@[i]);
                    }
                }
            }
        } else {
            self.phase = Phase::CellType(c + 1);
        }
        assert(self.result.nodes@ =~= a.result.nodes@ + seq![]);
        assert(self.result.edges@ =~= a.result.edges@ + seq![]);
        assert(self.events@ =~= a.events@ + seq![]);
    }

    /// Takes the engine's answer to the pending request.
    pub fn step(&mut self, reply: Reply)
        requires
            old(self).wf(),
        ensures
            final(self).wf(),
            Self::step_spec(*old(self), reply, *final(self)),
    {
        let ghost a = *self;
        let mut phase = Phase::Done;
        std::mem::swap(&mut self.phase, &mut phase);
        match (phase, reply) {
            (Phase::Execute, Reply::Cursor(got)) => {
                self.obtained = Ghost(got);
                self.phase = if got { Phase::CheckSuccess } else { Phase::ReadLastError };
            },
            (Phase::ReadLastError, Reply::LastError(raw)) => {
                self.failure = Some(DbError::SystemFailure(translate_last_error(raw)));
                self.phase = Phase::Done;
            },
            (Phase::CheckSuccess, Reply::Success(ok)) => {
                self.phase = if ok { Phase::ColumnCount } else { Phase::ReadError };
            },
            (Phase::ReadError, Reply::ErrorText(raw)) => {
                let text = match raw {
                    Some(t) => t,
                    None => "Unknown database execution error".to_owned(),
                };
                self.failure = Some(DbError::ExecutionFailure(text));
                self.phase = Phase::CloseAfterFailure;
            },
            (Phase::CloseAfterFailure, Reply::Closed) => {
                self.closes = Ghost(self.closes@ + 1);
                self.phase = Phase::Done;
            },
            (Phase::CloseAfterRows, Reply::Closed) => {
                self.closes = Ghost(self.closes@ + 1);
                self.phase = Phase::Done;
            },
            (Phase::ColumnCount, Reply::ColumnCount(n)) => {
                self.count = if n < 0 { 0 } else { n as u32 };
                self.phase = if self.count == 0 { Phase::NextRow } else { Phase::ColumnName(0) };
            },
            (Phase::ColumnName(i), Reply::ColumnName(raw)) => {
                let name = match raw {
                    Some(t) => t,
                    None => concat("col_", u32_to_decimal(i).as_str()),
                };
                self.result.columns.push(name);
                self.phase = if i + 1 == self.count { Phase::NextRow } else { Phase::ColumnName(i + 1) };
                assert(self.result.columns@.drop_last() =~= a.result.columns@);
            },
            (Phase::NextRow, Reply::HasRow(more)) => {
                if !more {
                    self.phase = Phase::CloseAfterRows;
                } else if self.count == 0 {
                    self.result.rows.push(Vec::new());
                    self.phase = Phase::NextRow;
                    assert(self.result.rows@.drop_last() =~= a.result.rows@);
                    assert forall|i: int| 0 <= i < self.result.rows@.len() implies #[trigger] self.result.rows@[i]@.len() == self.count by {
                        if i < a.result.rows@.len() {
                            assert(self.result.rows@[i] == a.result.rows@[i]);
                        }
                    }
                } else {
                    self.phase = Phase::CellType(0);
                }
            },
            (Phase::CellType(c), Reply::CellType(t)) => {
                if t == ValueType::Null {
                    self.phase = Phase::CellType(c);
                    self.add_cell(c, Value::Null);
                } else {
                    self.phase = Phase::CellValue(c, t);
                }
            },
            (Phase::CellValue(c, ValueType::String), Reply::Str(raw)) => {
                let s = match raw {
                    Some(t) => t,
                    None => "".to_owned(),
                };
                let ghost sg = s;
                self.phase = Phase::CellType(c);
                self.add_cell(c, Value::Str(s));
                assert(Self::cell_added(a, *self, c, Value::Str(sg), seq![], seq![], seq![]));
            },
            (Phase::CellValue(c, ValueType::Int), Reply::Int(v)) => {
                self.phase = Phase::CellType(c);
                self.add_cell(c, Value::Int(v));
            },
            (Phase::CellValue(c, ValueType::Double), Reply::Double(v)) => {
                self.phase = Phase::CellType(c);
                self.add_cell(c, Value::Double(v));
            },
            (Phase::CellValue(c, ValueType::Bool), Reply::Bool(v)) => {
                self.phase = Phase::CellType(c);
                self.add_cell(c, Value::Bool(v));
            },
            (Phase::CellValue(c, ValueType::Node), Reply::Node(raw)) => {
                match raw {
                    Some(rn) => {
                        let label = match rn.label {
                            Some(t) => t,
                            None => "Node".to_owned(),
                        };
                        self.phase = Phase::NodeProps(c, rn.id, label);
                    },
                    None => {
                        let d = Diagnostic { row: self.result.rows.len(), column: c, entity: ValueType::Node };
                        self.events.push(d);
                        self.phase = Phase::CellType(c);
                        let ghost mid = *self;
                        self.add_cell(c, Value::Null);
                        assert(mid.events@ =~= a.events@ + seq![d]);
                    },
                }
            },
            (Phase::CellValue(c, ValueType::Edge), Reply::Edge(raw)) => {
                match raw {
                    Some(re) => {
                        let label = match re.label {
                            Some(t) => t,
                            None => "Edge".to_owned(),
                        };
                        self.phase = Phase::EdgeProps(c, re.id, re.source, re.target, label);
                    },
                    None => {
                        let d = Diagnostic { row: self.result.rows.len(), column: c, entity: ValueType::Edge };
                        self.events.push(d);
                        self.phase = Phase::CellType(c);
                        let ghost mid = *self;
                        self.add_cell(c, Value::Null);
                        assert(mid.events@ =~= a.events@ + seq![d]);
                    },
                }
            },
            (Phase::NodeProps(c, id, label), Reply::Props(raw)) => {
                let node = GraphNode { id, label, properties: parse_props(raw) };
                let ghost ng = node;
                self.result.nodes.push(node);
                self.phase = Phase::CellType(c);
                let ghost mid = *self;
                self.add_cell(c, Value::NodeRef(id));
                assert(mid.result.nodes@ =~= a.result.nodes@ + seq![ng]);
                assert(Self::cell_added(a, *self, c, Value::NodeRef(id), seq![ng], seq![], seq![]));
            },
            (Phase::EdgeProps(c, id, source, target, label), Reply::Props(raw)) => {
                let edge = GraphEdge { id, source, target, label, properties: parse_props(raw) };
                let ghost eg = edge;
                self.result.edges.push(edge);
                self.phase = Phase::CellType(c);
                let ghost mid = *self;
                self.add_cell(c, Value::EdgeRef(id));
                assert(mid.result.edges@ =~= a.result.edges@ + seq![eg]);
                assert(Self::cell_added(a, *self, c, Value::EdgeRef(id), seq![], seq![eg], seq![]));
            },
            (p, _) => {
                self.phase = p;
            },
        }
    }
}


impl Executor {
    /// The outcome of a finished execution, with its elapsed time. A failed
    /// execution hands back its error and none of the rows.
    pub fn finish(self, duration_ms: u128) -> (r: Result<QueryResult, DbError>)
        requires
            self.wf(),
            self.is_done_spec(),
        ensures
            self.failure is Some ==> r == Err::<QueryResult, DbError>(self.failure->Some_0),
            self.failure is None ==> (r matches Ok(q) && {
                &&& q.columns@ == self.result.columns@
                &&& q.columns@.len() == self.count
                &&& q.rows@ == self.result.rows@
                &&& q.nodes@ == self.result.nodes@
                &&& q.edges@ == self.result.edges@
                &&& q.duration_ms == duration_ms
                &&& q.rectangular()
            }),
    {
        match self.failure {
            Some(e) => Err(e),
            None => {
                let mut q = self.result;
                q.duration_ms = duration_ms;
                Ok(q)
            },
        }
    }
}

/// An open connection: it owns one engine handle, released when the
/// connection is dropped.
pub struct MetrixDB<H> {
    pub handle: H,
}

pub open spec fn invalid_path_text() -> Seq<char> {
    "Invalid path string"@
}

pub open spec fn invalid_query_text() -> Seq<char> {
    "Invalid query string (contains null byte)"@
}

/// The outcome of opening `path` when the engine answered `out`: the handle,
/// or the engine's last error (`None` for a null pointer).
pub open spec fn opened<H>(path: Seq<char>, out: Result<H, Option<String>>, r: Result<MetrixDB<H>, DbError>) -> bool {
    match out {
        Ok(h) => r matches Ok(db) && db.handle == h,
        Err(e) => r matches Err(DbError::OpenFailure(t)) && t@ == translated_error(opt_view(e)),
    }
}

impl<H> MetrixDB<H> {
    fn open_with<F: FnOnce(&str) -> Result<H, Option<String>>>(path: &str, engine_open: F) -> (r: Result<Self, DbError>)
        requires
            !has_nul(path@) ==> engine_open.requires((path,)),
        ensures
            has_nul(path@) ==> (r matches Err(DbError::InvalidInput(t)) && t@ == invalid_path_text()),
            !has_nul(path@) ==> exists|out: Result<H, Option<String>>|
                engine_open.ensures((path,), out) && #[trigger] opened(path@, out, r),
    {
        if contains_nul(path) {
            return Err(DbError::InvalidInput("Invalid path string".to_owned()));
        }
        let out = engine_open(path);
        let ghost og = out;
        let r = match out {
            Ok(h) => Ok(MetrixDB { handle: h }),
            Err(e) => Err(DbError::OpenFailure(translate_last_error(e))),
        };
        assert(opened(path@, og, r));
        r
    }

    /// Opens, or creates, the database at `path` through `engine_open`, the
    /// engine's create-or-open call. A path holding NUL never reaches it.
    pub fn open<F: FnOnce(&str) -> Result<H, Option<String>>>(path: &str, engine_open: F) -> (r: Result<Self, DbError>)
        requires
            !has_nul(path@) ==> engine_open.requires((path,)),
        ensures
            has_nul(path@) ==> (r matches Err(DbError::InvalidInput(t)) && t@ == invalid_path_text()),
            !has_nul(path@) ==> exists|out: Result<H, Option<String>>|
                engine_open.ensures((path,), out) && #[trigger] opened(path@, out, r),
    {
        Self::open_with(path, engine_open)
    }

    /// Opens the existing database at `path` through `engine_open`, the
    /// engine's open call that never creates one; a missing database is an
    /// `OpenFailure`.
    pub fn open_if_exists<F: FnOnce(&str) -> Result<H, Option<String>>>(path: &str, engine_open: F) -> (r: Result<Self, DbError>)
        requires
            !has_nul(path@) ==> engine_open.requires((path,)),
        ensures
            has_nul(path@) ==> (r matches Err(DbError::InvalidInput(t)) && t@ == invalid_path_text()),
            !has_nul(path@) ==> exists|out: Result<H, Option<String>>|
                engine_open.ensures((path,), out) && #[trigger] opened(path@, out, r),
    {
        Self::open_with(path, engine_open)
    }

    /// Starts executing `query` on this connection. A query holding NUL is
    /// refused before it reaches the engine.
    pub fn execute(&self, query: &str) -> (r: Result<Executor, DbError>)
        ensures
            has_nul(query@) ==> (r matches Err(DbError::InvalidInput(t)) && t@ == invalid_query_text()),
            !has_nul(query@) ==> (r matches Ok(ex) && ex.wf() && ex.phase is Execute),
    {
        if contains_nul(query) {
            return Err(DbError::InvalidInput("Invalid query string (contains null byte)".to_owned()));
        }
        Ok(Executor::new())
    }
}

/// A finished execution released its cursor exactly once when the engine
/// returned one, and never otherwise.
pub proof fn law_cursor_released_once(ex: Executor)
    requires
        ex.wf(),
        ex.is_done_spec(),
    ensures
        ex.obtained@ ==> ex.closes@ == 1,
        !ex.obtained@ ==> ex.closes@ == 0,
{
}

/// A successful execution that met no row has no nodes and no edges, and
/// still one name for each declared column.
pub proof fn law_empty_result(ex: Executor)
    requires
        ex.wf(),
        ex.is_done_spec(),
        ex.failure is None,
        ex.result.rows@.len() == 0,
    ensures
        ex.result.nodes@.len() == 0,
        ex.result.edges@.len() == 0,
        ex.result.columns@.len() == ex.count,
{
    assert(ex.result.rows@.len() * ex.count == 0);
}

/// A failed execution kept no rows: nothing of a failed query leaks out.
pub proof fn law_failure_keeps_no_rows(ex: Executor)
    requires
        ex.wf(),
        ex.is_done_spec(),
        ex.failure is Some,
    ensures
        ex.result.rows@.len() == 0,
        ex.result.nodes@.len() == 0,
        ex.result.edges@.len() == 0,
{
    assert(ex.phase is Done);
    assert(ex.result.rows@.len() == 0);
    assert(ex.result.rows@.len() * ex.count == 0);
}

} // verus!
