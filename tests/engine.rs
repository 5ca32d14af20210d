use metrix_studio::{
    parse_props, translate_last_error, AppState, DbError, Diagnostic, Executor, MetrixDB, QueryResult, RawEdge,
    RawNode, Reply, Request, Value, ValueType,
};
use std::cell::Cell as Counter;
use std::rc::Rc;

enum Cell {
    Null,
    Bool(bool),
    Int(i64),
    Double(f64),
    Str(Option<String>),
    Node(Option<(i64, Option<String>)>, Option<String>),
    Edge(Option<(i64, i64, i64, Option<String>)>, Option<String>),
}

/// A scripted stand-in for the engine's cursor API.
struct FakeEngine {
    returns_cursor: bool,
    last_error: Option<String>,
    success: bool,
    error: Option<String>,
    column_count: i32,
    names: Vec<Option<String>>,
    rows: Vec<Vec<Cell>>,
    current: Option<usize>,
    closes: usize,
    requests: usize,
}

impl FakeEngine {
    fn with_rows(names: Vec<Option<String>>, rows: Vec<Vec<Cell>>) -> FakeEngine {
        FakeEngine {
            returns_cursor: true,
            last_error: None,
            success: true,
            error: None,
            column_count: names.len() as i32,
            names,
            rows,
            current: None,
            closes: 0,
            requests: 0,
        }
    }

    fn cell(&self, c: u32) -> &Cell {
        &self.rows[self.current.unwrap()][c as usize]
    }

    fn answer(&mut self, req: Request) -> Option<Reply> {
        self.requests += 1;
        let reply = match req {
            Request::Execute => Reply::Cursor(self.returns_cursor),
            Request::ReadLastError => Reply::LastError(self.last_error.clone()),
            Request::CheckSuccess => Reply::Success(self.success),
            Request::ReadError => Reply::ErrorText(self.error.clone()),
            Request::ColumnCount => Reply::ColumnCount(self.column_count),
            Request::ColumnName(i) => Reply::ColumnName(self.names[i as usize].clone()),
            Request::Next => {
                let next = self.current.map_or(0, |r| r + 1);
                self.current = Some(next);
                Reply::HasRow(next < self.rows.len())
            }
            Request::CellType(c) => Reply::CellType(match self.cell(c) {
                Cell::Null => ValueType::Null,
                Cell::Bool(_) => ValueType::Bool,
                Cell::Int(_) => ValueType::Int,
                Cell::Double(_) => ValueType::Double,
                Cell::Str(_) => ValueType::String,
                Cell::Node(..) => ValueType::Node,
                Cell::Edge(..) => ValueType::Edge,
            }),
            Request::ReadString(c) => match self.cell(c) {
                Cell::Str(s) => Reply::Str(s.clone()),
                _ => panic!("string read on another type"),
            },
            Request::ReadInt(c) => match self.cell(c) {
                Cell::Int(v) => Reply::Int(*v),
                _ => panic!("int read on another type"),
            },
            Request::ReadDouble(c) => match self.cell(c) {
                Cell::Double(v) => Reply::Double(v.to_bits()),
                _ => panic!("double read on another type"),
            },
            Request::ReadBool(c) => match self.cell(c) {
                Cell::Bool(v) => Reply::Bool(*v),
                _ => panic!("bool read on another type"),
            },
            Request::ReadNode(c) => match self.cell(c) {
                Cell::Node(n, _) => Reply::Node(n.clone().map(|(id, label)| RawNode { id, label })),
                _ => panic!("node read on another type"),
            },
            Request::ReadEdge(c) => match self.cell(c) {
                Cell::Edge(e, _) => Reply::Edge(
                    e.clone().map(|(id, source, target, label)| RawEdge { id, source, target, label }),
                ),
                _ => panic!("edge read on another type"),
            },
            Request::ReadProps(c) => match self.cell(c) {
                Cell::Node(_, p) | Cell::Edge(_, p) => Reply::Props(p.clone()),
                _ => panic!("props read on a scalar"),
            },
            Request::CloseCursor => {
                self.closes += 1;
                Reply::Closed
            }
            Request::Finished => return None,
        };
        Some(reply)
    }
}

fn drive(ex: Executor, engine: &mut FakeEngine) -> Result<QueryResult, DbError> {
    drive_with_events(ex, engine).0
}

fn drive_with_events(mut ex: Executor, engine: &mut FakeEngine) -> (Result<QueryResult, DbError>, Vec<Diagnostic>) {
    loop {
        let req = ex.request();
        match engine.answer(req) {
            Some(reply) => ex.step(reply),
            None => break,
        }
    }
    assert!(ex.is_done());
    let events = ex.events.clone();
    (ex.finish(42), events)
}

fn connected() -> AppState<u32> {
    let mut state = AppState::new();
    state.open_database("/tmp/graph.db", |_: &str| Ok::<u32, Option<String>>(1)).unwrap();
    state
}

fn run(engine: &mut FakeEngine) -> Result<QueryResult, DbError> {
    let state = connected();
    let ex = state.run_query("MATCH (n) RETURN n").unwrap();
    drive(ex, engine)
}

fn s(t: &str) -> Option<String> {
    Some(t.to_string())
}

struct CountedHandle {
    releases: Rc<Counter<usize>>,
}

impl Drop for CountedHandle {
    fn drop(&mut self) {
        self.releases.set(self.releases.get() + 1);
    }
}

#[test]
fn connect_existing_missing_path_is_open_failure() {
    let mut state: AppState<u32> = AppState::new();
    let r = state.connect_existing("/no/such/db", |_: &str| Err::<u32, Option<String>>(s("database does not exist")));
    assert_eq!(r, Err(DbError::OpenFailure("database does not exist".to_string())));
    assert!(!state.is_open());
    assert_eq!(state.run_query("RETURN 1").err(), Some(DbError::NoConnection));
}

#[test]
fn open_failure_with_null_error_uses_fallback_text() {
    let mut state: AppState<u32> = AppState::new();
    let r = state.open_database("/x", |_: &str| Err::<u32, Option<String>>(None));
    assert_eq!(r, Err(DbError::OpenFailure("Database file not found or access denied".to_string())));
}

#[test]
fn open_failure_with_blank_error_uses_unknown_text() {
    let r = MetrixDB::<u32>::open_if_exists("/x", |_: &str| Err(s("  \t ")));
    assert_eq!(
        r.err(),
        Some(DbError::OpenFailure("An unknown error occurred while validating the database.".to_string()))
    );
}

#[test]
fn failed_open_keeps_previous_connection() {
    let mut state = connected();
    let r = state.connect_existing("/missing", |_: &str| Err::<u32, Option<String>>(s("missing")));
    assert!(r.is_err());
    assert!(state.is_open());
}

#[test]
fn path_with_nul_is_refused_before_the_engine() {
    let mut state: AppState<u32> = AppState::new();
    let called = Counter::new(false);
    let r = state.open_database("a\0b", |_: &str| {
        called.set(true);
        Ok::<u32, Option<String>>(1)
    });
    assert_eq!(r, Err(DbError::InvalidInput("Invalid path string".to_string())));
    assert!(!called.get());
    assert!(!state.is_open());
}

#[test]
fn open_messages_name_the_path() {
    let mut state: AppState<u32> = AppState::new();
    let r = state.open_database("/data/g.db", |p: &str| {
        assert_eq!(p, "/data/g.db");
        Ok::<u32, Option<String>>(3)
    });
    assert_eq!(r, Ok("Database created/opened at /data/g.db".to_string()));
    let r = state.connect_existing("/data/h.db", |_: &str| Ok::<u32, Option<String>>(4));
    assert_eq!(r, Ok("Connected to existing database at /data/h.db".to_string()));
    assert_eq!(state.db.as_ref().map(|d| d.handle), Some(4));
}

#[test]
fn open_close_cycles_release_every_handle_once() {
    let releases = Rc::new(Counter::new(0usize));
    let mut opens = 0usize;
    let mut state: AppState<CountedHandle> = AppState::new();
    for _ in 0..25 {
        let rel = releases.clone();
        state
            .open_database("/g", |_: &str| Ok::<CountedHandle, Option<String>>(CountedHandle { releases: rel }))
            .unwrap();
        opens += 1;
        assert_eq!(releases.get(), opens - 1);
        assert_eq!(state.close_database(), Ok(()));
        assert_eq!(releases.get(), opens);
        assert_eq!(state.close_database(), Ok(()));
        assert_eq!(releases.get(), opens);
    }
    assert_eq!(opens, 25);
    assert_eq!(releases.get(), 25);
}

#[test]
fn replacing_a_connection_releases_the_old_one() {
    let releases = Rc::new(Counter::new(0usize));
    let mut state: AppState<CountedHandle> = AppState::new();
    let r1 = releases.clone();
    state.open_database("/a", |_: &str| Ok::<CountedHandle, Option<String>>(CountedHandle { releases: r1 })).unwrap();
    let r2 = releases.clone();
    state.connect_existing("/b", |_: &str| Ok::<CountedHandle, Option<String>>(CountedHandle { releases: r2 })).unwrap();
    assert_eq!(releases.get(), 1);
    state.close_database().unwrap();
    assert_eq!(releases.get(), 2);
}

#[test]
fn zero_rows_give_empty_result_with_all_columns() {
    let mut engine = FakeEngine::with_rows(vec![s("a"), s("b"), s("c")], vec![]);
    let q = run(&mut engine).unwrap();
    assert_eq!(q.columns, vec!["a".to_string(), "b".to_string(), "c".to_string()]);
    assert!(q.rows.is_empty());
    assert!(q.nodes.is_empty());
    assert!(q.edges.is_empty());
    assert_eq!(q.duration_ms, 42);
    assert_eq!(engine.closes, 1);
}

#[test]
fn repeated_node_is_listed_once_per_occurrence() {
    let node = || Cell::Node(Some((7, s("Person"))), s("{\"name\":\"a\"}"));
    let mut engine = FakeEngine::with_rows(vec![s("n")], vec![vec![node()], vec![node()]]);
    let q = run(&mut engine).unwrap();
    assert_eq!(q.rows, vec![vec![Value::NodeRef(7)], vec![Value::NodeRef(7)]]);
    assert_eq!(q.nodes.len(), 2);
    for n in &q.nodes {
        assert_eq!(n.id, 7);
        assert_eq!(n.label, "Person");
        assert_eq!(n.properties, "{\"name\":\"a\"}");
    }
    assert_eq!(engine.closes, 1);
}

#[test]
fn syntax_error_is_execution_failure_without_rows() {
    let mut engine = FakeEngine::with_rows(vec![s("n")], vec![vec![Cell::Int(1)]]);
    engine.success = false;
    engine.error = s("Syntax error near 'MATC'");
    let r = run(&mut engine);
    assert_eq!(r.err(), Some(DbError::ExecutionFailure("Syntax error near 'MATC'".to_string())));
    assert_eq!(engine.closes, 1);
    assert_eq!(engine.current, None);
}

#[test]
fn execution_failure_with_null_text() {
    let mut engine = FakeEngine::with_rows(vec![], vec![]);
    engine.success = false;
    let r = run(&mut engine);
    assert_eq!(r.err(), Some(DbError::ExecutionFailure("Unknown database execution error".to_string())));
    assert_eq!(engine.closes, 1);
}

#[test]
fn missing_cursor_is_system_failure_and_nothing_is_closed() {
    let mut engine = FakeEngine::with_rows(vec![], vec![]);
    engine.returns_cursor = false;
    engine.last_error = s("out of memory");
    let r = run(&mut engine);
    assert_eq!(r.err(), Some(DbError::SystemFailure("out of memory".to_string())));
    assert_eq!(engine.closes, 0);
    let mut engine = FakeEngine::with_rows(vec![], vec![]);
    engine.returns_cursor = false;
    let r = run(&mut engine);
    assert_eq!(r.err(), Some(DbError::SystemFailure("Database file not found or access denied".to_string())));
}

#[test]
fn properties_decoding() {
    let p = parse_props(s("{\"name\":\"a\"}"));
    let m: serde_json::Map<String, serde_json::Value> = serde_json::from_str(&p).unwrap();
    assert_eq!(m.len(), 1);
    assert_eq!(m.get("name"), Some(&serde_json::Value::String("a".to_string())));
    assert_eq!(parse_props(None), "{}");
    assert_eq!(parse_props(s("{\"name\": ")), "{}");
    assert_eq!(parse_props(s("[1, 2]")), "{}");
    assert_eq!(parse_props(s("42")), "{}");
}

#[test]
fn query_after_close_is_no_connection() {
    let mut state = connected();
    assert!(state.run_query("RETURN 1").is_ok());
    state.close_database().unwrap();
    for q in ["RETURN 1", "", "MATCH (n) RETURN n", "bad\0query"] {
        let r = state.run_query(q);
        assert_eq!(r.err(), Some(DbError::NoConnection));
    }
    assert_eq!(DbError::NoConnection.message(), "No database is currently open.");
}

#[test]
fn query_with_nul_is_invalid_input() {
    let state = connected();
    let r = state.run_query("RETURN '\0'");
    assert_eq!(r.err(), Some(DbError::InvalidInput("Invalid query string (contains null byte)".to_string())));
}

#[test]
fn scalar_cells_and_missing_column_names() {
    let mut engine = FakeEngine::with_rows(
        vec![s("x"), None, s("z"), None, None, None, None, None, None, None, None, None, None],
        vec![vec![
            Cell::Str(None),
            Cell::Str(s("hi")),
            Cell::Int(-5),
            Cell::Double(1.5),
            Cell::Bool(true),
            Cell::Null,
            Cell::Node(None, None),
            Cell::Edge(Some((9, 1, 2, None)), None),
            Cell::Edge(None, None),
            Cell::Node(Some((3, None)), s("not json")),
            Cell::Int(0),
            Cell::Int(1),
            Cell::Bool(false),
        ]],
    );
    let q = run(&mut engine).unwrap();
    assert_eq!(q.columns[1], "col_1");
    assert_eq!(q.columns[12], "col_12");
    assert_eq!(
        q.rows,
        vec![vec![
            Value::Str(String::new()),
            Value::Str("hi".to_string()),
            Value::Int(-5),
            Value::Double(1.5f64.to_bits()),
            Value::Bool(true),
            Value::Null,
            Value::Null,
            Value::EdgeRef(9),
            Value::Null,
            Value::NodeRef(3),
            Value::Int(0),
            Value::Int(1),
            Value::Bool(false),
        ]]
    );
    assert_eq!(q.edges.len(), 1);
    assert_eq!((q.edges[0].id, q.edges[0].source, q.edges[0].target), (9, 1, 2));
    assert_eq!(q.edges[0].label, "Edge");
    assert_eq!(q.edges[0].properties, "{}");
    assert_eq!(q.nodes.len(), 1);
    assert_eq!(q.nodes[0].label, "Node");
    assert_eq!(q.nodes[0].properties, "{}");
    assert_eq!(engine.closes, 1);
}

#[test]
fn negative_column_count_declares_no_columns() {
    let mut engine = FakeEngine::with_rows(vec![], vec![vec![], vec![]]);
    engine.column_count = -3;
    let q = run(&mut engine).unwrap();
    assert!(q.columns.is_empty());
    assert_eq!(q.rows, vec![Vec::<Value>::new(), Vec::new()]);
}

#[test]
fn mismatched_reply_changes_nothing() {
    let state = connected();
    let mut ex = state.run_query("RETURN 1").unwrap();
    assert_eq!(ex.request(), Request::Execute);
    ex.step(Reply::Closed);
    assert_eq!(ex.request(), Request::Execute);
    ex.step(Reply::Cursor(true));
    assert_eq!(ex.request(), Request::CheckSuccess);
}

#[test]
fn last_error_translation() {
    assert_eq!(translate_last_error(None), "Database file not found or access denied");
    assert_eq!(translate_last_error(s("")), "An unknown error occurred while validating the database.");
    assert_eq!(translate_last_error(s(" \n")), "An unknown error occurred while validating the database.");
    assert_eq!(translate_last_error(s(" disk full ")), " disk full ");
}

#[test]
fn error_messages() {
    assert_eq!(DbError::LockFailure.message(), "Failed to acquire db lock");
    assert_eq!(DbError::SystemFailure("x".to_string()).message(), "x");
    assert_eq!(DbError::InvalidInput("y".to_string()).message(), "y");
}

#[test]
fn failed_extraction_is_reported_as_an_event() {
    let mut engine = FakeEngine::with_rows(
        vec![s("a"), s("b")],
        vec![
            vec![Cell::Int(1), Cell::Node(None, None)],
            vec![Cell::Edge(None, None), Cell::Node(Some((2, s("P"))), None)],
        ],
    );
    let state = connected();
    let ex = state.run_query("MATCH (n) RETURN n").unwrap();
    let (r, events) = drive_with_events(ex, &mut engine);
    let q = r.unwrap();
    assert_eq!(q.rows, vec![vec![Value::Int(1), Value::Null], vec![Value::Null, Value::NodeRef(2)]]);
    assert_eq!(
        events,
        vec![
            Diagnostic { row: 0, column: 1, entity: ValueType::Node },
            Diagnostic { row: 1, column: 0, entity: ValueType::Edge },
        ]
    );
    assert_eq!(q.nodes.len(), 1);
    assert_eq!(q.nodes[0].properties, "{}");
}
