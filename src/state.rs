//! The shared connection slot that every boundary operation goes through.
use vstd::prelude::*;
use crate::driver::{opened, opt_view, Executor, MetrixDB, invalid_path_text, invalid_query_text};
use crate::error::{DbError, translated_error};
use crate::text::{concat, has_nul};

verus! {

/// The slot in the abstract: whether a connection is open, how many
/// connections were installed in it, and how many it released.
pub struct StateView {
    pub open: bool,
    pub opened: nat,
    pub released: nat,
}

/// Every connection the slot took in was released, but the one it holds.
pub open spec fn balanced(v: StateView) -> bool {
    v.opened == v.released + (if v.open { 1nat } else { 0nat })
}

/// A new connection replaces the slot's content; the old one is released.
pub open spec fn after_install(v: StateView) -> StateView {
    StateView { open: true, opened: v.opened + 1, released: v.released + (if v.open { 1nat } else { 0nat }) }
}

/// Closing empties the slot, releasing what it held.
pub open spec fn after_close(v: StateView) -> StateView {
    StateView { open: false, opened: v.opened, released: v.released + (if v.open { 1nat } else { 0nat }) }
}

/// The slot after `n` rounds of opening and then closing a connection.
pub open spec fn cycles(v: StateView, n: nat) -> StateView
    decreases n,
{
    if n == 0 { v } else { after_close(after_install(cycles(v, (n - 1) as nat))) }
}

pub open spec fn created_message(path: Seq<char>) -> Seq<char> {
    "Database created/opened at "@ + path
}

pub open spec fn connected_message(path: Seq<char>) -> Seq<char> {
    "Connected to existing database at "@ + path
}

/// The one optional connection of the process. The host serialises access to
/// it behind a lock.
pub struct AppState<H> {
    pub db: Option<MetrixDB<H>>,
    pub opened: Ghost<nat>,
    pub released: Ghost<nat>,
}

impl<H> View for AppState<H> {
    type V = StateView;

    open spec fn view(&self) -> StateView {
        StateView { open: self.db is Some, opened: self.opened@, released: self.released@ }
    }
}

/// What an open reports when the engine answered `out`: on success the
/// message, with the engine's handle now in `slot`; an `OpenFailure` with the
/// engine's translated error otherwise.
pub open spec fn open_report<H>(
    out: Result<H, Option<String>>,
    r: Result<String, DbError>,
    message: Seq<char>,
    slot: Option<MetrixDB<H>>,
) -> bool {
    match out {
        Ok(h) => {
            &&& r matches Ok(m) && m@ == message
            &&& slot matches Some(d) && d.handle == h
        },
        Err(e) => r matches Err(DbError::OpenFailure(t)) && t@ == translated_error(opt_view(e)),
    }
}

impl<H> AppState<H> {
    pub open spec fn wf(&self) -> bool {
        balanced(self@)
    }

    /// An empty slot.
    pub fn new() -> (r: Self)
        ensures
            r.wf(),
            r@ == (StateView { open: false, opened: 0, released: 0 }),
    {
        AppState { db: None, opened: Ghost(0), released: Ghost(0) }
    }

    /// Whether a connection is open.
    pub fn is_open(&self) -> (r: bool)
        ensures
            r == self@.open,
    {
        self.db.is_some()
    }

    /// Puts `db` in the slot, releasing the previous connection first.
    fn install(&mut self, db: MetrixDB<H>)
        requires
            old(self).wf(),
        ensures
            final(self).wf(),
            final(self)@ == after_install(old(self)@),
            final(self).db == Some(db),
    {
        let had = self.db.is_some();
        self.db = None;
        self.db = Some(db);
        self.released = Ghost(self.released@ + if had { 1nat } else { 0nat });
        self.opened = Ghost(self.opened@ + 1);
    }

    /// Opens (or creates) the database at `path` and makes it the current
    /// connection. On failure the current connection stays as it was.
    pub fn open_database<F: FnOnce(&str) -> Result<H, Option<String>>>(&mut self, path: &str, engine_open: F) -> (r: Result<String, DbError>)
        requires
            old(self).wf(),
            !has_nul(path@) ==> engine_open.requires((path,)),
        ensures
            final(self).wf(),
            has_nul(path@) ==> (r matches Err(DbError::InvalidInput(t)) && t@ == invalid_path_text()),
            !has_nul(path@) ==> exists|out: Result<H, Option<String>>|
                engine_open.ensures((path,), out)
                && #[trigger] open_report(out, r, created_message(path@), final(self).db),
            r is Ok ==> final(self)@ == after_install(old(self)@),
            r is Err ==> final(self)@ == old(self)@,
    {
        let ghost f = engine_open;
        let opened_db = MetrixDB::open(path, engine_open);
        let ghost rg = opened_db;
        match opened_db {
            Ok(db) => {
                self.install(db);
                let m = concat("Database created/opened at ", path);
                proof {
                    let out = choose|out: Result<H, Option<String>>| f.ensures((path,), out) && #[trigger] opened(path@, out, rg);
                    assert(open_report(out, Ok::<String, DbError>(m), created_message(path@), self.db));
                }
                Ok(m)
            },
            Err(e) => {
                proof {
                    if !has_nul(path@) {
                        let out = choose|out: Result<H, Option<String>>| f.ensures((path,), out) && #[trigger] opened(path@, out, rg);
                        assert(open_report(out, Err::<String, DbError>(e), created_message(path@), self.db));
                    }
                }
                Err(e)
            },
        }
    }

    /// Connects to the existing database at `path`; a missing database is an
    /// `OpenFailure` and leaves the current connection as it was.
    pub fn connect_existing<F: FnOnce(&str) -> Result<H, Option<String>>>(&mut self, path: &str, engine_open: F) -> (r: Result<String, DbError>)
        requires
            old(self).wf(),
            !has_nul(path@) ==> engine_open.requires((path,)),
        ensures
            final(self).wf(),
            has_nul(path@) ==> (r matches Err(DbError::InvalidInput(t)) && t@ == invalid_path_text()),
            !has_nul(path@) ==> exists|out: Result<H, Option<String>>|
                engine_open.ensures((path,), out)
                && #[trigger] open_report(out, r, connected_message(path@), final(self).db),
            r is Ok ==> final(self)@ == after_install(old(self)@),
            r is Err ==> final(self)@ == old(self)@,
    {
        let ghost f = engine_open;
        let opened_db = MetrixDB::open_if_exists(path, engine_open);
        let ghost rg = opened_db;
        match opened_db {
            Ok(db) => {
                self.install(db);
                let m = concat("Connected to existing database at ", path);
                proof {
                    let out = choose|out: Result<H, Option<String>>| f.ensures((path,), out) && #[trigger] opened(path@, out, rg);
                    assert(open_report(out, Ok::<String, DbError>(m), connected_message(path@), self.db));
                }
                Ok(m)
            },
            Err(e) => {
                proof {
                    if !has_nul(path@) {
                        let out = choose|out: Result<H, Option<String>>| f.ensures((path,), out) && #[trigger] opened(path@, out, rg);
                        assert(open_report(out, Err::<String, DbError>(e), connected_message(path@), self.db));
                    }
                }
                Err(e)
            },
        }
    }

    /// Starts a query on the current connection; with none open it is refused
    /// with `NoConnection`.
    pub fn run_query(&self, query: &str) -> (r: Result<Executor, DbError>)
        ensures
            !self@.open ==> r matches Err(DbError::NoConnection),
            self@.open && has_nul(query@) ==> (r matches Err(DbError::InvalidInput(t)) && t@ == invalid_query_text()),
            self@.open && !has_nul(query@) ==> (r matches Ok(ex) && ex.wf() && ex.phase is Execute),
    {
        match &self.db {
            Some(db) => db.execute(query),
            None => Err(DbError::NoConnection),
        }
    }

    /// Closes the current connection, if any; closing an empty slot does
    /// nothing.
    pub fn close_database(&mut self) -> (r: Result<(), DbError>)
        requires
            old(self).wf(),
        ensures
            final(self).wf(),
            final(self)@ == after_close(old(self)@),
            r is Ok,
    {
        let had = self.db.is_some();
        self.db = None;
        self.released = Ghost(self.released@ + if had { 1nat } else { 0nat });
        Ok(())
    }
}

/// Any number of rounds of opening and closing a connection keeps the slot
/// balanced: every connection taken in is released exactly once, so from an
/// empty slot the rounds leave as many releases as opens.
pub proof fn law_open_close_cycles_balance(v: StateView, n: nat)
    requires
        balanced(v),
    ensures
        balanced(cycles(v, n)),
        !cycles(v, n).open || n == 0,
        cycles(v, n).opened == v.opened + n,
        !v.open ==> cycles(v, n).released == v.released + n,
        !v.open ==> cycles(v, n).opened == cycles(v, n).released,
    decreases n,
{
    if n > 0 {
        law_open_close_cycles_balance(v, (n - 1) as nat);
    }
}

/// Once the connection is closed, every query is refused with
/// `NoConnection`, whatever the slot held before.
pub proof fn law_closed_state_refuses_queries(v: StateView)
    ensures
        !after_close(v).open,
        balanced(v) ==> balanced(after_close(v)),
{
}

} // verus!
