//! The persistence layer: durable CRUD over notes in an embedded SQLite
//! store, through `rusqlite`.
//!
//! The store itself is outside code; the library tracks what its single
//! table holds in a ghost sequence of note values, ordered by ascending id
//! (the canonical read order).  Each trusted wrapper states how the SQL
//! statement it runs moves that sequence; everything above the wrappers is
//! verified against those statements.  The process is the table's only
//! reader and writer, so the sequence is an exact account of the table.

use vstd::prelude::*;
use crate::models::{Note, NoteView, views, sorted_by_id};

verus! {

#[verifier::external_type_specification]
#[verifier::external_body]
pub struct ExConnection(rusqlite::Connection);

#[verifier::external_type_specification]
#[verifier::external_body]
pub struct ExRusqliteError(rusqlite::Error);

/// A store failure, carrying the underlying SQLite error.
pub struct StoreError {
    pub inner: rusqlite::Error,
}

/// `id` is strictly greater than every id in `rows`.
pub open spec fn fresh_id(id: int, rows: Seq<NoteView>) -> bool {
    forall|j: int| 0 <= j < rows.len() ==> rows[j].id < id
}

/// `rows` with the entry whose id is `id` (if any) overwritten to carry
/// `title` and `content`; entries with other ids are untouched.
pub open spec fn replace_by_id(
    rows: Seq<NoteView>,
    id: int,
    title: Seq<char>,
    content: Seq<char>,
) -> Seq<NoteView> {
    rows.map_values(
        |rv: NoteView|
            if rv.id == id {
                (NoteView { id, title, content })
            } else {
                rv
            },
    )
}

/// The durable store: one SQLite connection, plus two ghost values about
/// its `notes` table — the sequence of rows it holds, in ascending id
/// order, and the high-water mark: the largest id the table has ever
/// assigned (what SQLite's `AUTOINCREMENT` sequence records).  The ghost
/// values denote facts about the table itself; their initial values at
/// `new` are unconstrained, and everything known about them comes from the
/// trusted wrappers' contracts, grounded by the first successful read.
/// The process is the table's only reader and writer.
pub struct Database {
    conn: rusqlite::Connection,
    rows: Ghost<Seq<NoteView>>,
    hwm: Ghost<int>,
}

/// Relies on `rusqlite::Connection::open`: opens (creating it if absent) the
/// SQLite database at `path`.
#[verifier::external_body]
fn open_connection(path: &str) -> (r: Result<rusqlite::Connection, rusqlite::Error>)
{
    rusqlite::Connection::open(path)
}

/// Relies on `rusqlite::Connection::execute` running `CREATE TABLE IF NOT
/// EXISTS`: after success the `notes` table exists; an existing table and
/// its rows are left as they are.
#[verifier::external_body]
fn create_notes_table(conn: &rusqlite::Connection) -> (r: Result<(), rusqlite::Error>)
{
    match conn.execute(
        "CREATE TABLE IF NOT EXISTS notes (
            id INTEGER PRIMARY KEY AUTOINCREMENT,
            title TEXT NOT NULL,
            content TEXT NOT NULL
        )",
        (),
    ) {
        Ok(_) => Ok(()),
        Err(e) => Err(e),
    }
}

/// Relies on `rusqlite::Connection::execute` running a single-row `INSERT`,
/// and on `rusqlite::Connection::last_insert_rowid` returning the rowid of
/// that insert.  `id INTEGER PRIMARY KEY AUTOINCREMENT` makes the new id
/// strictly greater than every id the table has ever assigned — the
/// high-water mark, which moves up to the new id — so ids never repeat
/// even after the largest row is deleted; the new row goes to the end of
/// the ascending-id order.  On failure nothing is inserted.
#[verifier::external_body]
fn store_insert(db: &mut Database, title: &str, content: &str) -> (r: Result<
    i64,
    rusqlite::Error,
>)
    ensures
        match r {
            Ok(id) => {
                &&& fresh_id(id as int, old(db).rows@)
                &&& id as int > old(db).hwm@
                &&& final(db).hwm@ == id as int
                &&& final(db).rows@ == old(db).rows@.push(
                    (NoteView { id: id as int, title: title@, content: content@ }),
                )
            },
            Err(_) => final(db).rows@ == old(db).rows@ && final(db).hwm@ == old(db).hwm@,
        },
{
    match db.conn.execute("INSERT INTO notes (title, content) VALUES (?1, ?2)", (title, content)) {
        Ok(_) => Ok(db.conn.last_insert_rowid()),
        Err(e) => Err(e),
    }
}

/// Relies on `rusqlite::Connection::execute` running `UPDATE notes ... WHERE
/// id = ?`: every row whose id matches (at most one, ids being unique) gets
/// the new title and content; ids and the ascending-id order are untouched.
/// On failure the table is unchanged.
#[verifier::external_body]
fn store_update(db: &mut Database, id: i64, title: &str, content: &str) -> (r: Result<
    (),
    rusqlite::Error,
>)
    ensures
        match r {
            Ok(_) => final(db).rows@ == replace_by_id(old(db).rows@, id as int, title@, content@)
                && final(db).hwm@ == old(db).hwm@,
            Err(_) => final(db).rows@ == old(db).rows@ && final(db).hwm@ == old(db).hwm@,
        },
{
    match db.conn.execute(
        "UPDATE notes SET title = ?1, content = ?2 WHERE id = ?3",
        (title, content, id),
    ) {
        Ok(_) => Ok(()),
        Err(e) => Err(e),
    }
}

/// Relies on `rusqlite::Connection::execute` running `DELETE FROM notes
/// WHERE id = ?`: every row whose id matches leaves the table, the rest keep
/// their order; with no matching row the table is unchanged (a silent
/// no-op).  With distinct ids — the table's ids always are, `id` being the
/// primary key — a match at one position removes exactly that entry.  On
/// failure the table is unchanged.
#[verifier::external_body]
fn store_delete(db: &mut Database, id: i64) -> (r: Result<(), rusqlite::Error>)
    ensures
        match r {
            Ok(_) => {
                &&& (forall|j: int|
                    0 <= j < old(db).rows@.len() ==> old(db).rows@[j].id != id as int)
                    ==> final(db).rows@ == old(db).rows@
                &&& forall|j: int|
                    sorted_by_id(old(db).rows@) && 0 <= j < old(db).rows@.len()
                        && old(db).rows@[j].id == id as int
                        ==> final(db).rows@ == old(db).rows@.remove(j)
                &&& final(db).hwm@ == old(db).hwm@
            },
            Err(_) => final(db).rows@ == old(db).rows@ && final(db).hwm@ == old(db).hwm@,
        },
{
    match db.conn.execute("DELETE FROM notes WHERE id = ?1", (id,)) {
        Ok(_) => Ok(()),
        Err(e) => Err(e),
    }
}

/// Relies on `rusqlite::Connection::prepare` and
/// `rusqlite::Statement::query_map` running `SELECT id, title, content FROM
/// notes ORDER BY id`: on success the result holds exactly the table's rows
/// in ascending id order — the tracked sequence — and ids are strictly
/// increasing, `id` being the primary key.
#[verifier::external_body]
fn store_select_all(db: &Database) -> (r: Result<Vec<Note>, rusqlite::Error>)
    ensures
        match r {
            Ok(v) => views(v@) == db.rows@ && sorted_by_id(views(v@)),
            Err(_) => true,
        },
{
    let mut stmt = db.conn.prepare("SELECT id, title, content FROM notes ORDER BY id")?;
    let result = stmt.query_map(
        (),
        |row| { Ok(Note { id: row.get(0)?, title: row.get(1)?, content: row.get(2)? }) },
    )?;
    result.collect()
}

impl Database {
    /// The rows of the `notes` table, in ascending id order.
    pub closed spec fn rows(self) -> Seq<NoteView> {
        self.rows@
    }

    /// The largest id the table has ever assigned: every id ever handed
    /// out is at most this, and every future id is greater.
    pub closed spec fn high_mark(self) -> int {
        self.hwm@
    }

    /// Open (creating it if absent) the store at `path` and make sure the
    /// `notes` table exists.  What the table already holds is unknowable
    /// here, so the ghost values start unconstrained: they stand for the
    /// table's actual rows and its actual id high-water mark, and the
    /// wrappers' contracts — starting with the first successful read —
    /// supply every fact about them.
    pub fn new(path: &str) -> (r: Result<Database, StoreError>) {
        let conn = match open_connection(path) {
            Ok(c) => c,
            Err(e) => {
                return Err(StoreError { inner: e });
            },
        };
        match create_notes_table(&conn) {
            Ok(_) => {},
            Err(e) => {
                return Err(StoreError { inner: e });
            },
        }
        Ok(Database { conn, rows: Ghost(arbitrary()), hwm: Ghost(arbitrary()) })
    }

    /// Persist a new note.  The store assigns it a fresh id, strictly
    /// greater than every id it has ever assigned — the high-water mark,
    /// which the new id becomes — so ids of successive creates strictly
    /// increase even across deletes, and the new row stands last in read
    /// order; the returned note is the row as stored.  On failure the
    /// store is unchanged.
    pub fn add_note(&mut self, title: &str, content: &str) -> (r: Result<Note, StoreError>)
        ensures
            match r {
                Ok(n) => {
                    &&& n.title@ == title@
                    &&& n.content@ == content@
                    &&& fresh_id(n@.id, old(self).rows())
                    &&& n@.id > old(self).high_mark()
                    &&& final(self).high_mark() == n@.id
                    &&& final(self).rows() == old(self).rows().push(n@)
                },
                Err(_) => final(self).rows() == old(self).rows() && final(self).high_mark()
                    == old(self).high_mark(),
            },
    {
        match store_insert(self, title, content) {
            Ok(id) => Ok(Note { id, title: title.to_owned(), content: content.to_owned() }),
            Err(e) => Err(StoreError { inner: e }),
        }
    }

    /// Overwrite the row whose id is `id` with the given title and content;
    /// a silent no-op at the store when no row has that id.  The returned
    /// note carries the requested values either way.  On failure the store
    /// is unchanged.
    pub fn update_note(&mut self, id: i64, title: &str, content: &str) -> (r: Result<
        Note,
        StoreError,
    >)
        ensures
            match r {
                Ok(n) => {
                    &&& n@.id == id as int
                    &&& n.title@ == title@
                    &&& n.content@ == content@
                    &&& final(self).rows() == replace_by_id(
                        old(self).rows(),
                        id as int,
                        title@,
                        content@,
                    )
                    &&& final(self).high_mark() == old(self).high_mark()
                },
                Err(_) => final(self).rows() == old(self).rows() && final(self).high_mark()
                    == old(self).high_mark(),
            },
    {
        match store_update(self, id, title, content) {
            Ok(_) => Ok(Note { id, title: title.to_owned(), content: content.to_owned() }),
            Err(e) => Err(StoreError { inner: e }),
        }
    }

    /// Remove the row whose id is `id`; a silent no-op when no row has that
    /// id.  On failure the store is unchanged.
    pub fn delete_note(&mut self, id: i64) -> (r: Result<(), StoreError>)
        ensures
            match r {
                Ok(_) => {
                    &&& (forall|j: int|
                        0 <= j < old(self).rows().len() ==> old(self).rows()[j].id != id as int)
                        ==> final(self).rows() == old(self).rows()
                    &&& forall|j: int|
                        sorted_by_id(old(self).rows()) && 0 <= j < old(self).rows().len()
                            && old(self).rows()[j].id == id as int
                            ==> final(self).rows() == old(self).rows().remove(j)
                    &&& final(self).high_mark() == old(self).high_mark()
                },
                Err(_) => final(self).rows() == old(self).rows() && final(self).high_mark()
                    == old(self).high_mark(),
            },
    {
        match store_delete(self, id) {
            Ok(_) => Ok(()),
            Err(e) => Err(StoreError { inner: e }),
        }
    }

    /// Read every note, ordered by ascending id: the store's canonical
    /// display order, and exactly the tracked rows.
    pub fn get_all_notes(&self) -> (r: Result<Vec<Note>, StoreError>)
        ensures
            match r {
                Ok(v) => views(v@) == self.rows() && sorted_by_id(self.rows()),
                Err(_) => true,
            },
    {
        match store_select_all(self) {
            Ok(v) => Ok(v),
            Err(e) => Err(StoreError { inner: e }),
        }
    }
}

/// Appending an entry with a fresh id keeps the sequence sorted by id.
pub proof fn lemma_push_fresh_sorted(s: Seq<NoteView>, nv: NoteView)
    requires
        sorted_by_id(s),
        fresh_id(nv.id, s),
    ensures
        sorted_by_id(s.push(nv)),
{
    assert forall|i: int, j: int| 0 <= i < j < s.push(nv).len() implies s.push(nv)[i].id < s.push(
        nv,
    )[j].id by {
        if j < s.len() {
            assert(s.push(nv)[i] == s[i]);
            assert(s.push(nv)[j] == s[j]);
        } else {
            assert(s.push(nv)[j] == nv);
            assert(s.push(nv)[i] == s[i]);
        }
    }
}

/// Removing an entry keeps the sequence sorted by id.
pub proof fn lemma_remove_sorted(s: Seq<NoteView>, i: int)
    requires
        sorted_by_id(s),
        0 <= i < s.len(),
    ensures
        sorted_by_id(s.remove(i)),
{
    assert forall|p: int, q: int|
        0 <= p < q < s.remove(i).len() implies s.remove(i)[p].id < s.remove(i)[q].id by {
        let p0 = if p < i {
            p
        } else {
            p + 1
        };
        let q0 = if q < i {
            q
        } else {
            q + 1
        };
        assert(s.remove(i)[p] == s[p0]);
        assert(s.remove(i)[q] == s[q0]);
    }
}

/// Overwriting title and content by id keeps ids, and so the sorted order,
/// unchanged.
pub proof fn lemma_replace_sorted(s: Seq<NoteView>, id: int, t: Seq<char>, c: Seq<char>)
    requires
        sorted_by_id(s),
    ensures
        sorted_by_id(replace_by_id(s, id, t, c)),
{
    assert forall|i: int, j: int|
        0 <= i < j < replace_by_id(s, id, t, c).len() implies replace_by_id(s, id, t, c)[i].id
        < replace_by_id(s, id, t, c)[j].id by {
        assert(replace_by_id(s, id, t, c)[i].id == s[i].id);
        assert(replace_by_id(s, id, t, c)[j].id == s[j].id);
    }
}

/// With ids sorted — hence unique — overwriting by the id found at `i`
/// touches exactly the entry at `i`.
pub proof fn lemma_replace_at_index(s: Seq<NoteView>, i: int, t: Seq<char>, c: Seq<char>)
    requires
        sorted_by_id(s),
        0 <= i < s.len(),
    ensures
        replace_by_id(s, s[i].id, t, c) == s.update(
            i,
            (NoteView { id: s[i].id, title: t, content: c }),
        ),
{
    let post = s.update(i, (NoteView { id: s[i].id, title: t, content: c }));
    assert forall|k: int| 0 <= k < s.len() implies replace_by_id(s, s[i].id, t, c)[k] == post[k] by {
        if k < i {
            assert(s[k].id < s[i].id);
        } else if k > i {
            assert(s[i].id < s[k].id);
        }
    }
    assert(replace_by_id(s, s[i].id, t, c) =~= post);
}

} // verus!
