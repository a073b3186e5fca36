use vstd::prelude::*;

use crate::errors::NoteError;
use crate::numbering::{allocate_number, assigns, space_exhausted};

verus! {

/// What the store remembers about one note, besides its number.
pub ghost struct NoteRecord {
    pub text: Seq<char>,
    pub done: bool,
}

/// One note as handed to callers: its number, its text (kept verbatim,
/// including any literal escape sequences), and its completion flag.
#[derive(Debug)]
pub struct Note {
    pub number: u16,
    pub text: String,
    pub done: bool,
}

impl Note {
    /// The record this note carries, without its number.
    pub open spec fn record(&self) -> NoteRecord {
        NoteRecord { text: self.text@, done: self.done }
    }
}

impl Clone for Note {
    fn clone(&self) -> (r: Self)
        ensures
            r == *self,
    {
        Note { number: self.number, text: self.text.clone(), done: self.done }
    }
}

/// The listing of a store: every live note, in storage order.
pub struct Notes {
    notes: Vec<Note>,
}

impl View for Notes {
    type V = Seq<Note>;

    closed spec fn view(&self) -> Seq<Note> {
        self.notes@
    }
}

impl Notes {
    /// The listed notes, in storage order.
    pub fn as_vec(&self) -> (r: &Vec<Note>)
        ensures
            r@ == self@,
    {
        &self.notes
    }
}

/// `rows` lists the table `m` exactly: every row is a live note, every live
/// note appears once, and no two rows share a number.
pub open spec fn lists_rows(rows: Seq<Note>, m: Map<u16, NoteRecord>) -> bool {
    &&& forall|i: int|
        0 <= i < rows.len() ==> m.dom().contains((#[trigger] rows[i]).number)
            && m[rows[i].number] == rows[i].record()
    &&& forall|k: u16| #[trigger]
        m.dom().contains(k) ==> exists|i: int| 0 <= i < rows.len() && rows[i].number == k
    &&& forall|i: int, j: int|
        0 <= i < j < rows.len() ==> (#[trigger] rows[i]).number != (#[trigger] rows[j]).number
}

/// The table after setting the done flag of note `n` to `v`: unchanged when
/// `n` is not a live note.
pub open spec fn with_done(m: Map<u16, NoteRecord>, n: u16, v: bool) -> Map<u16, NoteRecord> {
    if m.dom().contains(n) {
        m.insert(n, NoteRecord { text: m[n].text, done: v })
    } else {
        m
    }
}

#[verifier::external_type_specification]
#[verifier::external_body]
pub struct ExConnection(rusqlite::Connection);

#[verifier::external_type_specification]
#[verifier::external_body]
pub struct ExError(rusqlite::Error);

/// Relies on rusqlite::Connection::open: opens the database file at `path`,
/// creating it when absent.  Whether this succeeds depends on the file
/// system alone, so nothing is promised of the result.
#[verifier::external_body]
fn open_connection(path: &str) -> Result<rusqlite::Connection, rusqlite::Error> {
    rusqlite::Connection::open(path)
}

/// Relies on rusqlite::Connection::execute running
/// `CREATE TABLE IF NOT EXISTS`: it creates the notes table when the file
/// has none and never alters existing rows, so nothing is promised of the
/// result.
#[verifier::external_body]
fn create_notes_table(conn: &rusqlite::Connection) -> Result<usize, rusqlite::Error> {
    conn.execute(
        "CREATE TABLE IF NOT EXISTS notes (
            number INTEGER PRIMARY KEY,
            text TEXT NOT NULL,
            done INTEGER NOT NULL )",
        (),
    )
}

/// A live handle to one notes database.
///
/// The ghost field `rows` is the model of the persisted table: it maps each
/// live note's number to its record.  The handle owns the only connection
/// this process holds, and the trusted operations below keep the model in
/// step with the file; no guarantee covers a second process writing the
/// same file concurrently, which the store does not coordinate.
pub struct Handle {
    conn: rusqlite::Connection,
    rows: Ghost<Map<u16, NoteRecord>>,
}

impl View for Handle {
    type V = Map<u16, NoteRecord>;

    closed spec fn view(&self) -> Map<u16, NoteRecord> {
        self.rows@
    }
}

impl Handle {
    /// Relies on rusqlite prepare/query_map/collect over
    /// `SELECT number, text, done FROM notes`: SQLite yields every row of
    /// the table exactly once, and `number` is the primary key, so no two
    /// rows agree on it.  The order is whatever the engine walks, and is
    /// not stated.
    #[verifier::external_body]
    fn select_rows(&self) -> (r: Result<Vec<Note>, rusqlite::Error>)
        ensures
            match r {
                Ok(v) => lists_rows(v@, self@),
                Err(_) => true,
            },
    {
        let mut stmt = self.conn.prepare("SELECT number, text, done FROM notes")?;
        let mapped = stmt.query_map((), |row| {
            Ok(Note { number: row.get(0)?, text: row.get(1)?, done: row.get(2)? })
        })?;
        mapped.collect()
    }

    /// Relies on rusqlite::Connection::execute running a parameterized
    /// `INSERT`: on success exactly the one new row is in the table, and a
    /// failed statement writes nothing (SQLite statements are atomic).
    #[verifier::external_body]
    fn insert_row(&mut self, number: u16, text: &str) -> (r: Result<usize, rusqlite::Error>)
        ensures
            match r {
                Ok(_) => final(self)@ == old(self)@.insert(
                    number,
                    (NoteRecord { text: text@, done: false }),
                ),
                Err(_) => final(self)@ == old(self)@,
            },
    {
        self.conn.execute(
            "INSERT INTO notes(number, text, done) VALUES(?1, ?2, ?3)",
            (number, text, false),
        )
    }

    /// Relies on rusqlite::Connection::execute running a parameterized
    /// `UPDATE ... WHERE number = ?`: it sets the done column of the
    /// matching row and, with no matching row, affects nothing; a failed
    /// statement writes nothing.
    #[verifier::external_body]
    fn update_done(&mut self, number: u16, value: bool) -> (r: Result<usize, rusqlite::Error>)
        ensures
            match r {
                Ok(_) => final(self)@ == with_done(old(self)@, number, value),
                Err(_) => final(self)@ == old(self)@,
            },
    {
        self.conn.execute("UPDATE notes SET done = ?1 WHERE number = ?2", (value, number))
    }

    /// Relies on rusqlite::Connection::execute running a parameterized
    /// `DELETE ... WHERE number = ?`: it removes the matching row and, with
    /// no matching row, affects nothing; a failed statement writes nothing.
    #[verifier::external_body]
    fn delete_row(&mut self, number: u16) -> (r: Result<usize, rusqlite::Error>)
        ensures
            match r {
                Ok(_) => final(self)@ == old(self)@.remove(number),
                Err(_) => final(self)@ == old(self)@,
            },
    {
        self.conn.execute("DELETE FROM notes WHERE number = ?1", (number,))
    }

    /// Opens (or creates) the database at `path` and makes sure the notes
    /// table exists, without touching rows already stored there.  The
    /// handle's model starts at whatever the file already holds.
    pub fn open(path: &str) -> (r: Result<Handle, NoteError>)
        ensures
            match r {
                Ok(_) => true,
                Err(e) => e == NoteError::StorageUnavailable,
            },
    {
        let conn = match open_connection(path) {
            Ok(c) => c,
            Err(_) => {
                return Err(NoteError::StorageUnavailable);
            },
        };
        match create_notes_table(&conn) {
            Ok(_) => Ok(Handle { conn, rows: Ghost(arbitrary()) }),
            Err(_) => Err(NoteError::StorageUnavailable),
        }
    }

    /// Every live note, in storage order; an empty store lists no notes and
    /// is not an error.
    pub fn list_notes(&self) -> (r: Result<Notes, NoteError>)
        ensures
            match r {
                Ok(ns) => lists_rows(ns@, self@),
                Err(e) => e == NoteError::StorageReadError,
            },
    {
        match self.select_rows() {
            Ok(v) => Ok(Notes { notes: v }),
            Err(_) => Err(NoteError::StorageReadError),
        }
    }

    /// Creates a note with the given text, not yet done, under the number
    /// the allocation rule picks from the numbers in use: the requested
    /// number when free, otherwise one more than the largest in use.
    pub fn new_note(&mut self, text: String, number: Option<u16>) -> (r: Result<u16, NoteError>)
        ensures
            match r {
                Ok(n) => assigns(old(self)@.dom(), number, n)
                    && !old(self)@.dom().contains(n)
                    && !space_exhausted(old(self)@.dom(), number)
                    && final(self)@ == old(self)@.insert(
                        n,
                        (NoteRecord { text: text@, done: false }),
                    ),
                Err(e) => final(self)@ == old(self)@
                    && (e == NoteError::StorageReadError || e == NoteError::StorageWriteError
                        || e == NoteError::IdentifierSpaceExhausted)
                    && (e == NoteError::IdentifierSpaceExhausted ==> space_exhausted(
                        old(self)@.dom(),
                        number,
                    )),
            },
    {
        let rows = match self.select_rows() {
            Ok(v) => v,
            Err(_) => {
                return Err(NoteError::StorageReadError);
            },
        };
        let nums = numbers_of(&rows);
        proof {
            lemma_numbers_cover(rows@, self@);
        }
        let n = match allocate_number(&nums, number) {
            Ok(n) => n,
            Err(e) => {
                return Err(e);
            },
        };
        match self.insert_row(n, text.as_str()) {
            Ok(_) => Ok(n),
            Err(_) => Err(NoteError::StorageWriteError),
        }
    }

    /// Marks note `number` done.  A number not in use is a silent no-op by
    /// design, not an error: the update simply matches no row.
    pub fn done_note(&mut self, number: u16) -> (r: Result<(), NoteError>)
        ensures
            match r {
                Ok(_) => final(self)@ == with_done(old(self)@, number, true),
                Err(e) => final(self)@ == old(self)@ && e == NoteError::StorageWriteError,
            },
    {
        match self.update_done(number, true) {
            Ok(_) => Ok(()),
            Err(_) => Err(NoteError::StorageWriteError),
        }
    }

    /// Marks note `number` not done, with the same silent no-op on a number
    /// not in use.
    pub fn undone_note(&mut self, number: u16) -> (r: Result<(), NoteError>)
        ensures
            match r {
                Ok(_) => final(self)@ == with_done(old(self)@, number, false),
                Err(e) => final(self)@ == old(self)@ && e == NoteError::StorageWriteError,
            },
    {
        match self.update_done(number, false) {
            Ok(_) => Ok(()),
            Err(_) => Err(NoteError::StorageWriteError),
        }
    }

    /// Deletes note `number`.  A number not in use is a silent no-op by
    /// design, not an error: the delete simply matches no row.
    pub fn remove_note(&mut self, number: u16) -> (r: Result<(), NoteError>)
        ensures
            match r {
                Ok(_) => final(self)@ == old(self)@.remove(number),
                Err(e) => final(self)@ == old(self)@ && e == NoteError::StorageWriteError,
            },
    {
        match self.delete_row(number) {
            Ok(_) => Ok(()),
            Err(_) => Err(NoteError::StorageWriteError),
        }
    }
}

/// The numbers the listed notes carry, in listing order.
fn numbers_of(rows: &Vec<Note>) -> (r: Vec<u16>)
    ensures
        r@ == rows@.map_values(|n: Note| n.number),
{
    let mut r: Vec<u16> = Vec::new();
    let mut i: usize = 0;
    while i < rows.len()
        invariant
            i <= rows@.len(),
            r@.len() == i,
            forall|j: int| 0 <= j < i ==> r@[j] == rows@[j].number,
        decreases rows@.len() - i,
    {
        r.push(rows[i].number);
        i = i + 1;
    }
    proof {
        assert(r@ =~= rows@.map_values(|n: Note| n.number));
    }
    r
}

/// A listing's numbers cover exactly the live notes.
proof fn lemma_numbers_cover(rows: Seq<Note>, m: Map<u16, NoteRecord>)
    requires
        lists_rows(rows, m),
    ensures
        rows.map_values(|n: Note| n.number).to_set() == m.dom(),
{
    let nums = rows.map_values(|n: Note| n.number);
    assert forall|k: u16| nums.to_set().contains(k) implies m.dom().contains(k) by {
        let i = choose|i: int| 0 <= i < nums.len() && nums[i] == k;
        assert(rows[i].number == k);
    };
    assert forall|k: u16| m.dom().contains(k) implies nums.to_set().contains(k) by {
        let i = choose|i: int| 0 <= i < rows.len() && rows[i].number == k;
        assert(nums[i] == k);
        assert(nums.contains(k));
    };
    assert(nums.to_set() =~= m.dom());
}

/// Uniqueness, as a listing sees it: no two notes a store lists ever share
/// a number.
pub proof fn lemma_listing_numbers_unique(rows: Seq<Note>, m: Map<u16, NoteRecord>)
    requires
        lists_rows(rows, m),
    ensures
        forall|i: int, j: int|
            0 <= i < j < rows.len() ==> (#[trigger] rows[i]).number != (#[trigger] rows[j]).number,
{
}

/// No-op mutation: marking done or removing a number that no live note
/// carries leaves the store's model unchanged.
pub proof fn lemma_missing_number_noop(m: Map<u16, NoteRecord>, n: u16)
    requires
        !m.dom().contains(n),
    ensures
        with_done(m, n, true) == m,
        with_done(m, n, false) == m,
        m.remove(n) == m,
{
    assert(m.remove(n) =~= m);
}

/// Round trip: after creating the first note in an empty store, a listing
/// holds exactly that note, with the text and flag it was created with.
pub proof fn lemma_round_trip_single(m: Map<u16, NoteRecord>, n: u16, rec: NoteRecord, rows: Seq<Note>)
    requires
        m.dom() == Set::<u16>::empty(),
        lists_rows(rows, m.insert(n, rec)),
    ensures
        rows.len() == 1,
        rows[0].number == n,
        rows[0].record() == rec,
{
    let m1 = m.insert(n, rec);
    assert(m1.dom().contains(n));
    let i = choose|i: int| 0 <= i < rows.len() && rows[i].number == n;
    assert(rows.len() >= 1);
    assert(forall|j: int| 0 <= j < rows.len() ==> (#[trigger] rows[j]).number == n);
    if rows.len() >= 2 {
        assert(rows[0].number != rows[1].number);
        assert(false);
    }
    assert(rows[0].record() == m1[n]);
}

} // verus!
