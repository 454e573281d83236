//! The connection to the database file and the trusted calls into SQLite.
//!
//! Every call into the storage engine goes through one of the
//! `external_body` wrappers below.  Each wrapper runs one fixed SQL statement
//! (taken from [`Table`](crate::schema::Table)) and states what the engine
//! does with it over a ghost model of the four tables: the uninterpreted
//! functions [`category_rows`], [`language_rows`], [`card_rows`] and
//! [`translation_rows`] name the rows that the underlying connection sees.
//! All decoding and all decisions stand outside the wrappers and are
//! verified.  The contracts assume what the rest of the design assumes: the
//! database file is touched through one connection at a time.

use vstd::prelude::*;

use crate::datum::Datum;
use crate::models::card::Card;
use crate::models::category::Category;
use crate::models::language::Language;
use crate::models::translation::Translation;
use crate::schema::{head_id, may_equal_integer, values_match, DbState, Table};

verus! {

/// An error which can occur during access to the database.
#[derive(Debug, Clone)]
pub enum DatabaseError {
    /// A file could not be found; the path is in the string.
    FileNotFound(String),
    /// An item has not been found.
    NotFound,
    /// An error within SQLite occurred; its message is in the string.
    SQLiteError(String),
    /// The value returned by the database is not the expected integer.
    ValueNotInteger,
    /// The value returned by the database is not the expected string.
    ValueNotString,
}

impl DatabaseError {
    /// A human-readable description of the error.
    pub fn message(&self) -> (r: String)
        ensures
            r@.len() > 0,
    {
        proof {
            reveal_strlit("DatabaseError: File not found: ");
            reveal_strlit("DatabaseError: Item has not been found!");
            reveal_strlit("DatabaseError: SQLite error: ");
            reveal_strlit("DatabaseError: Value not an integer!");
            reveal_strlit("DatabaseError: Value not a string!");
        }
        match self {
            DatabaseError::FileNotFound(db_path) => {
                String::from_str("DatabaseError: File not found: ")
                    .concat(db_path.as_str())
                    .concat("!")
            },
            DatabaseError::NotFound => {
                String::from_str("DatabaseError: Item has not been found!")
            },
            DatabaseError::SQLiteError(msg) => {
                String::from_str("DatabaseError: SQLite error: ").concat(msg.as_str()).concat("!")
            },
            DatabaseError::ValueNotInteger => {
                String::from_str("DatabaseError: Value not an integer!")
            },
            DatabaseError::ValueNotString => {
                String::from_str("DatabaseError: Value not a string!")
            },
        }
    }
}

#[verifier::external_type_specification]
#[verifier::external_body]
pub struct ExConnection(sqlite::Connection);

#[verifier::external_type_specification]
#[verifier::external_body]
pub struct ExValue(sqlite::Value);

#[verifier::external_type_specification]
#[verifier::external_body]
pub struct ExStatement<'a>(sqlite::Statement<'a>);

/// The rows of the `category` table that the connection sees, keyed by id;
/// a row holds the columns after the id, in declaration order.
pub uninterp spec fn category_rows(c: sqlite::Connection) -> Map<i64, Seq<Datum>>;

/// The rows of the `language` table that the connection sees, keyed by id.
pub uninterp spec fn language_rows(c: sqlite::Connection) -> Map<i64, Seq<Datum>>;

/// The rows of the `card` table that the connection sees, keyed by id.
pub uninterp spec fn card_rows(c: sqlite::Connection) -> Map<i64, Seq<Datum>>;

/// The rows of the `translation` table that the connection sees, keyed by id.
pub uninterp spec fn translation_rows(c: sqlite::Connection) -> Map<i64, Seq<Datum>>;

/// An open connection to one database file.  Its view is the current
/// contents of the four tables.
pub struct Db {
    inner: sqlite::Connection,
}

/// The contents of the four tables as the connection sees them.
pub closed spec fn db_of(db: Db) -> DbState {
    DbState {
        categories: category_rows(db.inner),
        languages: language_rows(db.inner),
        cards: card_rows(db.inner),
        translations: translation_rows(db.inner),
    }
}

impl View for Db {
    type V = DbState;

    open spec fn view(&self) -> DbState {
        db_of(*self)
    }
}

/// Relies on `std::path::Path::exists`: whether something exists on disk at
/// the given path.  The answer depends on the machine, so nothing is claimed
/// of it.
#[verifier::external_body]
fn file_exists(path: &str) -> bool {
    std::path::Path::new(path).exists()
}

/// Relies on `sqlite::Connection::open`: opens the database file read-write,
/// creating it when absent.  A SQLite table holds finitely many rows.
#[verifier::external_body]
fn open_db(path: &str) -> (r: Result<Db, DatabaseError>)
    ensures
        match r {
            Ok(c) => {
                &&& category_rows(c.inner).dom().finite()
                &&& language_rows(c.inner).dom().finite()
                &&& card_rows(c.inner).dom().finite()
                &&& translation_rows(c.inner).dom().finite()
            },
            Err(e) => e is SQLiteError,
        },
{
    match sqlite::Connection::open(path) {
        Ok(inner) => Ok(Db { inner }),
        Err(e) => Err(DatabaseError::SQLiteError(e.to_string())),
    }
}

/// Relies on `sqlite::Value`: converts a row of the library's values into
/// engine values, one for one.
#[verifier::external_body]
fn raw_row(values: &Vec<Datum>) -> Vec<sqlite::Value> {
    values
        .iter()
        .map(|v| match v {
            Datum::Integer(i) => sqlite::Value::Integer(*i),
            Datum::Text(s) => sqlite::Value::String(s.clone()),
            Datum::Null => sqlite::Value::Null,
        })
        .collect()
}

/// Relies on `sqlite::Value`: converts a row of engine values into the
/// library's values, one for one, keeping integers and text and flattening
/// every other storage class to `Null`.
#[verifier::external_body]
fn cook_row(row: Vec<sqlite::Value>) -> Vec<Datum> {
    row.into_iter()
        .map(|v| match v {
            sqlite::Value::Integer(i) => Datum::Integer(i),
            sqlite::Value::String(s) => Datum::Text(s),
            _ => Datum::Null,
        })
        .collect()
}

/// Relies on `sqlite::Cursor::try_next`: drains every row of a prepared
/// statement in order, converting each through [`cook_row`].
#[verifier::external_body]
fn drain_rows(stmt: sqlite::Statement<'_>) -> Result<Vec<Vec<Datum>>, DatabaseError> {
    let mut cur = stmt.into_iter();
    let mut rows = Vec::new();
    loop {
        match cur.try_next() {
            Ok(Some(vals)) => rows.push(cook_row(vals)),
            Ok(None) => return Ok(rows),
            Err(e) => return Err(DatabaseError::SQLiteError(e.to_string())),
        }
    }
}

/// Relies on `SELECT last_insert_rowid()`: the id most recently assigned by
/// an insert on this connection, `0` when the engine yields no row.
#[verifier::external_body]
fn last_insert_id(conn: &sqlite::Connection) -> Result<i64, DatabaseError> {
    let stmt = match conn.prepare("SELECT last_insert_rowid()") {
        Ok(s) => s,
        Err(e) => return Err(DatabaseError::SQLiteError(e.to_string())),
    };
    match stmt.into_iter().try_next() {
        Ok(Some(vals)) => match vals.first() {
            Some(sqlite::Value::Integer(id)) => Ok(*id),
            _ => Err(DatabaseError::ValueNotInteger),
        },
        Ok(None) => Ok(0),
        Err(e) => Err(DatabaseError::SQLiteError(e.to_string())),
    }
}

/// Relies on `sqlite::Statement` `bind`/`next` and `last_insert_rowid()`:
/// runs the table's `INSERT` with the values bound positionally, then reads
/// the id the engine assigned.  Because the values fit the declared column
/// types, the engine stores them unchanged; the assigned id is positive and
/// not yet in the table.  A failed statement leaves the database as it was.
#[verifier::external_body]
pub(crate) fn exec_insert(db: &mut Db, t: Table, values: &Vec<Datum>) -> (r: Result<
    i64,
    DatabaseError,
>)
    requires
        values_match(t.column_types(), values@),
    ensures
        match r {
            Ok(id) => {
                &&& id > 0
                &&& !db_of(*old(db)).contains(t, id)
                &&& db_of(*final(db)) == db_of(*old(db)).with_rows(t, db_of(*old(db)).rows(t).insert(id, values@))
            },
            Err(e) => e is SQLiteError && db_of(*final(db)) == db_of(*old(db)),
        },
{
    let mut stmt = match db.inner.prepare(t.insert_sql()) {
        Ok(s) => s,
        Err(e) => return Err(DatabaseError::SQLiteError(e.to_string())),
    };
    if let Err(e) = stmt.bind(&raw_row(values)[..]) {
        return Err(DatabaseError::SQLiteError(e.to_string()));
    }
    if let Err(e) = stmt.next() {
        return Err(DatabaseError::SQLiteError(e.to_string()));
    }
    last_insert_id(&db.inner)
}

/// Relies on `sqlite::Statement` `bind`/`next`: runs the table's `UPDATE`
/// with the new column values bound first and the row's id bound last.  When
/// the id is present its row is replaced, the values stored unchanged since
/// they fit the declared types; when it is absent the statement still
/// succeeds and changes nothing.  A failed statement leaves the database as
/// it was.
#[verifier::external_body]
pub(crate) fn exec_update(db: &mut Db, t: Table, values: &Vec<Datum>) -> (r: Result<
    bool,
    DatabaseError,
>)
    requires
        values@.len() >= 1,
        values_match(t.column_types(), values@.drop_last()),
        values@.last() is Integer,
    ensures
        match r {
            Ok(b) => {
                &&& b == true
                &&& (values@.last() matches Datum::Integer(id) ==> {
                    if db_of(*old(db)).contains(t, id) {
                        db_of(*final(db)) == db_of(*old(db)).with_rows(
                            t,
                            db_of(*old(db)).rows(t).insert(id, values@.drop_last()),
                        )
                    } else {
                        db_of(*final(db)) == db_of(*old(db))
                    }
                })
            },
            Err(e) => e is SQLiteError && db_of(*final(db)) == db_of(*old(db)),
        },
{
    let mut stmt = match db.inner.prepare(t.update_sql()) {
        Ok(s) => s,
        Err(e) => return Err(DatabaseError::SQLiteError(e.to_string())),
    };
    if let Err(e) = stmt.bind(&raw_row(values)[..]) {
        return Err(DatabaseError::SQLiteError(e.to_string()));
    }
    match stmt.next() {
        Ok(_) => Ok(true),
        Err(e) => Err(DatabaseError::SQLiteError(e.to_string())),
    }
}

/// Relies on `sqlite::Statement` `bind`/`next`: runs
/// `DELETE FROM <table> WHERE id = ?`.  The row with that id, if any, is
/// gone afterwards; the statement succeeds whether or not a row matched.  A
/// failed statement leaves the database as it was.
#[verifier::external_body]
pub(crate) fn exec_delete(db: &mut Db, t: Table, id: i64) -> (r: Result<bool, DatabaseError>)
    ensures
        match r {
            Ok(b) => b == true && db_of(*final(db)) == db_of(*old(db)).with_rows(
                t,
                db_of(*old(db)).rows(t).remove(id),
            ),
            Err(e) => e is SQLiteError && db_of(*final(db)) == db_of(*old(db)),
        },
{
    let sql = ["DELETE FROM ", t.name(), " WHERE id = ?"].concat();
    let mut stmt = match db.inner.prepare(&sql) {
        Ok(s) => s,
        Err(e) => return Err(DatabaseError::SQLiteError(e.to_string())),
    };
    if let Err(e) = stmt.bind((1, id)) {
        return Err(DatabaseError::SQLiteError(e.to_string()));
    }
    match stmt.next() {
        Ok(_) => Ok(true),
        Err(e) => Err(DatabaseError::SQLiteError(e.to_string())),
    }
}

/// Relies on `sqlite::Cursor::try_next`: runs the table's `SELECT` by id and
/// reads the first row, if any.  The id column is the integer primary key,
/// so the row with that id is returned exactly when it exists, the id first
/// and the stored columns after it.
#[verifier::external_body]
pub(crate) fn select_row_by_id(db: &Db, t: Table, id: i64) -> (r: Result<
    Option<Vec<Datum>>,
    DatabaseError,
>)
    ensures
        match r {
            Ok(Some(row)) => db_of(*db).contains(t, id) && row@ == db_of(*db).full_row(t, id),
            Ok(None) => !db_of(*db).contains(t, id),
            Err(e) => e is SQLiteError,
        },
{
    let mut stmt = match db.inner.prepare(t.select_sql()) {
        Ok(s) => s,
        Err(e) => return Err(DatabaseError::SQLiteError(e.to_string())),
    };
    if let Err(e) = stmt.bind((1, id)) {
        return Err(DatabaseError::SQLiteError(e.to_string()));
    }
    match stmt.into_iter().try_next() {
        Ok(Some(vals)) => Ok(Some(cook_row(vals))),
        Ok(None) => Ok(None),
        Err(e) => Err(DatabaseError::SQLiteError(e.to_string())),
    }
}

/// Relies on `sqlite::Cursor::try_next`: runs the table's `SELECT`-all and
/// reads every row.  Each produced row is a stored row with its id first;
/// every stored row is produced exactly once; for the tables selected
/// `ORDER BY id` the ids come in ascending order.
#[verifier::external_body]
pub(crate) fn select_all_rows(db: &Db, t: Table) -> (r: Result<Vec<Vec<Datum>>, DatabaseError>)
    ensures
        match r {
            Ok(rows) => {
                &&& forall|i: int|
                    0 <= i < rows@.len() ==> {
                        &&& (#[trigger] rows@[i])@.len() >= 1
                        &&& rows@[i]@[0] == Datum::Integer(head_id(rows@[i]@))
                        &&& db_of(*db).contains(t, head_id(rows@[i]@))
                        &&& rows@[i]@ == db_of(*db).full_row(t, head_id(rows@[i]@))
                    }
                &&& forall|id: i64|
                    #[trigger] db_of(*db).contains(t, id) ==> exists|i: int|
                        0 <= i < rows@.len() && head_id((#[trigger] rows@[i])@) == id
                &&& forall|i: int, j: int|
                    0 <= i < j < rows@.len() ==> head_id((#[trigger] rows@[i])@) != head_id(
                        (#[trigger] rows@[j])@,
                    )
                &&& t.ordered_by_id() ==> forall|i: int, j: int|
                    0 <= i < j < rows@.len() ==> head_id((#[trigger] rows@[i])@) < head_id(
                        (#[trigger] rows@[j])@,
                    )
            },
            Err(e) => e is SQLiteError,
        },
{
    let stmt = match db.inner.prepare(t.select_all_sql()) {
        Ok(s) => s,
        Err(e) => return Err(DatabaseError::SQLiteError(e.to_string())),
    };
    drain_rows(stmt)
}

/// Relies on `sqlite::Cursor::try_next`: runs
/// `SELECT id, name FROM category WHERE name = ?` and reads the first row,
/// if any.  A text parameter compared against the `TEXT` column matches a
/// stored value exactly when it is that text, so the produced row holds the
/// given name, and when none is produced no stored row holds it.
#[verifier::external_body]
pub(crate) fn select_category_row_by_name(db: &Db, name: &str) -> (r: Result<
    Option<Vec<Datum>>,
    DatabaseError,
>)
    ensures
        match r {
            Ok(Some(row)) => exists|id: i64|
                {
                    &&& #[trigger] db_of(*db).contains(Table::Category, id)
                    &&& row@ == db_of(*db).full_row(Table::Category, id)
                    &&& row@.len() >= 2
                    &&& row@[1] matches Datum::Text(n) && n@ == name@
                },
            Ok(None) => forall|id: i64|
                #[trigger] db_of(*db).contains(Table::Category, id) ==> !(db_of(
                    *db,
                ).categories[id][0] matches Datum::Text(n) && n@ == name@),
            Err(e) => e is SQLiteError,
        },
{
    let mut stmt = match db.inner.prepare("SELECT id, name FROM category WHERE name = ?") {
        Ok(s) => s,
        Err(e) => return Err(DatabaseError::SQLiteError(e.to_string())),
    };
    if let Err(e) = stmt.bind((1, name)) {
        return Err(DatabaseError::SQLiteError(e.to_string()));
    }
    match stmt.into_iter().try_next() {
        Ok(Some(vals)) => Ok(Some(cook_row(vals))),
        Ok(None) => Ok(None),
        Err(e) => Err(DatabaseError::SQLiteError(e.to_string())),
    }
}

/// Relies on `sqlite::Cursor::try_next`: runs
/// `SELECT id FROM card ORDER BY RANDOM() LIMIT 1`.  The engine yields the
/// id of some stored card, with no word on which one, and yields nothing
/// exactly when the table is empty.
#[verifier::external_body]
pub(crate) fn select_random_card_row(db: &Db) -> (r: Result<Option<Vec<Datum>>, DatabaseError>)
    ensures
        match r {
            Ok(Some(row)) => exists|id: i64|
                #[trigger] db_of(*db).contains(Table::Card, id) && row@ == seq![
                    Datum::Integer(id),
                ],
            Ok(None) => forall|id: i64| !(#[trigger] db_of(*db).contains(Table::Card, id)),
            Err(e) => e is SQLiteError,
        },
{
    let mut stmt = match db.inner.prepare("SELECT id FROM card ORDER BY RANDOM() LIMIT 1") {
        Ok(s) => s,
        Err(e) => return Err(DatabaseError::SQLiteError(e.to_string())),
    };
    match stmt.into_iter().try_next() {
        Ok(Some(vals)) => Ok(Some(cook_row(vals))),
        Ok(None) => Ok(None),
        Err(e) => Err(DatabaseError::SQLiteError(e.to_string())),
    }
}

/// Relies on `sqlite::Cursor::try_next`: runs
/// `SELECT id FROM translation WHERE card_id = ? ORDER BY language_id`.
/// Every produced row is the id of a stored translation whose `card_id`
/// column can compare equal to the parameter; every translation whose
/// `card_id` column is exactly that integer is produced once; the ids come
/// ordered by the rows' `language_id` columns where those are integers.
#[verifier::external_body]
pub(crate) fn select_translation_rows_for_card(db: &Db, card_id: i64) -> (r: Result<
    Vec<Vec<Datum>>,
    DatabaseError,
>)
    ensures
        match r {
            Ok(rows) => {
                &&& forall|i: int|
                    0 <= i < rows@.len() ==> {
                        &&& (#[trigger] rows@[i])@ == seq![Datum::Integer(head_id(rows@[i]@))]
                        &&& db_of(*db).contains(Table::Translation, head_id(rows@[i]@))
                        &&& may_equal_integer(
                            db_of(*db).translations[head_id(rows@[i]@)][0],
                            card_id,
                        )
                    }
                &&& forall|tid: i64|
                    #[trigger] db_of(*db).contains(Table::Translation, tid) && db_of(
                        *db,
                    ).translations[tid][0] == Datum::Integer(card_id) ==> exists|i: int|
                        0 <= i < rows@.len() && head_id((#[trigger] rows@[i])@) == tid
                &&& forall|i: int, j: int|
                    0 <= i < j < rows@.len() ==> head_id((#[trigger] rows@[i])@) != head_id(
                        (#[trigger] rows@[j])@,
                    )
                &&& forall|i: int, j: int|
                    0 <= i < j < rows@.len() ==> (db_of(*db).translations[head_id(
                        (#[trigger] rows@[i])@,
                    )][1] matches Datum::Integer(a) ==> (db_of(*db).translations[head_id(
                        (#[trigger] rows@[j])@,
                    )][1] matches Datum::Integer(b) ==> a <= b))
            },
            Err(e) => e is SQLiteError,
        },
{
    let sql = "SELECT id FROM translation WHERE card_id = ? ORDER BY language_id";
    let mut stmt = match db.inner.prepare(sql) {
        Ok(s) => s,
        Err(e) => return Err(DatabaseError::SQLiteError(e.to_string())),
    };
    if let Err(e) = stmt.bind((1, card_id)) {
        return Err(DatabaseError::SQLiteError(e.to_string()));
    }
    drain_rows(stmt)
}

/// Relies on `sqlite::Cursor::try_next`: runs the translation `SELECT` by
/// card and language and reads the first row, if any.  A produced row is a
/// stored translation whose `card_id` and `language_id` columns can compare
/// equal to the parameters; when none is produced, no stored row holds
/// exactly those two integers.
#[verifier::external_body]
pub(crate) fn select_translation_row_for_card_language(
    db: &Db,
    card_id: i64,
    language_id: i64,
) -> (r: Result<Option<Vec<Datum>>, DatabaseError>)
    ensures
        match r {
            Ok(Some(row)) => exists|tid: i64|
                {
                    &&& #[trigger] db_of(*db).contains(Table::Translation, tid)
                    &&& row@ == db_of(*db).full_row(Table::Translation, tid)
                    &&& may_equal_integer(db_of(*db).translations[tid][0], card_id)
                    &&& may_equal_integer(db_of(*db).translations[tid][1], language_id)
                },
            Ok(None) => forall|tid: i64|
                #[trigger] db_of(*db).contains(Table::Translation, tid) ==> !(db_of(
                    *db,
                ).translations[tid][0] == Datum::Integer(card_id) && db_of(
                    *db,
                ).translations[tid][1] == Datum::Integer(language_id)),
            Err(e) => e is SQLiteError,
        },
{
    let mut stmt = match db.inner.prepare(
        "SELECT id, card_id, language_id, text, description \
         FROM translation WHERE card_id = ? AND language_id = ?",
    ) {
        Ok(s) => s,
        Err(e) => return Err(DatabaseError::SQLiteError(e.to_string())),
    };
    if let Err(e) = stmt.bind(&[(1, card_id), (2, language_id)][..]) {
        return Err(DatabaseError::SQLiteError(e.to_string()));
    }
    match stmt.into_iter().try_next() {
        Ok(Some(vals)) => Ok(Some(cook_row(vals))),
        Ok(None) => Ok(None),
        Err(e) => Err(DatabaseError::SQLiteError(e.to_string())),
    }
}

/// Relies on `sqlite::Connection::execute`: drops the table and creates it
/// afresh, leaving it empty.  A failure may leave the batch half done, so
/// nothing is claimed of the state then.
#[verifier::external_body]
pub(crate) fn exec_schema_reset(db: &mut Db, t: Table) -> (r: Result<(), DatabaseError>)
    ensures
        match r {
            Ok(_) => db_of(*final(db)) == db_of(*old(db)).with_rows(t, Map::empty()),
            Err(e) => e is SQLiteError,
        },
{
    match db.inner.execute(t.create_sql()) {
        Ok(_) => Ok(()),
        Err(e) => Err(DatabaseError::SQLiteError(e.to_string())),
    }
}

/// Initialise the database schema: drop the four tables and create them
/// afresh, leaving every table empty.
fn init_schema(db: &mut Db) -> (r: Result<(), DatabaseError>)
    ensures
        match r {
            Ok(_) => db_of(*final(db)) == DbState::empty(),
            Err(e) => e is SQLiteError,
        },
{
    match exec_schema_reset(db, Table::Category) {
        Ok(_) => (),
        Err(e) => {
            return Err(e);
        },
    }
    match exec_schema_reset(db, Table::Card) {
        Ok(_) => (),
        Err(e) => {
            return Err(e);
        },
    }
    match exec_schema_reset(db, Table::Language) {
        Ok(_) => (),
        Err(e) => {
            return Err(e);
        },
    }
    match exec_schema_reset(db, Table::Translation) {
        Ok(_) => (),
        Err(e) => {
            return Err(e);
        },
    }
    Ok(())
}

/// What the bootstrap leaves behind: three languages, one category, three
/// cards, nine translations, with every stored reference resolving to a
/// stored row and every column of its declared type.
pub open spec fn seeded(s: DbState) -> bool {
    &&& s.wf()
    &&& s.languages.dom().len() == 3
    &&& s.categories.dom().len() == 1
    &&& s.cards.dom().len() == 3
    &&& s.translations.dom().len() == 9
    &&& forall|id: i64|
        #[trigger] s.categories.dom().contains(id) ==> s.categories[id].len() == 1
            && s.categories[id][0] is Text
    &&& forall|id: i64|
        #[trigger] s.languages.dom().contains(id) ==> s.languages[id].len() == 2
            && s.languages[id][0] is Text && s.languages[id][1] is Text
    &&& forall|id: i64|
        #[trigger] s.cards.dom().contains(id) ==> s.cards[id].len() == 1 && (s.cards[id][0]
            matches Datum::Integer(c) && s.categories.dom().contains(c))
    &&& forall|id: i64|
        #[trigger] s.translations.dom().contains(id) ==> s.translations[id].len() == 4 && (
        s.translations[id][0] matches Datum::Integer(c) && s.cards.dom().contains(c)) && (
        s.translations[id][1] matches Datum::Integer(l) && s.languages.dom().contains(l))
            && s.translations[id][2] is Text && s.translations[id][3] is Text
    &&& exists|id: i64|
        #[trigger] s.categories.dom().contains(id) && (s.categories[id][0] matches Datum::Text(n)
            && n@ == "default"@)
    &&& has_language(s, "to"@, "Tongan"@)
    &&& has_language(s, "en"@, "English"@)
    &&& has_language(s, "de"@, "German"@)
}

/// Whether some stored language row holds the given code and name.
pub open spec fn has_language(s: DbState, code: Seq<char>, name: Seq<char>) -> bool {
    exists|id: i64|
        {
            &&& #[trigger] s.languages.dom().contains(id)
            &&& s.languages[id].len() == 2
            &&& (s.languages[id][0] matches Datum::Text(c) && c@ == code)
            &&& (s.languages[id][1] matches Datum::Text(n) && n@ == name)
        }
}

/// Add one language with the given code and name to the database.
fn seed_language(db: &mut Db, code: &str, name: &str) -> (r: Result<i64, DatabaseError>)
    ensures
        match r {
            Ok(id) => {
                &&& id > 0
                &&& !db_of(*old(db)).contains(Table::Language, id)
                &&& db_of(*final(db)) == db_of(*old(db)).with_rows(
                    Table::Language,
                    db_of(*old(db)).languages.insert(
                        id,
                        db_of(*final(db)).languages[id],
                    ),
                )
                &&& db_of(*final(db)).languages[id].len() == 2
                &&& (db_of(*final(db)).languages[id][0] matches Datum::Text(c) && c@ == code@)
                &&& (db_of(*final(db)).languages[id][1] matches Datum::Text(n) && n@ == name@)
            },
            Err(e) => e is SQLiteError,
        },
{
    let mut language = Language {
        id: 0,
        code: String::from_str(code),
        name: String::from_str(name),
    };
    language.save(db)
}

/// Add one translation for the given card and language to the database.
fn seed_translation(
    db: &mut Db,
    card_id: i64,
    language_id: i64,
    text: &str,
    description: &str,
) -> (r: Result<i64, DatabaseError>)
    ensures
        match r {
            Ok(id) => {
                &&& id > 0
                &&& !db_of(*old(db)).contains(Table::Translation, id)
                &&& db_of(*final(db)) == db_of(*old(db)).with_rows(
                    Table::Translation,
                    db_of(*old(db)).translations.insert(
                        id,
                        db_of(*final(db)).translations[id],
                    ),
                )
                &&& db_of(*final(db)).translations[id].len() == 4
                &&& db_of(*final(db)).translations[id][0] == Datum::Integer(card_id)
                &&& db_of(*final(db)).translations[id][1] == Datum::Integer(language_id)
                &&& db_of(*final(db)).translations[id][2] is Text
                &&& db_of(*final(db)).translations[id][3] is Text
            },
            Err(e) => e is SQLiteError,
        },
{
    let mut translation = Translation {
        id: 0,
        card_id,
        language_id,
        text: String::from_str(text),
        description: String::from_str(description),
    };
    translation.save(db)
}

/// Initialise the database fixtures: the three languages, the default
/// category, and three sample cards with one translation per language.
fn init_fixtures(db: &mut Db) -> (r: Result<(), DatabaseError>)
    requires
        db_of(*old(db)) == DbState::empty(),
    ensures
        match r {
            Ok(_) => seeded(db_of(*final(db))),
            Err(e) => e is SQLiteError,
        },
{
    broadcast use vstd::set::group_set_axioms;

    let l1 = match seed_language(db, "to", "Tongan") {
        Ok(id) => id,
        Err(e) => {
            return Err(e);
        },
    };
    let l2 = match seed_language(db, "en", "English") {
        Ok(id) => id,
        Err(e) => {
            return Err(e);
        },
    };
    let l3 = match seed_language(db, "de", "German") {
        Ok(id) => id,
        Err(e) => {
            return Err(e);
        },
    };
    let mut category = Category { id: 0, name: String::from_str("default") };
    let c = match category.save(db) {
        Ok(id) => id,
        Err(e) => {
            return Err(e);
        },
    };
    let mut first = Card { id: 0, category_id: c };
    let card1 = match first.save(db) {
        Ok(id) => id,
        Err(e) => {
            return Err(e);
        },
    };
    let mut second = Card { id: 0, category_id: c };
    let card2 = match second.save(db) {
        Ok(id) => id,
        Err(e) => {
            return Err(e);
        },
    };
    let mut third = Card { id: 0, category_id: c };
    let card3 = match third.save(db) {
        Ok(id) => id,
        Err(e) => {
            return Err(e);
        },
    };
    let texts: [(i64, i64, &str, &str); 9] = [
        (card1, l1, "kaati", ""),
        (card1, l2, "card", "A card as in flash card or birthday card"),
        (card1, l3, "Karte", "Eine Karte wie in Karteikarte oder Geburtstagskarte"),
        (card2, l1, "ako", ""),
        (card2, l2, "learn", "Learn a language"),
        (card2, l3, "lernen", "Eine Sprache lernen"),
        (card3, l1, "lea faka", ""),
        (card3, l2, "language", "Learn a language"),
        (card3, l3, "Sprache", "Eine Sprache lernen"),
    ];
    let mut k: usize = 0;
    while k < 9
        invariant
            k <= 9,
            texts@.len() == 9,
            forall|i: int|
                0 <= i < 9 ==> ((#[trigger] texts@[i]).0 == card1 || texts@[i].0 == card2
                    || texts@[i].0 == card3) && (texts@[i].1 == l1 || texts@[i].1 == l2
                    || texts@[i].1 == l3),
            db@.cards.dom().contains(card1),
            db@.cards.dom().contains(card2),
            db@.cards.dom().contains(card3),
            db@.languages.dom().contains(l1),
            db@.languages.dom().contains(l2),
            db@.languages.dom().contains(l3),
            (db@.languages[l1][0] matches Datum::Text(c) && c@ == "to"@),
            (db@.languages[l1][1] matches Datum::Text(n) && n@ == "Tongan"@),
            (db@.languages[l2][0] matches Datum::Text(c) && c@ == "en"@),
            (db@.languages[l2][1] matches Datum::Text(n) && n@ == "English"@),
            (db@.languages[l3][0] matches Datum::Text(c) && c@ == "de"@),
            (db@.languages[l3][1] matches Datum::Text(n) && n@ == "German"@),
            db@.languages[l1].len() == 2,
            db@.languages[l2].len() == 2,
            db@.languages[l3].len() == 2,
            db@.categories.dom().contains(c),
            (db@.categories[c][0] matches Datum::Text(n) && n@ == "default"@),
            db@.wf(),
            db@.languages.dom().len() == 3,
            db@.categories.dom().len() == 1,
            db@.cards.dom().len() == 3,
            db@.translations.dom().len() == k,
            forall|id: i64|
                #[trigger] db@.categories.dom().contains(id) ==> db@.categories[id].len() == 1
                    && db@.categories[id][0] is Text,
            forall|id: i64|
                #[trigger] db@.languages.dom().contains(id) ==> db@.languages[id].len() == 2
                    && db@.languages[id][0] is Text && db@.languages[id][1] is Text,
            forall|id: i64|
                #[trigger] db@.cards.dom().contains(id) ==> db@.cards[id].len() == 1 && (
                db@.cards[id][0] matches Datum::Integer(cc) && db@.categories.dom().contains(
                    cc,
                )),
            forall|id: i64|
                #[trigger] db@.translations.dom().contains(id) ==> db@.translations[id].len() == 4
                    && (db@.translations[id][0] matches Datum::Integer(cc)
                    && db@.cards.dom().contains(cc)) && (db@.translations[id][1]
                    matches Datum::Integer(ll) && db@.languages.dom().contains(ll))
                    && db@.translations[id][2] is Text && db@.translations[id][3] is Text,
        decreases 9 - k,
    {
        let (card_id, language_id, text, description) = texts[k];
        match seed_translation(db, card_id, language_id, text, description) {
            Ok(_) => (),
            Err(e) => {
                return Err(e);
            },
        }
        k = k + 1;
    }
    Ok(())
}

/// Create a new database from scratch: the schema, then the fixture data.
pub fn initialise(db: &mut Db) -> (r: Result<(), DatabaseError>)
    ensures
        match r {
            Ok(_) => seeded(db_of(*final(db))),
            Err(e) => e is SQLiteError,
        },
{
    match init_schema(db) {
        Ok(_) => (),
        Err(e) => {
            return Err(e);
        },
    }
    match init_fixtures(db) {
        Ok(_) => (),
        Err(e) => {
            return Err(e);
        },
    }
    Ok(())
}

/// Get a database connection for the given file path.
///
/// The file must already exist: the provider never creates a database, that
/// is the bootstrap's task.  The caller resolves where the file is (an
/// environment override or a fixed default) before calling.
pub fn get_connection(db_path: &str) -> (r: Result<Db, DatabaseError>)
    ensures
        match r {
            Ok(c) => c@.wf(),
            Err(e) => {
                &&& (e is FileNotFound || e is SQLiteError)
                &&& (e matches DatabaseError::FileNotFound(p) ==> p@ == db_path@)
            },
        },
{
    if !file_exists(db_path) {
        return Err(DatabaseError::FileNotFound(db_path.to_owned()));
    }
    open_db(db_path)
}

} // verus!
