//! The record-mapper contract shared by the four entity types.
//!
//! Every entity implements [`Model`]: how its rows decode, what its blank
//! value is, and which table it lives in.  The four CRUD operations —
//! insert, load by id, load all, update, delete — are provided once, here,
//! against the trusted statement wrappers of
//! [`database`](crate::database).

use vstd::prelude::*;

use crate::database::{
    exec_delete, exec_insert, exec_update, select_all_rows, select_row_by_id, DatabaseError, Db,
};
use crate::datum::Datum;
use crate::schema::{head_id, values_match, Table};

pub mod card;
pub mod category;
pub mod language;
pub mod translation;

verus! {

/// What reading an integer column yields: the integer, or
/// `ValueNotInteger` when the column is absent or holds something else.
pub open spec fn int_column(row: Seq<Datum>, i: int) -> Result<i64, DatabaseError> {
    if 0 <= i < row.len() && row[i] is Integer {
        Ok(row[i]->Integer_0)
    } else {
        Err(DatabaseError::ValueNotInteger)
    }
}

/// What reading a text column yields: the text, or `ValueNotString` when
/// the column is absent or holds something else.
pub open spec fn text_column(row: Seq<Datum>, i: int) -> Result<String, DatabaseError> {
    if 0 <= i < row.len() && row[i] is Text {
        Ok(row[i]->Text_0)
    } else {
        Err(DatabaseError::ValueNotString)
    }
}

/// Read one integer column of a row, type-checking it.
pub fn read_int_column(row: &Vec<Datum>, i: usize) -> (r: Result<i64, DatabaseError>)
    ensures
        r == int_column(row@, i as int),
{
    if i < row.len() {
        match row[i].as_integer() {
            Some(v) => Ok(v),
            None => Err(DatabaseError::ValueNotInteger),
        }
    } else {
        Err(DatabaseError::ValueNotInteger)
    }
}

/// Read one text column of a row, type-checking it.
pub fn read_text_column(row: &Vec<Datum>, i: usize) -> (r: Result<String, DatabaseError>)
    ensures
        r == text_column(row@, i as int),
{
    if i < row.len() {
        match row[i].as_string() {
            Some(s) => Ok(s.clone()),
            None => Err(DatabaseError::ValueNotString),
        }
    } else {
        Err(DatabaseError::ValueNotString)
    }
}

/// A (database) model: a record type stored as the rows of one table.
pub trait Model: Sized {
    /// The table the records are stored in.
    spec fn table_spec() -> Table;

    /// The table the records are stored in.
    fn table() -> (t: Table)
        ensures
            t == Self::table_spec(),
    ;

    /// What decoding a full row (id first, stored columns after) yields:
    /// the record, or the first column's type error.
    spec fn decode_spec(row: Seq<Datum>) -> Result<Self, DatabaseError>;

    /// Whether a record is the 'empty' one: id zero, every string empty.
    spec fn blank(e: Self) -> bool;

    /// Instantiate an 'empty' record: all fields properly initialised.
    fn from_empty() -> (e: Self)
        ensures
            Self::blank(e),
    ;

    /// Instantiate a record from the given row, type-checking each column.
    fn from_row(row: &Vec<Datum>) -> (r: Result<Self, DatabaseError>)
        ensures
            r == Self::decode_spec(row@),
    ;

    /// Insert a record's values into the database, returning the assigned
    /// id.  The values must correspond to the table's insert statement.
    fn insert(db: &mut Db, values: &Vec<Datum>) -> (r: Result<i64, DatabaseError>)
        requires
            values_match(Self::table_spec().column_types(), values@),
        ensures
            match r {
                Ok(id) => {
                    &&& id > 0
                    &&& !old(db)@.contains(Self::table_spec(), id)
                    &&& final(db)@ == old(db)@.with_rows(
                        Self::table_spec(),
                        old(db)@.rows(Self::table_spec()).insert(id, values@),
                    )
                },
                Err(e) => e is SQLiteError && final(db)@ == old(db)@,
            },
    {
        exec_insert(db, Self::table(), values)
    }

    /// Load one record from the database by id.
    ///
    /// Related records are not loaded automatically.  A missing row is
    /// `NotFound`; a present row that does not decode gives its type error.
    fn load(db: &Db, id: i64) -> (r: Result<Self, DatabaseError>)
        ensures
            ({
                let t = Self::table_spec();
                match r {
                    Ok(item) => db@.contains(t, id) && Self::decode_spec(db@.full_row(t, id))
                        == Ok::<Self, DatabaseError>(item),
                    Err(e) => {
                        ||| e is SQLiteError
                        ||| (e is NotFound && !db@.contains(t, id))
                        ||| (db@.contains(t, id) && Self::decode_spec(db@.full_row(t, id))
                            == Err::<Self, DatabaseError>(e))
                    },
                }
            }),
    {
        match select_row_by_id(db, Self::table(), id) {
            Ok(Some(row)) => Self::from_row(&row),
            Ok(None) => Err(DatabaseError::NotFound),
            Err(e) => Err(e),
        }
    }

    /// Load all records from the database, in the statement's order.
    ///
    /// Related records are not loaded automatically.  On success there is a
    /// duplicate-free list of ids, one per stored row and covering them
    /// all, whose rows decode to the produced records in order; for the
    /// tables whose statement orders by id, the ids ascend.
    fn load_all(db: &Db) -> (r: Result<Vec<Self>, DatabaseError>)
        ensures
            match r {
                Ok(items) => exists|ids: Seq<i64>|
                    {
                        &&& ids.no_duplicates()
                        &&& items@.len() == ids.len()
                        &&& (forall|i: int|
                            0 <= i < ids.len() ==> db@.contains(
                                Self::table_spec(),
                                #[trigger] ids[i],
                            ) && Self::decode_spec(db@.full_row(Self::table_spec(), ids[i]))
                                == Ok::<Self, DatabaseError>(items@[i]))
                        &&& (forall|id: i64|
                            #[trigger] db@.contains(Self::table_spec(), id) ==> ids.contains(id))
                        &&& (Self::table_spec().ordered_by_id() ==> forall|i: int, j: int|
                            0 <= i < j < ids.len() ==> ids[i] < ids[j])
                    },
                Err(e) => {
                    ||| e is SQLiteError
                    ||| exists|id: i64|
                        #[trigger] db@.contains(Self::table_spec(), id) && Self::decode_spec(
                            db@.full_row(Self::table_spec(), id),
                        ) == Err::<Self, DatabaseError>(e)
                },
            },
    {
        let rows = match select_all_rows(db, Self::table()) {
            Ok(rows) => rows,
            Err(e) => return Err(e),
        };
        let mut items: Vec<Self> = Vec::new();
        let ghost mut ids: Seq<i64> = Seq::empty();
        let mut k: usize = 0;
        while k < rows.len()
            invariant
                k <= rows.len(),
                ids.len() == k,
                items@.len() == k,
                forall|i: int| 0 <= i < k ==> ids[i] == head_id((#[trigger] rows@[i])@),
                forall|i: int|
                    0 <= i < k ==> db@.contains(Self::table_spec(), #[trigger] ids[i])
                        && Self::decode_spec(db@.full_row(Self::table_spec(), ids[i]))
                        == Ok::<Self, DatabaseError>(items@[i]),
                forall|i: int|
                    0 <= i < rows@.len() ==> {
                        &&& (#[trigger] rows@[i])@.len() >= 1
                        &&& rows@[i]@[0] == Datum::Integer(head_id(rows@[i]@))
                        &&& db@.contains(Self::table_spec(), head_id(rows@[i]@))
                        &&& rows@[i]@ == db@.full_row(Self::table_spec(), head_id(rows@[i]@))
                    },
                forall|id: i64|
                    #[trigger] db@.contains(Self::table_spec(), id) ==> exists|i: int|
                        0 <= i < rows@.len() && head_id((#[trigger] rows@[i])@) == id,
                forall|i: int, j: int|
                    0 <= i < j < rows@.len() ==> head_id((#[trigger] rows@[i])@) != head_id(
                        (#[trigger] rows@[j])@,
                    ),
                Self::table_spec().ordered_by_id() ==> forall|i: int, j: int|
                    0 <= i < j < rows@.len() ==> head_id((#[trigger] rows@[i])@) < head_id(
                        (#[trigger] rows@[j])@,
                    ),
            decreases rows@.len() - k,
        {
            let item = match Self::from_row(&rows[k]) {
                Ok(item) => item,
                Err(e) => {
                    proof {
                        let tid = head_id(rows@[k as int]@);
                        assert(db@.contains(Self::table_spec(), tid) && Self::decode_spec(
                            db@.full_row(Self::table_spec(), tid),
                        ) == Err::<Self, DatabaseError>(e));
                    }
                    return Err(e);
                },
            };
            items.push(item);
            proof {
                ids = ids.push(head_id(rows@[k as int]@));
            }
            k = k + 1;
        }
        proof {
            assert forall|id: i64| #[trigger] db@.contains(Self::table_spec(), id) implies ids
                .contains(id) by {
                let i = choose|i: int|
                    0 <= i < rows@.len() && head_id((#[trigger] rows@[i])@) == id;
                assert(ids[i] == id);
            }
            assert forall|i: int, j: int|
                0 <= i < ids.len() && 0 <= j < ids.len() && i != j implies ids[i] != ids[j] by {
                if i < j {
                    assert(head_id((rows@[i])@) != head_id((rows@[j])@));
                } else {
                    assert(head_id((rows@[j])@) != head_id((rows@[i])@));
                }
            }
            assert(ids.no_duplicates());
        }
        Ok(items)
    }

    /// Update an existing record in the database.  The values must
    /// correspond to the table's update statement: the new column values
    /// first, the record's id last.
    fn update(db: &mut Db, values: &Vec<Datum>) -> (r: Result<bool, DatabaseError>)
        requires
            values@.len() >= 1,
            values_match(Self::table_spec().column_types(), values@.drop_last()),
            values@.last() is Integer,
        ensures
            match r {
                Ok(b) => {
                    &&& b == true
                    &&& (values@.last() matches Datum::Integer(id) ==> {
                        if old(db)@.contains(Self::table_spec(), id) {
                            final(db)@ == old(db)@.with_rows(
                                Self::table_spec(),
                                old(db)@.rows(Self::table_spec()).insert(
                                    id,
                                    values@.drop_last(),
                                ),
                            )
                        } else {
                            final(db)@ == old(db)@
                        }
                    })
                },
                Err(e) => e is SQLiteError && final(db)@ == old(db)@,
            },
    {
        exec_update(db, Self::table(), values)
    }

    /// Delete one record from the database by id.  Succeeds whether or not
    /// a row with that id existed.
    fn delete(db: &mut Db, id: i64) -> (r: Result<bool, DatabaseError>)
        ensures
            match r {
                Ok(b) => b == true && final(db)@ == old(db)@.with_rows(
                    Self::table_spec(),
                    old(db)@.rows(Self::table_spec()).remove(id),
                ),
                Err(e) => e is SQLiteError && final(db)@ == old(db)@,
            },
    {
        exec_delete(db, Self::table(), id)
    }
}

} // verus!
