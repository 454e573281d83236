//! The four-table relational layout and a ghost model of its contents.

use vstd::prelude::*;

use crate::datum::Datum;

verus! {

/// One of the four tables of the schema.
#[derive(Debug, Clone, Copy, PartialEq, Eq, Structural)]
pub enum Table {
    Category,
    Language,
    Card,
    Translation,
}

/// The declared type of one column.
#[derive(Debug, Clone, Copy, PartialEq, Eq, Structural)]
pub enum ColumnType {
    /// An `INTEGER` column.
    Int,
    /// A `TEXT` column.
    Text,
}

impl ColumnType {
    /// Whether a value may be bound to a column of this type without the
    /// storage engine converting it: the value is of the declared type, or
    /// `NULL`, which every column accepts unchanged.
    pub open spec fn accepts(self, v: Datum) -> bool {
        match v {
            Datum::Integer(_) => self is Int,
            Datum::Text(_) => self is Text,
            Datum::Null => true,
        }
    }
}

/// Whether a row of values fits a column layout, so that binding the values
/// stores them exactly as given.
pub open spec fn values_match(types: Seq<ColumnType>, vs: Seq<Datum>) -> bool {
    &&& vs.len() == types.len()
    &&& forall|i: int| 0 <= i < vs.len() ==> types[i].accepts(#[trigger] vs[i])
}

/// Whether a stored value can satisfy an `INTEGER`-affinity comparison with
/// the given integer: either it is that integer, or it is text, which the
/// engine may coerce numerically before comparing.
pub open spec fn may_equal_integer(v: Datum, i: i64) -> bool {
    v == Datum::Integer(i) || v is Text
}

/// The id at the head of a full row, as `SELECT id, ...` produces it.
pub open spec fn head_id(row: Seq<Datum>) -> i64 {
    row[0]->Integer_0
}

impl Table {
    /// The table's name in SQL.
    pub fn name(&self) -> &'static str {
        match self {
            Table::Category => "category",
            Table::Language => "language",
            Table::Card => "card",
            Table::Translation => "translation",
        }
    }

    /// The declared types of the table's columns, the id column excepted.
    pub open spec fn column_types(self) -> Seq<ColumnType> {
        match self {
            Table::Category => seq![ColumnType::Text],
            Table::Language => seq![ColumnType::Text, ColumnType::Text],
            Table::Card => seq![ColumnType::Int],
            Table::Translation => seq![
                ColumnType::Int,
                ColumnType::Int,
                ColumnType::Text,
                ColumnType::Text,
            ],
        }
    }

    /// Whether `SELECT`-all rows come back ordered by id (cards and
    /// translations); categories and languages come back ordered by name.
    pub open spec fn ordered_by_id(self) -> bool {
        self is Card || self is Translation
    }

    /// SQL statement to insert one row, the id assigned by the engine.
    pub fn insert_sql(&self) -> &'static str {
        match self {
            Table::Category => "INSERT INTO category (name) VALUES (?)",
            Table::Language => "INSERT INTO language (code, name) VALUES (?, ?)",
            Table::Card => "INSERT INTO card (category_id) VALUES (?)",
            Table::Translation => {
                "INSERT INTO translation (card_id, language_id, text, description) \
                 VALUES (?, ?, ?, ?)"
            },
        }
    }

    /// SQL statement to load one row by id.
    pub fn select_sql(&self) -> &'static str {
        match self {
            Table::Category => "SELECT id, name FROM category WHERE id = ?",
            Table::Language => "SELECT id, code, name FROM language WHERE id = ?",
            Table::Card => "SELECT id, category_id FROM card WHERE id = ?",
            Table::Translation => {
                "SELECT id, card_id, language_id, text, description \
                 FROM translation WHERE id = ?"
            },
        }
    }

    /// SQL statement to load every row.
    pub fn select_all_sql(&self) -> &'static str {
        match self {
            Table::Category => "SELECT id, name FROM category ORDER BY name",
            Table::Language => "SELECT id, code, name FROM language ORDER BY name",
            Table::Card => "SELECT id, category_id FROM card ORDER BY id",
            Table::Translation => {
                "SELECT id, card_id, language_id, text, description \
                 FROM translation ORDER BY id"
            },
        }
    }

    /// SQL statement to update one row; the last bound value is the id.
    pub fn update_sql(&self) -> &'static str {
        match self {
            Table::Category => "UPDATE category SET name = ? WHERE id = ?",
            Table::Language => "UPDATE language SET code = ?, name = ? WHERE id = ?",
            Table::Card => "UPDATE card SET category_id = ? WHERE id = ?",
            Table::Translation => {
                "UPDATE translation SET card_id = ?, language_id = ?, \
                 text = ?, description = ? WHERE id = ?"
            },
        }
    }

    /// SQL statements to drop the table and create it afresh.
    pub fn create_sql(&self) -> &'static str {
        match self {
            Table::Category => {
                "DROP TABLE IF EXISTS category; \
                 CREATE TABLE category ( \
                     id INTEGER NOT NULL PRIMARY KEY, \
                     name TEXT \
                 );"
            },
            Table::Language => {
                "DROP TABLE IF EXISTS language; \
                 CREATE TABLE language ( \
                     id INTEGER NOT NULL PRIMARY KEY, \
                     code TEXT, \
                     name TEXT \
                 );"
            },
            Table::Card => {
                "DROP TABLE IF EXISTS card; \
                 CREATE TABLE card ( \
                     id INTEGER NOT NULL PRIMARY KEY, \
                     category_id INTEGER, \
                     FOREIGN KEY (category_id) REFERENCES category (id) \
                 );"
            },
            Table::Translation => {
                "DROP TABLE IF EXISTS translation; \
                 CREATE TABLE translation ( \
                     id INTEGER NOT NULL PRIMARY KEY, \
                     card_id INTEGER, \
                     language_id INTEGER, \
                     text TEXT, \
                     description TEXT, \
                     FOREIGN KEY (card_id) REFERENCES card (id), \
                     FOREIGN KEY (language_id) REFERENCES language (id) \
                 );"
            },
        }
    }
}

/// The contents of the database, one map per table, keyed by the row's id.
/// A stored row holds the columns after the id, in declaration order.
#[verifier::ext_equal]
pub ghost struct DbState {
    pub categories: Map<i64, Seq<Datum>>,
    pub languages: Map<i64, Seq<Datum>>,
    pub cards: Map<i64, Seq<Datum>>,
    pub translations: Map<i64, Seq<Datum>>,
}

impl DbState {
    /// The rows of one table.
    pub open spec fn rows(self, t: Table) -> Map<i64, Seq<Datum>> {
        match t {
            Table::Category => self.categories,
            Table::Language => self.languages,
            Table::Card => self.cards,
            Table::Translation => self.translations,
        }
    }

    /// The state with one table replaced, the others kept.
    pub open spec fn with_rows(self, t: Table, m: Map<i64, Seq<Datum>>) -> DbState {
        match t {
            Table::Category => DbState { categories: m, ..self },
            Table::Language => DbState { languages: m, ..self },
            Table::Card => DbState { cards: m, ..self },
            Table::Translation => DbState { translations: m, ..self },
        }
    }

    /// Whether a table holds a row with the given id.
    pub open spec fn contains(self, t: Table, id: i64) -> bool {
        self.rows(t).dom().contains(id)
    }

    /// The full row as a `SELECT` by id produces it: the id first, then the
    /// stored columns.
    pub open spec fn full_row(self, t: Table, id: i64) -> Seq<Datum> {
        seq![Datum::Integer(id)] + self.rows(t)[id]
    }

    /// Every table holds finitely many rows.
    pub open spec fn wf(self) -> bool {
        &&& self.categories.dom().finite()
        &&& self.languages.dom().finite()
        &&& self.cards.dom().finite()
        &&& self.translations.dom().finite()
    }

    /// The state of a database whose tables are all empty.
    pub open spec fn empty() -> DbState {
        DbState {
            categories: Map::empty(),
            languages: Map::empty(),
            cards: Map::empty(),
            translations: Map::empty(),
        }
    }
}

} // verus!
