//! Model Language.

use vstd::prelude::*;

use crate::database::{DatabaseError, Db};
use crate::datum::Datum;
use crate::models::{int_column, read_int_column, read_text_column, text_column, Model};
use crate::schema::Table;

verus! {

/// The language of a flash card translation.
#[derive(Debug, Clone)]
pub struct Language {
    /// Identifier of the language.
    pub id: i64,
    /// Two-letter code of the language.
    pub code: String,
    /// Name of the language.
    pub name: String,
}

impl Language {
    /// The stored columns of the language's row, the id excepted.
    pub open spec fn row_values(self) -> Seq<Datum> {
        seq![Datum::Text(self.code), Datum::Text(self.name)]
    }

    /// Save the language to the database: insert it when its id is `0`,
    /// adopting the assigned id, else update its row in place.
    pub fn save(&mut self, db: &mut Db) -> (r: Result<i64, DatabaseError>)
        ensures
            match r {
                Ok(rid) => {
                    &&& rid == final(self).id
                    &&& final(self).code == old(self).code
                    &&& final(self).name == old(self).name
                    &&& if old(self).id > 0 {
                        &&& final(self).id == old(self).id
                        &&& (if old(db)@.contains(Table::Language, old(self).id) {
                            final(db)@ == old(db)@.with_rows(
                                Table::Language,
                                old(db)@.languages.insert(old(self).id, old(self).row_values()),
                            )
                        } else {
                            final(db)@ == old(db)@
                        })
                    } else {
                        &&& rid > 0
                        &&& !old(db)@.contains(Table::Language, rid)
                        &&& final(db)@ == old(db)@.with_rows(
                            Table::Language,
                            old(db)@.languages.insert(rid, old(self).row_values()),
                        )
                    }
                },
                Err(e) => {
                    &&& e is SQLiteError
                    &&& *final(self) == *old(self)
                    &&& final(db)@ == old(db)@
                },
            },
    {
        let mut values: Vec<Datum> = Vec::new();
        values.push(Datum::Text(self.code.clone()));
        values.push(Datum::Text(self.name.clone()));
        if self.id > 0 {
            values.push(Datum::Integer(self.id));
            proof {
                assert(values@.drop_last() =~= self.row_values());
            }
            match Language::update(db, &values) {
                Ok(_) => Ok(self.id),
                Err(e) => Err(e),
            }
        } else {
            proof {
                assert(values@ =~= self.row_values());
            }
            match Language::insert(db, &values) {
                Ok(id) => {
                    self.id = id;
                    Ok(id)
                },
                Err(e) => Err(e),
            }
        }
    }
}

impl Model for Language {
    open spec fn table_spec() -> Table {
        Table::Language
    }

    fn table() -> Table {
        Table::Language
    }

    open spec fn decode_spec(row: Seq<Datum>) -> Result<Language, DatabaseError> {
        match int_column(row, 0) {
            Ok(id) => match text_column(row, 1) {
                Ok(code) => match text_column(row, 2) {
                    Ok(name) => Ok(Language { id, code, name }),
                    Err(e) => Err(e),
                },
                Err(e) => Err(e),
            },
            Err(e) => Err(e),
        }
    }

    open spec fn blank(e: Language) -> bool {
        e.id == 0 && e.code@.len() == 0 && e.name@.len() == 0
    }

    fn from_empty() -> Language {
        Language { id: 0, code: String::new(), name: String::new() }
    }

    fn from_row(row: &Vec<Datum>) -> (r: Result<Language, DatabaseError>) {
        let id = match read_int_column(row, 0) {
            Ok(v) => v,
            Err(e) => {
                return Err(e);
            },
        };
        let code = match read_text_column(row, 1) {
            Ok(v) => v,
            Err(e) => {
                return Err(e);
            },
        };
        let name = match read_text_column(row, 2) {
            Ok(v) => v,
            Err(e) => {
                return Err(e);
            },
        };
        Ok(Language { id, code, name })
    }
}

} // verus!
