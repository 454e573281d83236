//! Model Translation.

use vstd::prelude::*;

use crate::database::{
    select_translation_row_for_card_language, select_translation_rows_for_card, DatabaseError, Db,
};
use crate::datum::Datum;
use crate::models::{int_column, read_int_column, read_text_column, text_column, Model};
use crate::schema::{head_id, may_equal_integer, DbState, Table};

verus! {

/// A flash card's translation.
#[derive(Debug, Clone)]
pub struct Translation {
    /// Identifier of the translation.
    pub id: i64,
    /// Card the translation belongs to.
    pub card_id: i64,
    /// Language the translation is made in.
    pub language_id: i64,
    /// The value of the translation.
    pub text: String,
    /// An optional description; empty means absent.
    pub description: String,
}

/// Whether `tids` lists, without duplicates, stored translations whose
/// `card_id` column can match the given card — among them every one whose
/// column is exactly that integer — and `items` holds their decodings.
pub open spec fn lists_card_translations(
    s: DbState,
    card_id: i64,
    tids: Seq<i64>,
    items: Seq<Translation>,
) -> bool {
    &&& tids.no_duplicates()
    &&& items.len() == tids.len()
    &&& forall|i: int|
        0 <= i < tids.len() ==> {
            &&& s.contains(Table::Translation, #[trigger] tids[i])
            &&& may_equal_integer(s.translations[tids[i]][0], card_id)
            &&& Translation::decode_spec(s.full_row(Table::Translation, tids[i])) == Ok::<
                Translation,
                DatabaseError,
            >(items[i])
        }
    &&& forall|tid: i64|
        #[trigger] s.contains(Table::Translation, tid) && s.translations[tid][0]
            == Datum::Integer(card_id) ==> tids.contains(tid)
}

/// Whether a translation is the blank placeholder for the given card and
/// language: no id yet, both references set, text and description empty.
pub open spec fn blank_for(t: Translation, card_id: i64, language_id: i64) -> bool {
    &&& t.id == 0
    &&& t.card_id == card_id
    &&& t.language_id == language_id
    &&& t.text@.len() == 0
    &&& t.description@.len() == 0
}

impl Translation {
    /// The stored columns of the translation's row, the id excepted.
    pub open spec fn row_values(self) -> Seq<Datum> {
        seq![
            Datum::Integer(self.card_id),
            Datum::Integer(self.language_id),
            Datum::Text(self.text),
            Datum::Text(self.description),
        ]
    }

    /// Load all translations for the given card, ordered by language.
    pub fn load_for_card(db: &Db, card_id: i64) -> (r: Result<Vec<Translation>, DatabaseError>)
        ensures
            match r {
                Ok(ts) => exists|tids: Seq<i64>|
                    {
                        &&& tids.no_duplicates()
                        &&& ts@.len() == tids.len()
                        &&& (forall|i: int|
                            0 <= i < tids.len() ==> {
                                &&& db@.contains(Table::Translation, #[trigger] tids[i])
                                &&& may_equal_integer(db@.translations[tids[i]][0], card_id)
                                &&& Translation::decode_spec(
                                    db@.full_row(Table::Translation, tids[i]),
                                ) == Ok::<Translation, DatabaseError>(ts@[i])
                            })
                        &&& (forall|tid: i64|
                            #[trigger] db@.contains(Table::Translation, tid)
                                && db@.translations[tid][0] == Datum::Integer(card_id)
                                ==> tids.contains(tid))
                    },
                Err(e) => {
                    ||| e is SQLiteError
                    ||| exists|tid: i64|
                        #[trigger] db@.contains(Table::Translation, tid)
                            && Translation::decode_spec(db@.full_row(Table::Translation, tid))
                            == Err::<Translation, DatabaseError>(e)
                },
            },
    {
        let id_rows = match select_translation_rows_for_card(db, card_id) {
            Ok(rows) => rows,
            Err(e) => {
                return Err(e);
            },
        };
        let mut translations: Vec<Translation> = Vec::new();
        let ghost mut tids: Seq<i64> = Seq::empty();
        let mut k: usize = 0;
        while k < id_rows.len()
            invariant
                k <= id_rows.len(),
                tids.len() == k,
                translations@.len() == k,
                forall|i: int| 0 <= i < k ==> tids[i] == head_id((#[trigger] id_rows@[i])@),
                forall|i: int|
                    0 <= i < k ==> {
                        &&& db@.contains(Table::Translation, #[trigger] tids[i])
                        &&& may_equal_integer(db@.translations[tids[i]][0], card_id)
                        &&& Translation::decode_spec(db@.full_row(Table::Translation, tids[i]))
                            == Ok::<Translation, DatabaseError>(translations@[i])
                    },
                forall|i: int|
                    0 <= i < id_rows@.len() ==> {
                        &&& (#[trigger] id_rows@[i])@ == seq![
                            Datum::Integer(head_id(id_rows@[i]@)),
                        ]
                        &&& db@.contains(Table::Translation, head_id(id_rows@[i]@))
                        &&& may_equal_integer(
                            db@.translations[head_id(id_rows@[i]@)][0],
                            card_id,
                        )
                    },
                forall|tid: i64|
                    #[trigger] db@.contains(Table::Translation, tid) && db@.translations[tid][0]
                        == Datum::Integer(card_id) ==> exists|i: int|
                        0 <= i < id_rows@.len() && head_id((#[trigger] id_rows@[i])@) == tid,
                forall|i: int, j: int|
                    0 <= i < j < id_rows@.len() ==> head_id((#[trigger] id_rows@[i])@) != head_id(
                        (#[trigger] id_rows@[j])@,
                    ),
            decreases id_rows@.len() - k,
        {
            let id = match read_int_column(&id_rows[k], 0) {
                Ok(id) => id,
                Err(e) => {
                    return Err(e);
                },
            };
            let translation = match Translation::load(db, id) {
                Ok(t) => t,
                Err(e) => {
                    return Err(e);
                },
            };
            translations.push(translation);
            proof {
                tids = tids.push(head_id(id_rows@[k as int]@));
            }
            k = k + 1;
        }
        proof {
            assert forall|tid: i64|
                #[trigger] db@.contains(Table::Translation, tid) && db@.translations[tid][0]
                    == Datum::Integer(card_id) implies tids.contains(tid) by {
                let i = choose|i: int|
                    0 <= i < id_rows@.len() && head_id((#[trigger] id_rows@[i])@) == tid;
                assert(tids[i] == tid);
            }
            assert forall|i: int, j: int|
                0 <= i < tids.len() && 0 <= j < tids.len() && i != j implies tids[i] != tids[j] by {
                if i < j {
                    assert(head_id((id_rows@[i])@) != head_id((id_rows@[j])@));
                } else {
                    assert(head_id((id_rows@[j])@) != head_id((id_rows@[i])@));
                }
            }
            assert(lists_card_translations(db@, card_id, tids, translations@));
        }
        Ok(translations)
    }

    /// Load the translation for the given card and language, or, when none
    /// is stored yet, a blank placeholder carrying the two ids — never
    /// `NotFound`.
    pub fn load_for_card_language(db: &Db, card_id: i64, language_id: i64) -> (r: Result<
        Translation,
        DatabaseError,
    >)
        ensures
            match r {
                Ok(t) => {
                    ||| exists|tid: i64|
                        {
                            &&& #[trigger] db@.contains(Table::Translation, tid)
                            &&& may_equal_integer(db@.translations[tid][0], card_id)
                            &&& may_equal_integer(db@.translations[tid][1], language_id)
                            &&& Translation::decode_spec(db@.full_row(Table::Translation, tid))
                                == Ok::<Translation, DatabaseError>(t)
                        }
                    ||| (blank_for(t, card_id, language_id) && forall|tid: i64|
                        #[trigger] db@.contains(Table::Translation, tid) ==> !(db@.translations[tid][0]
                            == Datum::Integer(card_id) && db@.translations[tid][1]
                            == Datum::Integer(language_id)))
                },
                Err(e) => {
                    ||| e is SQLiteError
                    ||| exists|tid: i64|
                        #[trigger] db@.contains(Table::Translation, tid)
                            && Translation::decode_spec(db@.full_row(Table::Translation, tid))
                            == Err::<Translation, DatabaseError>(e)
                },
            },
    {
        let mut translation = Translation::from_empty();
        translation.card_id = card_id;
        translation.language_id = language_id;
        match select_translation_row_for_card_language(db, card_id, language_id) {
            Ok(Some(row)) => Translation::from_row(&row),
            Ok(None) => Ok(translation),
            Err(e) => Err(e),
        }
    }

    /// Save the translation to the database: insert it when its id is `0`,
    /// adopting the assigned id, else update its row in place.
    pub fn save(&mut self, db: &mut Db) -> (r: Result<i64, DatabaseError>)
        ensures
            match r {
                Ok(rid) => {
                    &&& rid == final(self).id
                    &&& final(self).card_id == old(self).card_id
                    &&& final(self).language_id == old(self).language_id
                    &&& final(self).text == old(self).text
                    &&& final(self).description == old(self).description
                    &&& if old(self).id > 0 {
                        &&& final(self).id == old(self).id
                        &&& (if old(db)@.contains(Table::Translation, old(self).id) {
                            final(db)@ == old(db)@.with_rows(
                                Table::Translation,
                                old(db)@.translations.insert(
                                    old(self).id,
                                    old(self).row_values(),
                                ),
                            )
                        } else {
                            final(db)@ == old(db)@
                        })
                    } else {
                        &&& rid > 0
                        &&& !old(db)@.contains(Table::Translation, rid)
                        &&& final(db)@ == old(db)@.with_rows(
                            Table::Translation,
                            old(db)@.translations.insert(rid, old(self).row_values()),
                        )
                    }
                },
                Err(e) => {
                    &&& e is SQLiteError
                    &&& *final(self) == *old(self)
                    &&& final(db)@ == old(db)@
                },
            },
    {
        let mut values: Vec<Datum> = Vec::new();
        values.push(Datum::Integer(self.card_id));
        values.push(Datum::Integer(self.language_id));
        values.push(Datum::Text(self.text.clone()));
        values.push(Datum::Text(self.description.clone()));
        if self.id > 0 {
            values.push(Datum::Integer(self.id));
            proof {
                assert(values@.drop_last() =~= self.row_values());
            }
            match Translation::update(db, &values) {
                Ok(_) => Ok(self.id),
                Err(e) => Err(e),
            }
        } else {
            proof {
                assert(values@ =~= self.row_values());
            }
            match Translation::insert(db, &values) {
                Ok(id) => {
                    self.id = id;
                    Ok(id)
                },
                Err(e) => Err(e),
            }
        }
    }
}

impl Model for Translation {
    open spec fn table_spec() -> Table {
        Table::Translation
    }

    fn table() -> Table {
        Table::Translation
    }

    open spec fn decode_spec(row: Seq<Datum>) -> Result<Translation, DatabaseError> {
        match int_column(row, 0) {
            Ok(id) => match int_column(row, 1) {
                Ok(card_id) => match int_column(row, 2) {
                    Ok(language_id) => match text_column(row, 3) {
                        Ok(text) => match text_column(row, 4) {
                            Ok(description) => Ok(
                                Translation { id, card_id, language_id, text, description },
                            ),
                            Err(e) => Err(e),
                        },
                        Err(e) => Err(e),
                    },
                    Err(e) => Err(e),
                },
                Err(e) => Err(e),
            },
            Err(e) => Err(e),
        }
    }

    open spec fn blank(e: Translation) -> bool {
        &&& e.id == 0
        &&& e.card_id == 0
        &&& e.language_id == 0
        &&& e.text@.len() == 0
        &&& e.description@.len() == 0
    }

    fn from_empty() -> Translation {
        Translation {
            id: 0,
            card_id: 0,
            language_id: 0,
            text: String::new(),
            description: String::new(),
        }
    }

    fn from_row(row: &Vec<Datum>) -> (r: Result<Translation, DatabaseError>) {
        let id = match read_int_column(row, 0) {
            Ok(v) => v,
            Err(e) => {
                return Err(e);
            },
        };
        let card_id = match read_int_column(row, 1) {
            Ok(v) => v,
            Err(e) => {
                return Err(e);
            },
        };
        let language_id = match read_int_column(row, 2) {
            Ok(v) => v,
            Err(e) => {
                return Err(e);
            },
        };
        let text = match read_text_column(row, 3) {
            Ok(v) => v,
            Err(e) => {
                return Err(e);
            },
        };
        let description = match read_text_column(row, 4) {
            Ok(v) => v,
            Err(e) => {
                return Err(e);
            },
        };
        Ok(Translation { id, card_id, language_id, text, description })
    }
}

} // verus!
