//! Cards and translations joined with the rows they reference.
//!
//! [`models`](crate::models) loads each table on its own; here a card is
//! loaded together with its resolved category and its translations, each
//! translation with its resolved language — the shape the reader of a flash
//! card needs.

use vstd::prelude::*;

use crate::database::{select_random_card_row, DatabaseError, Db};
use crate::datum::Datum;
use crate::models::card::Card as CardRecord;
use crate::models::category::Category;
use crate::models::language::Language;
use crate::models::translation::Translation as TranslationRecord;
use crate::models::{read_int_column, Model};
use crate::schema::{may_equal_integer, DbState, Table};

verus! {

/// A flash card's translation, its language resolved.
#[derive(Debug, Clone)]
pub struct Translation {
    /// Identifier of the translation.
    pub id: i64,
    /// Language the translation is made in.
    pub language: Language,
    /// The value of the translation.
    pub text: String,
    /// An optional description; empty means absent.
    pub description: String,
}

/// A flash card, its category and translations resolved.
#[derive(Debug, Clone)]
pub struct Card {
    /// Identifier of the card.
    pub id: i64,
    /// Category of the card.
    pub category: Category,
    /// Translations for the card.
    pub translations: Vec<Translation>,
}

/// Whether the joined translation is the stored translation row `tid`
/// together with the language row it references.
pub open spec fn translation_resolves(s: DbState, tid: i64, jt: Translation) -> bool {
    match TranslationRecord::decode_spec(s.full_row(Table::Translation, tid)) {
        Ok(mt) => {
            &&& jt.id == mt.id
            &&& jt.text == mt.text
            &&& jt.description == mt.description
            &&& s.contains(Table::Language, mt.language_id)
            &&& Language::decode_spec(s.full_row(Table::Language, mt.language_id)) == Ok::<
                Language,
                DatabaseError,
            >(jt.language)
        },
        Err(_) => false,
    }
}

/// Whether `tids` lists, without duplicates, stored translations whose
/// `card_id` column can match the given card — among them every one whose
/// column is exactly that integer — and `ts` resolves them in order.
pub open spec fn translations_resolve(
    s: DbState,
    card_id: i64,
    tids: Seq<i64>,
    ts: Seq<Translation>,
) -> bool {
    &&& tids.no_duplicates()
    &&& ts.len() == tids.len()
    &&& forall|i: int|
        0 <= i < tids.len() ==> {
            &&& s.contains(Table::Translation, #[trigger] tids[i])
            &&& may_equal_integer(s.translations[tids[i]][0], card_id)
            &&& translation_resolves(s, tids[i], ts[i])
        }
    &&& forall|tid: i64|
        #[trigger] s.contains(Table::Translation, tid) && s.translations[tid][0]
            == Datum::Integer(card_id) ==> tids.contains(tid)
}

/// Whether the joined card is the stored card row `cid` together with the
/// category row it references and the card's resolved translations.
pub open spec fn card_resolves(s: DbState, cid: i64, jc: Card) -> bool {
    &&& s.contains(Table::Card, cid)
    &&& match CardRecord::decode_spec(s.full_row(Table::Card, cid)) {
        Ok(mc) => {
            &&& jc.id == mc.id
            &&& s.contains(Table::Category, mc.category_id)
            &&& Category::decode_spec(s.full_row(Table::Category, mc.category_id)) == Ok::<
                Category,
                DatabaseError,
            >(jc.category)
            &&& exists|tids: Seq<i64>|
                translations_resolve(s, mc.id, tids, jc.translations@)
        },
        Err(_) => false,
    }
}

/// The errors a joined load can surface: an engine failure, a row of one
/// of the tables that does not decode, or a stored reference that does not
/// resolve (`NotFound`).
pub open spec fn join_error(s: DbState, e: DatabaseError) -> bool {
    ||| e is SQLiteError
    ||| exists|id: i64|
        #[trigger] s.contains(Table::Card, id) && CardRecord::decode_spec(
            s.full_row(Table::Card, id),
        ) == Err::<CardRecord, DatabaseError>(e)
    ||| exists|id: i64|
        #[trigger] s.contains(Table::Category, id) && Category::decode_spec(
            s.full_row(Table::Category, id),
        ) == Err::<Category, DatabaseError>(e)
    ||| exists|id: i64|
        #[trigger] s.contains(Table::Translation, id) && TranslationRecord::decode_spec(
            s.full_row(Table::Translation, id),
        ) == Err::<TranslationRecord, DatabaseError>(e)
    ||| exists|id: i64|
        #[trigger] s.contains(Table::Language, id) && Language::decode_spec(
            s.full_row(Table::Language, id),
        ) == Err::<Language, DatabaseError>(e)
    ||| (e is NotFound && has_dangling_reference(s))
}

/// Whether some stored card or translation references a row that is not
/// there: a schema-integrity breach, surfaced as `NotFound`.
pub open spec fn has_dangling_reference(s: DbState) -> bool {
    ||| exists|id: i64|
        #[trigger] s.contains(Table::Card, id) && (match CardRecord::decode_spec(
            s.full_row(Table::Card, id),
        ) {
            Ok(mc) => !s.contains(Table::Category, mc.category_id),
            Err(_) => false,
        })
    ||| exists|tid: i64|
        #[trigger] s.contains(Table::Translation, tid) && (match TranslationRecord::decode_spec(
            s.full_row(Table::Translation, tid),
        ) {
            Ok(mt) => !s.contains(Table::Language, mt.language_id),
            Err(_) => false,
        })
}

impl Translation {
    /// Insert a translation in the given language for the given card,
    /// returning the assigned id.
    pub fn add(
        db: &mut Db,
        card_id: i64,
        language_id: i64,
        text: &str,
        description: &str,
    ) -> (r: Result<i64, DatabaseError>)
        ensures
            match r {
                Ok(id) => {
                    &&& id > 0
                    &&& !old(db)@.contains(Table::Translation, id)
                    &&& final(db)@ == old(db)@.with_rows(
                        Table::Translation,
                        old(db)@.translations.insert(id, final(db)@.translations[id]),
                    )
                    &&& final(db)@.translations[id].len() == 4
                    &&& final(db)@.translations[id][0] == Datum::Integer(card_id)
                    &&& final(db)@.translations[id][1] == Datum::Integer(language_id)
                    &&& (final(db)@.translations[id][2] matches Datum::Text(t) && t@ == text@)
                    &&& (final(db)@.translations[id][3] matches Datum::Text(d) && d@
                        == description@)
                },
                Err(e) => e is SQLiteError && final(db)@ == old(db)@,
            },
    {
        let mut translation = TranslationRecord {
            id: 0,
            card_id,
            language_id,
            text: String::from_str(text),
            description: String::from_str(description),
        };
        translation.save(db)
    }

    /// Load all translations for the given card, each with its language
    /// resolved.
    pub fn get_all(db: &Db, card_id: i64) -> (r: Result<Vec<Translation>, DatabaseError>)
        ensures
            r matches Ok(ts) ==> exists|tids: Seq<i64>|
                {
                    &&& tids.no_duplicates()
                    &&& ts@.len() == tids.len()
                    &&& (forall|i: int|
                        0 <= i < tids.len() ==> {
                            &&& db@.contains(Table::Translation, #[trigger] tids[i])
                            &&& may_equal_integer(db@.translations[tids[i]][0], card_id)
                            &&& translation_resolves(db@, tids[i], ts@[i])
                        })
                    &&& (forall|tid: i64|
                        #[trigger] db@.contains(Table::Translation, tid)
                            && db@.translations[tid][0] == Datum::Integer(card_id)
                            ==> tids.contains(tid))
                },
            r matches Err(e) ==> join_error(db@, e),
    {
        let records = match TranslationRecord::load_for_card(db, card_id) {
            Ok(records) => records,
            Err(e) => {
                return Err(e);
            },
        };
        let ghost tids: Seq<i64> = choose|tids: Seq<i64>|
            {
                &&& tids.no_duplicates()
                &&& records@.len() == tids.len()
                &&& (forall|i: int|
                    0 <= i < tids.len() ==> {
                        &&& db@.contains(Table::Translation, #[trigger] tids[i])
                        &&& may_equal_integer(db@.translations[tids[i]][0], card_id)
                        &&& TranslationRecord::decode_spec(
                            db@.full_row(Table::Translation, tids[i]),
                        ) == Ok::<TranslationRecord, DatabaseError>(records@[i])
                    })
                &&& (forall|tid: i64|
                    #[trigger] db@.contains(Table::Translation, tid) && db@.translations[tid][0]
                        == Datum::Integer(card_id) ==> tids.contains(tid))
            };
        let mut translations: Vec<Translation> = Vec::new();
        let mut k: usize = 0;
        while k < records.len()
            invariant
                k <= records.len(),
                translations@.len() == k,
                tids.no_duplicates(),
                records@.len() == tids.len(),
                forall|i: int|
                    0 <= i < tids.len() ==> {
                        &&& db@.contains(Table::Translation, #[trigger] tids[i])
                        &&& may_equal_integer(db@.translations[tids[i]][0], card_id)
                        &&& TranslationRecord::decode_spec(
                            db@.full_row(Table::Translation, tids[i]),
                        ) == Ok::<TranslationRecord, DatabaseError>(records@[i])
                    },
                forall|tid: i64|
                    #[trigger] db@.contains(Table::Translation, tid) && db@.translations[tid][0]
                        == Datum::Integer(card_id) ==> tids.contains(tid),
                forall|i: int| 0 <= i < k ==> translation_resolves(db@, tids[i], translations@[i]),
            decreases records@.len() - k,
        {
            let record = &records[k];
            let language = match Language::load(db, record.language_id) {
                Ok(l) => l,
                Err(e) => {
                    proof {
                        let tid = tids[k as int];
                        assert(db@.contains(Table::Translation, tid)
                            && TranslationRecord::decode_spec(
                            db@.full_row(Table::Translation, tid),
                        ) == Ok::<TranslationRecord, DatabaseError>(records@[k as int]));
                    }
                    return Err(e);
                },
            };
            let text = record.text.clone();
            let description = record.description.clone();
            translations.push(Translation { id: record.id, language, text, description });
            k = k + 1;
        }
        proof {
            assert(translations_resolve(db@, card_id, tids, translations@));
        }
        Ok(translations)
    }
}

impl Card {
    /// Insert a flash card for the given category, returning the assigned
    /// id.
    pub fn add(db: &mut Db, category_id: i64) -> (r: Result<i64, DatabaseError>)
        ensures
            match r {
                Ok(id) => {
                    &&& id > 0
                    &&& !old(db)@.contains(Table::Card, id)
                    &&& final(db)@ == old(db)@.with_rows(
                        Table::Card,
                        old(db)@.cards.insert(id, seq![Datum::Integer(category_id)]),
                    )
                },
                Err(e) => e is SQLiteError && final(db)@ == old(db)@,
            },
    {
        let mut card = CardRecord { id: 0, category_id };
        card.save(db)
    }

    /// Load all cards, each with its category and translations resolved,
    /// ordered by id.
    pub fn get_all(db: &Db) -> (r: Result<Vec<Card>, DatabaseError>)
        ensures
            match r {
                Ok(cards) => exists|cids: Seq<i64>|
                    {
                        &&& cids.no_duplicates()
                        &&& cards@.len() == cids.len()
                        &&& (forall|i: int|
                            0 <= i < cids.len() ==> card_resolves(
                                db@,
                                #[trigger] cids[i],
                                cards@[i],
                            ))
                        &&& (forall|id: i64|
                            #[trigger] db@.contains(Table::Card, id) ==> cids.contains(id))
                        &&& (forall|i: int, j: int|
                            0 <= i < j < cids.len() ==> cids[i] < cids[j])
                    },
                Err(e) => join_error(db@, e),
            },
    {
        let records = match CardRecord::load_all(db) {
            Ok(records) => records,
            Err(e) => {
                return Err(e);
            },
        };
        let ghost cids: Seq<i64> = choose|ids: Seq<i64>|
            {
                &&& ids.no_duplicates()
                &&& records@.len() == ids.len()
                &&& (forall|i: int|
                    0 <= i < ids.len() ==> db@.contains(Table::Card, #[trigger] ids[i])
                        && CardRecord::decode_spec(db@.full_row(Table::Card, ids[i])) == Ok::<
                        CardRecord,
                        DatabaseError,
                    >(records@[i]))
                &&& (forall|id: i64|
                    #[trigger] db@.contains(Table::Card, id) ==> ids.contains(id))
                &&& (Table::Card.ordered_by_id() ==> forall|i: int, j: int|
                    0 <= i < j < ids.len() ==> ids[i] < ids[j])
            };
        let mut cards: Vec<Card> = Vec::new();
        let mut k: usize = 0;
        while k < records.len()
            invariant
                k <= records.len(),
                cards@.len() == k,
                cids.no_duplicates(),
                records@.len() == cids.len(),
                forall|i: int|
                    0 <= i < cids.len() ==> db@.contains(Table::Card, #[trigger] cids[i])
                        && CardRecord::decode_spec(db@.full_row(Table::Card, cids[i])) == Ok::<
                        CardRecord,
                        DatabaseError,
                    >(records@[i]),
                forall|id: i64| #[trigger] db@.contains(Table::Card, id) ==> cids.contains(id),
                forall|i: int, j: int| 0 <= i < j < cids.len() ==> cids[i] < cids[j],
                forall|i: int| 0 <= i < k ==> card_resolves(db@, cids[i], cards@[i]),
            decreases records@.len() - k,
        {
            let record = &records[k];
            proof {
                let cid = cids[k as int];
                assert(db@.full_row(Table::Card, cid)[0] == Datum::Integer(cid));
                assert(records@[k as int].id == cid);
            }
            let card = match Card::resolve(db, record) {
                Ok(card) => card,
                Err(e) => {
                    return Err(e);
                },
            };
            cards.push(card);
            k = k + 1;
        }
        Ok(cards)
    }

    /// Instantiate an empty card: no id, a blank category, no translations.
    pub fn get_empty() -> (r: Card)
        ensures
            r.id == 0,
            r.category.id == 0,
            r.category.name@.len() == 0,
            r.translations@.len() == 0,
    {
        Card { id: 0, category: Category { id: 0, name: String::new() }, translations: Vec::new() }
    }

    /// Load a random card with its category and translations resolved, or
    /// the empty card when no card is stored.
    pub fn get_random(db: &Db) -> (r: Result<Card, DatabaseError>)
        ensures
            match r {
                Ok(jc) => {
                    ||| exists|cid: i64| #[trigger] card_resolves(db@, cid, jc)
                    ||| (jc.id == 0 && jc.category.id == 0 && jc.category.name@.len() == 0
                        && jc.translations@.len() == 0 && forall|id: i64|
                        !(#[trigger] db@.contains(Table::Card, id)))
                },
                Err(e) => join_error(db@, e),
            },
    {
        let row = match select_random_card_row(db) {
            Ok(Some(row)) => row,
            Ok(None) => {
                return Ok(Card::get_empty());
            },
            Err(e) => {
                return Err(e);
            },
        };
        let id = match read_int_column(&row, 0) {
            Ok(id) => id,
            Err(e) => {
                return Err(e);
            },
        };
        let record = match CardRecord::load(db, id) {
            Ok(record) => record,
            Err(e) => {
                return Err(e);
            },
        };
        Card::resolve(db, &record)
    }

    /// Resolve one card record: load its category and its translations.
    fn resolve(db: &Db, record: &CardRecord) -> (r: Result<Card, DatabaseError>)
        requires
            db@.contains(Table::Card, record.id),
            CardRecord::decode_spec(db@.full_row(Table::Card, record.id)) == Ok::<
                CardRecord,
                DatabaseError,
            >(*record),
        ensures
            match r {
                Ok(jc) => card_resolves(db@, record.id, jc),
                Err(e) => join_error(db@, e),
            },
    {
        let category = match Category::load(db, record.category_id) {
            Ok(category) => category,
            Err(e) => {
                return Err(e);
            },
        };
        let translations = match Translation::get_all(db, record.id) {
            Ok(ts) => ts,
            Err(e) => {
                return Err(e);
            },
        };
        let card = Card { id: record.id, category, translations };
        proof {
            let ghost mc = CardRecord::decode_spec(db@.full_row(Table::Card, record.id))->Ok_0;
            let tids = choose|tids: Seq<i64>|
                {
                    &&& tids.no_duplicates()
                    &&& card.translations@.len() == tids.len()
                    &&& (forall|i: int|
                        0 <= i < tids.len() ==> {
                            &&& db@.contains(Table::Translation, #[trigger] tids[i])
                            &&& may_equal_integer(db@.translations[tids[i]][0], record.id)
                            &&& translation_resolves(db@, tids[i], card.translations@[i])
                        })
                    &&& (forall|tid: i64|
                        #[trigger] db@.contains(Table::Translation, tid)
                            && db@.translations[tid][0] == Datum::Integer(record.id)
                            ==> tids.contains(tid))
                };
            assert(translations_resolve(db@, mc.id, tids, card.translations@));
            assert(card_resolves(db@, record.id, card));
        }
        Ok(card)
    }
}

} // verus!
