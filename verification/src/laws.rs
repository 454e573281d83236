//! The laws of the mapping layer, proved once and for all states.
//!
//! The round-trip lemmas say that decoding a stored row, as `load` does,
//! undoes the encoding that `save` and `insert` perform; the save lemmas
//! say what the insert-or-update branch of `save` does to a table; the
//! mismatch lemmas say which type error each ill-typed column yields.

use vstd::prelude::*;

use crate::database::DatabaseError;
use crate::datum::Datum;
use crate::models::card::Card;
use crate::models::category::Category;
use crate::models::language::Language;
use crate::models::translation::Translation;
use crate::models::Model;
use crate::schema::{DbState, Table};

verus! {

/// Round trip for cards: the stored row an insert leaves behind — the
/// assigned id, then the card's column values — decodes to the card with
/// that id.
pub proof fn lemma_card_round_trip(c: Card, id: i64)
    ensures
        Card::decode_spec(seq![Datum::Integer(id)] + c.row_values()) == Ok::<Card, DatabaseError>(
            Card { id, category_id: c.category_id },
        ),
{
}

/// Round trip for categories.
pub proof fn lemma_category_round_trip(c: Category, id: i64)
    ensures
        Category::decode_spec(seq![Datum::Integer(id)] + c.row_values()) == Ok::<
            Category,
            DatabaseError,
        >(Category { id, name: c.name }),
{
}

/// Round trip for languages.
pub proof fn lemma_language_round_trip(l: Language, id: i64)
    ensures
        Language::decode_spec(seq![Datum::Integer(id)] + l.row_values()) == Ok::<
            Language,
            DatabaseError,
        >(Language { id, code: l.code, name: l.name }),
{
}

/// Round trip for translations.
pub proof fn lemma_translation_round_trip(t: Translation, id: i64)
    ensures
        Translation::decode_spec(seq![Datum::Integer(id)] + t.row_values()) == Ok::<
            Translation,
            DatabaseError,
        >(
            Translation {
                id,
                card_id: t.card_id,
                language_id: t.language_id,
                text: t.text,
                description: t.description,
            },
        ),
{
}

/// Round trip through the database model: after an insert of a card's
/// column values, the full row at the assigned id — what `load` decodes —
/// yields the card back, the assigned id in place of its own.
pub proof fn lemma_card_insert_then_load(s: DbState, c: Card, id: i64)
    ensures
        ({
            let s2 = s.with_rows(Table::Card, s.cards.insert(id, c.row_values()));
            Card::decode_spec(s2.full_row(Table::Card, id)) == Ok::<Card, DatabaseError>(
                Card { id, category_id: c.category_id },
            )
        }),
{
}

/// The insert half of the save law: saving a record with no id twice, as
/// two inserts at engine-assigned fresh ids, leaves two distinct rows with
/// distinct ids, each holding its own values, and the table two rows
/// larger.
pub proof fn lemma_save_fresh_twice(
    s: DbState,
    t: Table,
    id1: i64,
    v1: Seq<Datum>,
    id2: i64,
    v2: Seq<Datum>,
)
    requires
        s.wf(),
        !s.rows(t).dom().contains(id1),
        !s.with_rows(t, s.rows(t).insert(id1, v1)).rows(t).dom().contains(id2),
    ensures
        ({
            let s1 = s.with_rows(t, s.rows(t).insert(id1, v1));
            let s2 = s1.with_rows(t, s1.rows(t).insert(id2, v2));
            &&& id1 != id2
            &&& s2.rows(t).dom().contains(id1)
            &&& s2.rows(t).dom().contains(id2)
            &&& s2.rows(t)[id1] == v1
            &&& s2.rows(t)[id2] == v2
            &&& s2.rows(t).dom().len() == s.rows(t).dom().len() + 2
            &&& s2.wf()
        }),
{
    broadcast use vstd::set::group_set_axioms;

}

/// The update half of the save law: saving a record whose id is already
/// stored replaces that row in place — the id set of its table, and so the
/// count that `load_all` sees, is unchanged, and no other table moves.
pub proof fn lemma_save_update_in_place(s: DbState, t: Table, id: i64, v: Seq<Datum>)
    requires
        s.wf(),
        s.rows(t).dom().contains(id),
    ensures
        ({
            let s2 = s.with_rows(t, s.rows(t).insert(id, v));
            &&& s2.rows(t).dom() == s.rows(t).dom()
            &&& s2.rows(t)[id] == v
            &&& s2.rows(t).dom().len() == s.rows(t).dom().len()
            &&& s2.wf()
        }),
{
    broadcast use vstd::set::group_set_axioms;

    let s2 = s.with_rows(t, s.rows(t).insert(id, v));
    assert(s2.rows(t).dom() =~= s.rows(t).dom());
}

/// An id column that does not hold an integer yields `ValueNotInteger`,
/// whichever entity decodes the row.
pub proof fn lemma_id_type_mismatch(row: Seq<Datum>)
    requires
        row.len() >= 1,
        !(row[0] is Integer),
    ensures
        Card::decode_spec(row) == Err::<Card, DatabaseError>(DatabaseError::ValueNotInteger),
        Category::decode_spec(row) == Err::<Category, DatabaseError>(
            DatabaseError::ValueNotInteger,
        ),
        Language::decode_spec(row) == Err::<Language, DatabaseError>(
            DatabaseError::ValueNotInteger,
        ),
        Translation::decode_spec(row) == Err::<Translation, DatabaseError>(
            DatabaseError::ValueNotInteger,
        ),
{
}

/// A text column that does not hold text yields `ValueNotString`: the
/// category's name, the language's code, the translation's text.
pub proof fn lemma_text_type_mismatch(row: Seq<Datum>)
    requires
        row.len() >= 4,
        row[0] is Integer,
        row[1] is Integer,
        row[2] is Integer,
        !(row[3] is Text),
    ensures
        Category::decode_spec(seq![row[0], row[3]]) == Err::<Category, DatabaseError>(
            DatabaseError::ValueNotString,
        ),
        Language::decode_spec(seq![row[0], row[3], row[3]]) == Err::<Language, DatabaseError>(
            DatabaseError::ValueNotString,
        ),
        Translation::decode_spec(seq![row[0], row[1], row[2], row[3], row[3]]) == Err::<
            Translation,
            DatabaseError,
        >(DatabaseError::ValueNotString),
{
}

} // verus!
