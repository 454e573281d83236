//! Model Card.

use vstd::prelude::*;

use crate::database::{select_random_card_row, DatabaseError, Db};
use crate::datum::Datum;
use crate::models::{int_column, read_int_column, Model};
use crate::schema::Table;

verus! {

/// A flash card.
#[derive(Debug, Clone)]
pub struct Card {
    /// Identifier of the card.
    pub id: i64,
    /// Identifier of the card's category.
    pub category_id: i64,
}

impl Card {
    /// The stored columns of the card's row, the id excepted.
    pub open spec fn row_values(self) -> Seq<Datum> {
        seq![Datum::Integer(self.category_id)]
    }

    /// Get the card with the given id, or a random one when the id is `0`.
    ///
    /// `0` here means 'no particular card', never 'unsaved': a stored card
    /// always has a positive id.
    pub fn get(db: &Db, card_id: i64) -> (r: Result<Card, DatabaseError>)
        ensures
            match r {
                Ok(card) => exists|id: i64|
                    {
                        &&& #[trigger] db@.contains(Table::Card, id)
                        &&& Card::decode_spec(db@.full_row(Table::Card, id)) == Ok::<
                            Card,
                            DatabaseError,
                        >(card)
                        &&& (card_id != 0 ==> id == card_id)
                    },
                Err(e) => {
                    ||| e is SQLiteError
                    ||| (e is NotFound && (if card_id == 0 {
                        forall|id: i64| !(#[trigger] db@.contains(Table::Card, id))
                    } else {
                        !db@.contains(Table::Card, card_id)
                    }))
                    ||| exists|id: i64|
                        {
                            &&& #[trigger] db@.contains(Table::Card, id)
                            &&& (card_id != 0 ==> id == card_id)
                            &&& Card::decode_spec(db@.full_row(Table::Card, id)) == Err::<
                                Card,
                                DatabaseError,
                            >(e)
                        }
                },
            },
    {
        let id = if card_id == 0 {
            match Card::random_id(db) {
                Ok(id) => id,
                Err(e) => {
                    return Err(e);
                },
            }
        } else {
            card_id
        };
        Card::load(db, id)
    }

    /// Get the id of a random card.  `NotFound` means the table is empty.
    pub fn random_id(db: &Db) -> (r: Result<i64, DatabaseError>)
        ensures
            match r {
                Ok(id) => db@.contains(Table::Card, id),
                Err(e) => {
                    ||| e is SQLiteError
                    ||| (e is NotFound && forall|id: i64|
                        !(#[trigger] db@.contains(Table::Card, id)))
                },
            },
    {
        match select_random_card_row(db) {
            Ok(Some(row)) => match read_int_column(&row, 0) {
                Ok(id) => Ok(id),
                Err(e) => Err(e),
            },
            Ok(None) => Err(DatabaseError::NotFound),
            Err(e) => Err(e),
        }
    }

    /// Save the card to the database: insert it when its id is `0`,
    /// adopting the assigned id, else update its row in place.
    pub fn save(&mut self, db: &mut Db) -> (r: Result<i64, DatabaseError>)
        ensures
            match r {
                Ok(rid) => {
                    &&& rid == final(self).id
                    &&& final(self).category_id == old(self).category_id
                    &&& if old(self).id > 0 {
                        &&& final(self).id == old(self).id
                        &&& (if old(db)@.contains(Table::Card, old(self).id) {
                            final(db)@ == old(db)@.with_rows(
                                Table::Card,
                                old(db)@.cards.insert(old(self).id, old(self).row_values()),
                            )
                        } else {
                            final(db)@ == old(db)@
                        })
                    } else {
                        &&& rid > 0
                        &&& !old(db)@.contains(Table::Card, rid)
                        &&& final(db)@ == old(db)@.with_rows(
                            Table::Card,
                            old(db)@.cards.insert(rid, old(self).row_values()),
                        )
                    }
                },
                Err(e) => {
                    &&& e is SQLiteError
                    &&& *final(self) == *old(self)
                    &&& final(db)@ == old(db)@
                },
            },
    {
        let mut values: Vec<Datum> = Vec::new();
        values.push(Datum::Integer(self.category_id));
        if self.id > 0 {
            values.push(Datum::Integer(self.id));
            proof {
                assert(values@.drop_last() =~= self.row_values());
            }
            match Card::update(db, &values) {
                Ok(_) => Ok(self.id),
                Err(e) => Err(e),
            }
        } else {
            proof {
                assert(values@ =~= self.row_values());
            }
            match Card::insert(db, &values) {
                Ok(id) => {
                    self.id = id;
                    Ok(id)
                },
                Err(e) => Err(e),
            }
        }
    }
}

impl Model for Card {
    open spec fn table_spec() -> Table {
        Table::Card
    }

    fn table() -> Table {
        Table::Card
    }

    open spec fn decode_spec(row: Seq<Datum>) -> Result<Card, DatabaseError> {
        match int_column(row, 0) {
            Ok(id) => match int_column(row, 1) {
                Ok(category_id) => Ok(Card { id, category_id }),
                Err(e) => Err(e),
            },
            Err(e) => Err(e),
        }
    }

    open spec fn blank(e: Card) -> bool {
        e.id == 0 && e.category_id == 0
    }

    fn from_empty() -> Card {
        Card { id: 0, category_id: 0 }
    }

    fn from_row(row: &Vec<Datum>) -> (r: Result<Card, DatabaseError>) {
        let id = match read_int_column(row, 0) {
            Ok(v) => v,
            Err(e) => {
                return Err(e);
            },
        };
        let category_id = match read_int_column(row, 1) {
            Ok(v) => v,
            Err(e) => {
                return Err(e);
            },
        };
        Ok(Card { id, category_id })
    }
}

} // verus!
