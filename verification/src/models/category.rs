//! Model Category.

use vstd::prelude::*;

use crate::database::{select_category_row_by_name, DatabaseError, Db};
use crate::datum::Datum;
use crate::models::{int_column, read_int_column, read_text_column, text_column, Model};
use crate::schema::Table;

verus! {

/// A flash card category.
#[derive(Debug, Clone)]
pub struct Category {
    /// Identifier of the category.
    pub id: i64,
    /// Name of the category.
    pub name: String,
}

impl Category {
    /// The stored columns of the category's row, the id excepted.
    pub open spec fn row_values(self) -> Seq<Datum> {
        seq![Datum::Text(self.name)]
    }

    /// Load the category with the given name: a case-sensitive exact
    /// match.  `NotFound` means no stored category has that name.
    pub fn load_by_name(db: &Db, name: String) -> (r: Result<Category, DatabaseError>)
        ensures
            match r {
                Ok(cat) => {
                    &&& cat.name@ == name@
                    &&& exists|id: i64|
                        {
                            &&& #[trigger] db@.contains(Table::Category, id)
                            &&& Category::decode_spec(db@.full_row(Table::Category, id)) == Ok::<
                                Category,
                                DatabaseError,
                            >(cat)
                        }
                },
                Err(e) => {
                    ||| e is SQLiteError
                    ||| (e is NotFound && forall|id: i64|
                        #[trigger] db@.contains(Table::Category, id) ==> !(db@.categories[id][0]
                            matches Datum::Text(n) && n@ == name@))
                    ||| exists|id: i64|
                        {
                            &&& #[trigger] db@.contains(Table::Category, id)
                            &&& Category::decode_spec(db@.full_row(Table::Category, id)) == Err::<
                                Category,
                                DatabaseError,
                            >(e)
                        }
                },
            },
    {
        match select_category_row_by_name(db, name.as_str()) {
            Ok(Some(row)) => Category::from_row(&row),
            Ok(None) => Err(DatabaseError::NotFound),
            Err(e) => Err(e),
        }
    }

    /// Instantiate a new category.
    pub fn new(id: i64, name: String) -> (r: Category)
        ensures
            r.id == id && r.name == name,
    {
        Category { id, name }
    }

    /// Save the category to the database: insert it when its id is `0`,
    /// adopting the assigned id, else update its row in place.
    pub fn save(&mut self, db: &mut Db) -> (r: Result<i64, DatabaseError>)
        ensures
            match r {
                Ok(rid) => {
                    &&& rid == final(self).id
                    &&& final(self).name == old(self).name
                    &&& if old(self).id > 0 {
                        &&& final(self).id == old(self).id
                        &&& (if old(db)@.contains(Table::Category, old(self).id) {
                            final(db)@ == old(db)@.with_rows(
                                Table::Category,
                                old(db)@.categories.insert(old(self).id, old(self).row_values()),
                            )
                        } else {
                            final(db)@ == old(db)@
                        })
                    } else {
                        &&& rid > 0
                        &&& !old(db)@.contains(Table::Category, rid)
                        &&& final(db)@ == old(db)@.with_rows(
                            Table::Category,
                            old(db)@.categories.insert(rid, old(self).row_values()),
                        )
                    }
                },
                Err(e) => {
                    &&& e is SQLiteError
                    &&& *final(self) == *old(self)
                    &&& final(db)@ == old(db)@
                },
            },
    {
        let mut values: Vec<Datum> = Vec::new();
        values.push(Datum::Text(self.name.clone()));
        if self.id > 0 {
            values.push(Datum::Integer(self.id));
            proof {
                assert(values@.drop_last() =~= self.row_values());
            }
            match Category::update(db, &values) {
                Ok(_) => Ok(self.id),
                Err(e) => Err(e),
            }
        } else {
            proof {
                assert(values@ =~= self.row_values());
            }
            match Category::insert(db, &values) {
                Ok(id) => {
                    self.id = id;
                    Ok(id)
                },
                Err(e) => Err(e),
            }
        }
    }
}

impl Model for Category {
    open spec fn table_spec() -> Table {
        Table::Category
    }

    fn table() -> Table {
        Table::Category
    }

    open spec fn decode_spec(row: Seq<Datum>) -> Result<Category, DatabaseError> {
        match int_column(row, 0) {
            Ok(id) => match text_column(row, 1) {
                Ok(name) => Ok(Category { id, name }),
                Err(e) => Err(e),
            },
            Err(e) => Err(e),
        }
    }

    open spec fn blank(e: Category) -> bool {
        e.id == 0 && e.name@.len() == 0
    }

    fn from_empty() -> Category {
        Category { id: 0, name: String::new() }
    }

    fn from_row(row: &Vec<Datum>) -> (r: Result<Category, DatabaseError>) {
        let id = match read_int_column(row, 0) {
            Ok(v) => v,
            Err(e) => {
                return Err(e);
            },
        };
        let name = match read_text_column(row, 1) {
            Ok(v) => v,
            Err(e) => {
                return Err(e);
            },
        };
        Ok(Category { id, name })
    }
}

} // verus!
