//! A column value as the storage engine hands it back or takes it in.

use vstd::prelude::*;

verus! {

/// One column value.
///
/// The schema only declares `INTEGER` and `TEXT` columns, so those two storage
/// classes are kept exactly; everything else a database file could hold
/// (`NULL`, but also a float or a blob put there by another program) is
/// represented as `Null`, which every decoder rejects with a type error.
#[derive(Debug, Clone)]
pub enum Datum {
    /// A 64-bit integer.
    Integer(i64),
    /// A text string.
    Text(String),
    /// Absent or foreign data.
    Null,
}

impl Datum {
    /// The integer held by the value, if it is one.
    pub fn as_integer(&self) -> (r: Option<i64>)
        ensures
            r == self.spec_integer(),
    {
        match self {
            Datum::Integer(i) => Some(*i),
            _ => None,
        }
    }

    /// The text held by the value, if it is one.
    pub fn as_string(&self) -> (r: Option<&String>)
        ensures
            match r {
                Some(s) => self matches Datum::Text(t) && t == s,
                None => !(self is Text),
            },
    {
        match self {
            Datum::Text(s) => Some(s),
            _ => None,
        }
    }

    /// The integer held by the value, or `None` for the other storage classes.
    pub open spec fn spec_integer(&self) -> Option<i64> {
        match self {
            Datum::Integer(i) => Some(*i),
            _ => None,
        }
    }
}

} // verus!
