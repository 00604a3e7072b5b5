//! Messages of the control plane's CRUD actors, which read and delete rows of
//! its tables by their integer primary key.
use vstd::prelude::*;

verus! {

/// Reads the row with this primary key, if there is one.
#[derive(Debug, Clone, Copy, PartialEq, Eq, Structural)]
pub struct Get {
    pub id: i64,
}

/// Deletes the row with this primary key; the reply counts the deleted rows
/// (zero or one).
#[derive(Debug, Clone, Copy, PartialEq, Eq, Structural)]
pub struct Delete {
    pub id: i64,
}

} // verus!
