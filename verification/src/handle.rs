use vstd::prelude::*;

use crate::database::Database;

verus! {

/// Whether a handle owns a unit of use of its underlying connection.
#[derive(Clone, Copy, PartialEq, Eq, Structural, Debug)]
pub enum Ownership {
    /// The handle holds one unit of use of the connection and must give it
    /// back with [`Handle::release`].
    Owned,
    /// The connection was lent to the handle transiently, inside a
    /// configuration hook; releasing it is a no-op.
    Borrowed,
}

/// One live reference to an underlying storage connection of a database.
///
/// A handle produced by [`Database::get_handle`] is owned: it holds one unit
/// of use of its connection and gives it back exactly once, through
/// [`Handle::release`]. A handle lent to a configuration hook while its
/// connection is being set up is borrowed and releases nothing. The handle
/// keeps a reference back to its owning database so that a hook running
/// during connection setup can still identify the database it belongs to.
pub struct Handle {
    raw: u64,
    database: Database,
    ownership: Ownership,
}

impl Handle {
    /// An owning handle over the connection `raw` of `database`.
    pub fn owned(raw: u64, database: Database) -> (h: Handle)
        ensures
            h.raw_id() == raw,
            h.db_id() == database.id(),
            h.is_owned(),
    {
        Handle { raw, database, ownership: Ownership::Owned }
    }

    /// A borrowed handle over the connection `raw` of `database`.
    pub fn reference(raw: u64, database: Database) -> (h: Handle)
        ensures
            h.raw_id() == raw,
            h.db_id() == database.id(),
            !h.is_owned(),
    {
        Handle { raw, database, ownership: Ownership::Borrowed }
    }

    /// The identity of the underlying connection.
    pub fn raw(&self) -> (r: u64)
        ensures
            r == self.raw_id(),
    {
        self.raw
    }

    /// The owning database of this handle.
    pub fn database(&self) -> (d: &Database)
        ensures
            d.id() == self.db_id(),
    {
        &self.database
    }

    /// Whether this handle owns a unit of use of its connection.
    pub fn owns(&self) -> (r: bool)
        ensures
            r == self.is_owned(),
    {
        match self.ownership {
            Ownership::Owned => true,
            Ownership::Borrowed => false,
        }
    }

    /// The identity of the underlying connection, for specifications.
    pub closed spec fn raw_id(&self) -> u64 {
        self.raw
    }

    /// The registry entry of the owning database, for specifications.
    pub closed spec fn db_id(&self) -> int {
        self.database.id()
    }

    /// Whether this handle owns a unit of use of its connection, for
    /// specifications.
    pub closed spec fn is_owned(&self) -> bool {
        self.ownership == Ownership::Owned
    }
}

} // verus!
