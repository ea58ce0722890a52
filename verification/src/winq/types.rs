use vstd::prelude::*;

verus! {

/// Sort direction of an ordering clause.
#[derive(Debug, Clone, Copy, PartialEq, Eq, Structural)]
pub enum Order {
    Asc,
    Desc,
}

impl Order {
    /// The numeric syntax code of this direction, for specifications.
    pub open spec fn code(&self) -> i32 {
        match self {
            Order::Asc => 0,
            Order::Desc => 1,
        }
    }

    /// The numeric syntax code the engine uses for this direction.
    pub fn c(&self) -> (r: i32)
        ensures
            r == self.code(),
    {
        match self {
            Order::Asc => 0,
            Order::Desc => 1,
        }
    }

    /// The SQL keyword of this direction, for specifications.
    pub open spec fn spec_keyword(&self) -> Seq<char> {
        match self {
            Order::Asc => "ASC"@,
            Order::Desc => "DESC"@,
        }
    }

    /// The SQL keyword of this direction.
    pub fn keyword(&self) -> (r: &'static str)
        ensures
            r@ == self.spec_keyword(),
    {
        match self {
            Order::Asc => "ASC",
            Order::Desc => "DESC",
        }
    }
}

/// What a constraint violation does to the enclosing statement.
#[derive(Debug, Clone, Copy, PartialEq, Eq, Structural)]
pub enum Conflict {
    Rollback,
    Abort,
    Fail,
    Ignore,
    Replace,
}

impl Conflict {
    /// The numeric syntax code of this action, for specifications.
    pub open spec fn code(&self) -> i32 {
        match self {
            Conflict::Rollback => 0,
            Conflict::Abort => 1,
            Conflict::Fail => 2,
            Conflict::Ignore => 3,
            Conflict::Replace => 4,
        }
    }

    /// The numeric syntax code the engine uses for this action.
    pub fn c(&self) -> (r: i32)
        ensures
            r == self.code(),
    {
        match self {
            Conflict::Rollback => 0,
            Conflict::Abort => 1,
            Conflict::Fail => 2,
            Conflict::Ignore => 3,
            Conflict::Replace => 4,
        }
    }

    /// The SQL keyword of this action, for specifications.
    pub open spec fn spec_keyword(&self) -> Seq<char> {
        match self {
            Conflict::Rollback => "ROLLBACK"@,
            Conflict::Abort => "ABORT"@,
            Conflict::Fail => "FAIL"@,
            Conflict::Ignore => "IGNORE"@,
            Conflict::Replace => "REPLACE"@,
        }
    }

    /// The SQL keyword of this action.
    pub fn keyword(&self) -> (r: &'static str)
        ensures
            r@ == self.spec_keyword(),
    {
        match self {
            Conflict::Rollback => "ROLLBACK",
            Conflict::Abort => "ABORT",
            Conflict::Fail => "FAIL",
            Conflict::Ignore => "IGNORE",
            Conflict::Replace => "REPLACE",
        }
    }
}

/// Storage class of a column. The two integer widths share one SQL
/// affinity and render alike.
#[derive(Debug, Clone, Copy, PartialEq, Eq, Structural)]
pub enum ColumnType {
    Integer32,
    Integer64,
    Text,
    Float,
    Blob,
    Null,
}

impl ColumnType {
    /// The numeric syntax code of this storage class, for specifications;
    /// both integer widths share one code.
    pub open spec fn code(&self) -> i32 {
        match self {
            ColumnType::Null => 0,
            ColumnType::Integer32 => 1,
            ColumnType::Integer64 => 1,
            ColumnType::Float => 2,
            ColumnType::Text => 3,
            ColumnType::Blob => 4,
        }
    }

    /// The numeric syntax code the engine uses for this storage class.
    pub fn c(&self) -> (r: i32)
        ensures
            r == self.code(),
    {
        match self {
            ColumnType::Null => 0,
            ColumnType::Integer32 => 1,
            ColumnType::Integer64 => 1,
            ColumnType::Float => 2,
            ColumnType::Text => 3,
            ColumnType::Blob => 4,
        }
    }

    /// The SQL type name of this storage class, for specifications.
    pub open spec fn spec_keyword(&self) -> Seq<char> {
        match self {
            ColumnType::Integer32 => "INTEGER"@,
            ColumnType::Integer64 => "INTEGER"@,
            ColumnType::Text => "TEXT"@,
            ColumnType::Float => "REAL"@,
            ColumnType::Blob => "BLOB"@,
            ColumnType::Null => "NULL"@,
        }
    }

    /// The SQL type name of this storage class.
    pub fn keyword(&self) -> (r: &'static str)
        ensures
            r@ == self.spec_keyword(),
    {
        match self {
            ColumnType::Integer32 => "INTEGER",
            ColumnType::Integer64 => "INTEGER",
            ColumnType::Text => "TEXT",
            ColumnType::Float => "REAL",
            ColumnType::Blob => "BLOB",
            ColumnType::Null => "NULL",
        }
    }
}

/// How a transaction takes its locks.
#[derive(Debug, Clone, Copy, PartialEq, Eq, Structural)]
pub enum TransactionType {
    Deferred,
    Immediate,
    Exclusive,
}

impl TransactionType {
    /// The numeric syntax code of this transaction kind, for
    /// specifications.
    pub open spec fn code(&self) -> i32 {
        match self {
            TransactionType::Deferred => 0,
            TransactionType::Immediate => 1,
            TransactionType::Exclusive => 2,
        }
    }

    /// The numeric syntax code the engine uses for this transaction kind.
    pub fn c(&self) -> (r: i32)
        ensures
            r == self.code(),
    {
        match self {
            TransactionType::Deferred => 0,
            TransactionType::Immediate => 1,
            TransactionType::Exclusive => 2,
        }
    }
}

/// The two integer widths collapse onto one engine code, while every other
/// storage class keeps a code of its own.
pub proof fn lemma_column_type_codes(a: ColumnType, b: ColumnType)
    ensures
        (a.code() == b.code()) <==> (a == b || (a == ColumnType::Integer32 && b
            == ColumnType::Integer64) || (a == ColumnType::Integer64 && b
            == ColumnType::Integer32)),
{
}

} // verus!
