use vstd::prelude::*;

use crate::winq::convert::AsSchema;
use crate::winq::identifiers::result_column::ResultColumn;
use crate::winq::identifiers::schema::Schema;

verus! {

/// What a column reference names.
enum ColumnName {
    All,
    RowId,
    Named(String),
}

/// The rendered text of an optional qualifier: the qualifier and a dot,
/// or nothing.
pub open spec fn spec_qualifier(q: Option<Seq<char>>) -> Seq<char> {
    match q {
        Some(x) => x + "."@,
        None => Seq::empty(),
    }
}

/// A column reference: a name, the rowid, or `*`, optionally qualified by
/// a table and a schema.
pub struct Column {
    name: ColumnName,
    table: Option<String>,
    schema: Option<String>,
}

impl Column {
    /// The unqualified part of the reference, for specifications.
    pub closed spec fn spec_base(&self) -> Seq<char> {
        match self.name {
            ColumnName::All => "*"@,
            ColumnName::RowId => "rowid"@,
            ColumnName::Named(ref n) => n@,
        }
    }

    /// The table qualifier, for specifications.
    pub closed spec fn spec_table(&self) -> Option<Seq<char>> {
        match self.table {
            Some(ref t) => Some(t@),
            None => None,
        }
    }

    /// The schema qualifier, for specifications.
    pub closed spec fn spec_schema(&self) -> Option<Seq<char>> {
        match self.schema {
            Some(ref s) => Some(s@),
            None => None,
        }
    }

    /// The rendered text, for specifications: each qualifier present,
    /// then the name.
    pub open spec fn spec_description(&self) -> Seq<char> {
        spec_qualifier(self.spec_schema()) + spec_qualifier(self.spec_table()) + self.spec_base()
    }

    /// The column named `name`.
    pub fn new(name: &str) -> (r: Column)
        ensures
            r.spec_base() == name@,
            r.spec_table() is None,
            r.spec_schema() is None,
    {
        Column { name: ColumnName::Named(name.to_owned()), table: None, schema: None }
    }

    /// The `*` column.
    pub fn all() -> (r: Column)
        ensures
            r.spec_base() == "*"@,
            r.spec_table() is None,
            r.spec_schema() is None,
    {
        Column { name: ColumnName::All, table: None, schema: None }
    }

    /// The `rowid` column.
    pub fn rowid() -> (r: Column)
        ensures
            r.spec_base() == "rowid"@,
            r.spec_table() is None,
            r.spec_schema() is None,
    {
        Column { name: ColumnName::RowId, table: None, schema: None }
    }

    /// Qualifies the reference with a table.
    pub fn in_table(self, table: &str) -> (r: Column)
        ensures
            r.spec_base() == self.spec_base(),
            r.spec_table() == Some(table@),
            r.spec_schema() == self.spec_schema(),
    {
        let Column { name, table: _, schema } = self;
        Column { name, table: Some(table.to_owned()), schema }
    }

    /// Qualifies the reference with a schema.
    pub fn of<T: AsSchema>(self, schema: T) -> (r: Column)
        ensures
            r.spec_base() == self.spec_base(),
            r.spec_table() == self.spec_table(),
            r.spec_schema() == Some(schema.schema_text()),
    {
        self.of_inner(schema.as_schema())
    }

    fn of_inner(self, schema: Schema) -> (r: Column)
        ensures
            r.spec_base() == self.spec_base(),
            r.spec_table() == self.spec_table(),
            r.spec_schema() == Some(schema.spec_description()),
    {
        let Column { name, table, schema: _ } = self;
        Column { name, table, schema: Some(schema.description()) }
    }

    /// The reference under an alias, as a result column.
    pub fn as_alias(&self, alias: &str) -> (r: ResultColumn)
        ensures
            r.spec_description() == self.spec_description() + " AS "@ + alias@,
    {
        let mut out = self.description();
        out.append(" AS ");
        out.append(alias);
        ResultColumn::from_rendered(out)
    }

    /// The rendered text of this reference.
    pub fn description(&self) -> (r: String)
        ensures
            r@ == self.spec_description(),
    {
        let mut out = String::new();
        match &self.schema {
            Some(s) => {
                out.append(s.as_str());
                out.append(".");
            },
            None => {},
        }
        match &self.table {
            Some(t) => {
                out.append(t.as_str());
                out.append(".");
            },
            None => {},
        }
        match &self.name {
            ColumnName::All => out.append("*"),
            ColumnName::RowId => out.append("rowid"),
            ColumnName::Named(n) => out.append(n.as_str()),
        }
        proof {
            assert(out@ =~= self.spec_description());
        }
        out
    }
}

} // verus!
