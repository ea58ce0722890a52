use vstd::prelude::*;

use crate::winq::identifiers::column::Column;

verus! {

/// A common table expression header: the table name and, optionally, its
/// column list.
pub struct CommonTableExpression {
    table: String,
    columns: Option<String>,
}

impl CommonTableExpression {
    /// The table name, for specifications.
    pub closed spec fn spec_table(&self) -> Seq<char> {
        self.table@
    }

    /// The rendered inner column list, for specifications.
    pub closed spec fn spec_columns(&self) -> Option<Seq<char>> {
        match self.columns {
            Some(ref c) => Some(c@),
            None => None,
        }
    }

    /// The rendered text, for specifications: the table name, with the
    /// column list in parentheses when one was given.
    pub open spec fn spec_description(&self) -> Seq<char> {
        self.spec_table() + (match self.spec_columns() {
            Some(c) => "("@ + c + ")"@,
            None => Seq::empty(),
        })
    }

    /// The expression for the table named `table`.
    pub fn new(table: &str) -> (r: CommonTableExpression)
        ensures
            r.spec_table() == table@,
            r.spec_columns() is None,
    {
        CommonTableExpression { table: table.to_owned(), columns: None }
    }

    /// Adds one column to the list.
    pub fn column(self, column: Column) -> (r: CommonTableExpression)
        ensures
            r.spec_table() == self.spec_table(),
            r.spec_columns() == Some(
                match self.spec_columns() {
                    Some(c) => c + ", "@ + column.spec_description(),
                    None => column.spec_description(),
                },
            ),
    {
        let rendered = column.description();
        let CommonTableExpression { table, columns } = self;
        let columns = match columns {
            Some(mut c) => {
                c.append(", ");
                c.append(rendered.as_str());
                Some(c)
            },
            None => Some(rendered),
        };
        CommonTableExpression { table, columns }
    }

    /// The rendered text of this clause.
    pub fn description(&self) -> (r: String)
        ensures
            r@ == self.spec_description(),
    {
        let mut out = self.table.clone();
        match &self.columns {
            Some(c) => {
                out.append("(");
                out.append(c.as_str());
                out.append(")");
                proof {
                    assert(out@ =~= self.spec_description());
                }
            },
            None => {
                proof {
                    assert(out@ =~= self.spec_description());
                }
            },
        }
        out
    }
}

} // verus!
