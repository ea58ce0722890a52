use vstd::prelude::*;

verus! {

/// A foreign-key clause: the referenced table and, optionally, its
/// columns.
pub struct ForeignKey {
    table: String,
    columns: Option<String>,
}

impl ForeignKey {
    /// The referenced table, for specifications.
    pub closed spec fn spec_table(&self) -> Seq<char> {
        self.table@
    }

    /// The rendered inner column list, for specifications.
    pub closed spec fn spec_columns(&self) -> Option<Seq<char>> {
        match self.columns {
            Some(ref c) => Some(c@),
            None => None,
        }
    }

    /// The rendered text, for specifications: `REFERENCES` the table,
    /// with the column list in parentheses when one was given.
    pub open spec fn spec_description(&self) -> Seq<char> {
        "REFERENCES "@ + self.spec_table() + (match self.spec_columns() {
            Some(c) => "("@ + c + ")"@,
            None => Seq::empty(),
        })
    }

    /// A foreign key referencing `table`.
    pub fn references(table: &str) -> (r: ForeignKey)
        ensures
            r.spec_table() == table@,
            r.spec_columns() is None,
    {
        ForeignKey { table: table.to_owned(), columns: None }
    }

    /// Adds one referenced column.
    pub fn column(self, name: &str) -> (r: ForeignKey)
        ensures
            r.spec_table() == self.spec_table(),
            r.spec_columns() == Some(
                match self.spec_columns() {
                    Some(c) => c + ", "@ + name@,
                    None => name@,
                },
            ),
    {
        let ForeignKey { table, columns } = self;
        let columns = match columns {
            Some(mut c) => {
                c.append(", ");
                c.append(name);
                Some(c)
            },
            None => Some(name.to_owned()),
        };
        ForeignKey { table, columns }
    }

    /// The rendered text of this clause.
    pub fn description(&self) -> (r: String)
        ensures
            r@ == self.spec_description(),
    {
        let mut out = String::from_str("REFERENCES ");
        out.append(self.table.as_str());
        match &self.columns {
            Some(c) => {
                out.append("(");
                out.append(c.as_str());
                out.append(")");
                proof {
                    assert(out@ =~= self.spec_description());
                }
            },
            None => {
                proof {
                    assert(out@ =~= self.spec_description());
                }
            },
        }
        out
    }
}

} // verus!
