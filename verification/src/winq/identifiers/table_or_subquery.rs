use vstd::prelude::*;

verus! {

/// A table named as the source of a query.
pub struct TableOrSubquery {
    desc: String,
}

impl TableOrSubquery {
    /// The rendered text, for specifications.
    pub closed spec fn spec_description(&self) -> Seq<char> {
        self.desc@
    }

    /// A source table of the given name.
    pub fn new(name: &str) -> (r: TableOrSubquery)
        ensures
            r.spec_description() == name@,
    {
        TableOrSubquery { desc: name.to_owned() }
    }

    /// The rendered text of this clause.
    pub fn description(&self) -> (r: String)
        ensures
            r@ == self.spec_description(),
    {
        self.desc.clone()
    }
}

} // verus!
