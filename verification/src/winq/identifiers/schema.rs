use vstd::prelude::*;

verus! {

/// A schema name qualifying a table or a column.
pub struct Schema {
    desc: String,
}

impl Schema {
    /// The rendered text, for specifications.
    pub closed spec fn spec_description(&self) -> Seq<char> {
        self.desc@
    }

    /// A schema of the given name.
    pub fn new(name: &str) -> (r: Schema)
        ensures
            r.spec_description() == name@,
    {
        Schema { desc: name.to_owned() }
    }

    /// The rendered text of this clause.
    pub fn description(&self) -> (r: String)
        ensures
            r@ == self.spec_description(),
    {
        self.desc.clone()
    }
}

} // verus!
