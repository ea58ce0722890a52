use vstd::prelude::*;

verus! {

/// A table name as the target of an update or delete.
pub struct QualifiedTable {
    desc: String,
}

impl QualifiedTable {
    /// The rendered text, for specifications.
    pub closed spec fn spec_description(&self) -> Seq<char> {
        self.desc@
    }

    /// A qualified table of the given name.
    pub fn new(name: &str) -> (r: QualifiedTable)
        ensures
            r.spec_description() == name@,
    {
        QualifiedTable { desc: name.to_owned() }
    }

    /// The rendered text of this clause.
    pub fn description(&self) -> (r: String)
        ensures
            r@ == self.spec_description(),
    {
        self.desc.clone()
    }
}

} // verus!
