use vstd::prelude::*;

verus! {

/// One column of an index, possibly with a sort direction.
pub struct IndexedColumn {
    desc: String,
}

impl IndexedColumn {
    /// The rendered text, for specifications.
    pub closed spec fn spec_description(&self) -> Seq<char> {
        self.desc@
    }

    /// An indexed column over already rendered text.
    pub(crate) fn from_rendered(desc: String) -> (r: IndexedColumn)
        ensures
            r.spec_description() == desc@,
    {
        IndexedColumn { desc }
    }

    /// The rendered text of this clause.
    pub fn description(&self) -> (r: String)
        ensures
            r@ == self.spec_description(),
    {
        self.desc.clone()
    }
}

} // verus!
