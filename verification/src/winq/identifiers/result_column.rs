use vstd::prelude::*;

verus! {

/// One column of a result set, possibly under an alias.
pub struct ResultColumn {
    desc: String,
}

impl ResultColumn {
    /// The rendered text, for specifications.
    pub closed spec fn spec_description(&self) -> Seq<char> {
        self.desc@
    }

    /// A result column over already rendered text.
    pub(crate) fn from_rendered(desc: String) -> (r: ResultColumn)
        ensures
            r.spec_description() == desc@,
    {
        ResultColumn { desc }
    }

    /// The rendered text of this clause.
    pub fn description(&self) -> (r: String)
        ensures
            r@ == self.spec_description(),
    {
        self.desc.clone()
    }
}

} // verus!
