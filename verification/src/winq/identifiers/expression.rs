use vstd::prelude::*;

use crate::winq::identifiers::literal_value::LiteralValue;

verus! {

/// An SQL expression, carried as its rendered text.
pub struct Expression {
    desc: String,
}

impl Expression {
    /// The rendered text, for specifications.
    pub closed spec fn spec_description(&self) -> Seq<char> {
        self.desc@
    }

    /// The expression consisting of one literal value.
    pub fn literal(value: LiteralValue) -> (r: Expression)
        ensures
            r.spec_description() == value.spec_description(),
    {
        Expression { desc: value.description() }
    }

    /// The rendered text of this expression.
    pub fn description(&self) -> (r: String)
        ensures
            r@ == self.spec_description(),
    {
        self.desc.clone()
    }
}

} // verus!
