use vstd::prelude::*;

use crate::winq::text::{append_dec, append_quoted, spec_dec, spec_quoted};

verus! {

/// A literal value in SQL text: a number, a quoted string, a boolean
/// rendered as `1` or `0`, or `NULL`.
pub struct LiteralValue {
    desc: String,
}

impl LiteralValue {
    /// The rendered text, for specifications.
    pub closed spec fn spec_description(&self) -> Seq<char> {
        self.desc@
    }

    /// An integer literal.
    pub fn integer(value: i64) -> (r: LiteralValue)
        ensures
            r.spec_description() == spec_dec(value as int),
    {
        let mut desc = String::new();
        append_dec(&mut desc, value);
        LiteralValue { desc }
    }

    /// A string literal, quoted with inner quotes doubled.
    pub fn text(value: &str) -> (r: LiteralValue)
        ensures
            r.spec_description() == spec_quoted(value@),
    {
        let mut desc = String::new();
        append_quoted(&mut desc, value);
        LiteralValue { desc }
    }

    /// A boolean literal, rendered as `1` or `0`.
    pub fn boolean(value: bool) -> (r: LiteralValue)
        ensures
            value ==> r.spec_description() == "1"@,
            !value ==> r.spec_description() == "0"@,
    {
        if value {
            LiteralValue { desc: String::from_str("1") }
        } else {
            LiteralValue { desc: String::from_str("0") }
        }
    }

    /// The `NULL` literal.
    pub fn null() -> (r: LiteralValue)
        ensures
            r.spec_description() == "NULL"@,
    {
        LiteralValue { desc: String::from_str("NULL") }
    }

    /// The rendered text of this literal.
    pub fn description(&self) -> (r: String)
        ensures
            r@ == self.spec_description(),
    {
        self.desc.clone()
    }
}

} // verus!
