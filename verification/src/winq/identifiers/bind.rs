use vstd::prelude::*;

use crate::winq::text::{append_dec, spec_dec};

verus! {

/// The rendered text of the numbered bind parameter `?n`; number `0`
/// renders as the anonymous `?`.
pub open spec fn spec_numbered(n: int) -> Seq<char> {
    if n == 0 {
        "?"@
    } else {
        "?"@ + spec_dec(n)
    }
}

/// A bind parameter of a prepared statement: numbered (`?7`, or the
/// anonymous `?`) or named under one of the three sigils.
pub struct BindParameter {
    desc: String,
}

impl BindParameter {
    /// The rendered text, for specifications.
    pub closed spec fn spec_description(&self) -> Seq<char> {
        self.desc@
    }

    /// The numbered parameter `?num`; `0` gives the anonymous `?`.
    pub fn new(num: i32) -> (r: BindParameter)
        ensures
            r.spec_description() == spec_numbered(num as int),
    {
        let mut desc = String::from_str("?");
        if num != 0 {
            append_dec(&mut desc, num as i64);
        }
        BindParameter { desc }
    }

    /// The colon-named parameter `:name`.
    pub fn named(name: &str) -> (r: BindParameter)
        ensures
            r.spec_description() == ":"@ + name@,
    {
        let mut desc = String::from_str(":");
        desc.append(name);
        BindParameter { desc }
    }

    /// The colon-named parameter `:name`.
    pub fn colon(name: &str) -> (r: BindParameter)
        ensures
            r.spec_description() == ":"@ + name@,
    {
        BindParameter::named(name)
    }

    /// The at-named parameter `@name`.
    pub fn at(name: &str) -> (r: BindParameter)
        ensures
            r.spec_description() == "@"@ + name@,
    {
        let mut desc = String::from_str("@");
        desc.append(name);
        BindParameter { desc }
    }

    /// The dollar-named parameter `$name`.
    pub fn dollar(name: &str) -> (r: BindParameter)
        ensures
            r.spec_description() == "$"@ + name@,
    {
        let mut desc = String::from_str("$");
        desc.append(name);
        BindParameter { desc }
    }

    /// The anonymous parameter `?`.
    pub fn def() -> (r: BindParameter)
        ensures
            r.spec_description() == spec_numbered(0),
    {
        BindParameter::new(0)
    }


    /// The numbered parameter `?1`.
    pub fn _1() -> (r: BindParameter)
        ensures
            r.spec_description() == spec_numbered(1),
    {
        BindParameter::new(1)
    }

    /// The numbered parameter `?2`.
    pub fn _2() -> (r: BindParameter)
        ensures
            r.spec_description() == spec_numbered(2),
    {
        BindParameter::new(2)
    }

    /// The numbered parameter `?3`.
    pub fn _3() -> (r: BindParameter)
        ensures
            r.spec_description() == spec_numbered(3),
    {
        BindParameter::new(3)
    }

    /// The numbered parameter `?4`.
    pub fn _4() -> (r: BindParameter)
        ensures
            r.spec_description() == spec_numbered(4),
    {
        BindParameter::new(4)
    }

    /// The numbered parameter `?5`.
    pub fn _5() -> (r: BindParameter)
        ensures
            r.spec_description() == spec_numbered(5),
    {
        BindParameter::new(5)
    }

    /// The numbered parameter `?6`.
    pub fn _6() -> (r: BindParameter)
        ensures
            r.spec_description() == spec_numbered(6),
    {
        BindParameter::new(6)
    }

    /// The numbered parameter `?7`.
    pub fn _7() -> (r: BindParameter)
        ensures
            r.spec_description() == spec_numbered(7),
    {
        BindParameter::new(7)
    }

    /// The numbered parameter `?8`.
    pub fn _8() -> (r: BindParameter)
        ensures
            r.spec_description() == spec_numbered(8),
    {
        BindParameter::new(8)
    }

    /// The numbered parameter `?9`.
    pub fn _9() -> (r: BindParameter)
        ensures
            r.spec_description() == spec_numbered(9),
    {
        BindParameter::new(9)
    }

    /// The numbered parameter `?10`.
    pub fn _10() -> (r: BindParameter)
        ensures
            r.spec_description() == spec_numbered(10),
    {
        BindParameter::new(10)
    }

    /// The numbered parameter `?11`.
    pub fn _11() -> (r: BindParameter)
        ensures
            r.spec_description() == spec_numbered(11),
    {
        BindParameter::new(11)
    }

    /// The numbered parameter `?12`.
    pub fn _12() -> (r: BindParameter)
        ensures
            r.spec_description() == spec_numbered(12),
    {
        BindParameter::new(12)
    }

    /// The numbered parameter `?13`.
    pub fn _13() -> (r: BindParameter)
        ensures
            r.spec_description() == spec_numbered(13),
    {
        BindParameter::new(13)
    }

    /// The numbered parameter `?14`.
    pub fn _14() -> (r: BindParameter)
        ensures
            r.spec_description() == spec_numbered(14),
    {
        BindParameter::new(14)
    }

    /// The numbered parameter `?15`.
    pub fn _15() -> (r: BindParameter)
        ensures
            r.spec_description() == spec_numbered(15),
    {
        BindParameter::new(15)
    }

    /// The rendered text of this parameter.
    pub fn description(&self) -> (r: String)
        ensures
            r@ == self.spec_description(),
    {
        self.desc.clone()
    }

    /// The first `num` numbered parameters, `?1` through `?num`.
    pub fn bind_parameters(num: i32) -> (r: Vec<BindParameter>)
        ensures
            r@.len() == (if num > 0 {
                num as int
            } else {
                0
            }),
            forall|i: int|
                0 <= i < r@.len() ==> (#[trigger] r@[i]).spec_description() == spec_numbered(
                    i + 1,
                ),
    {
        let mut r: Vec<BindParameter> = Vec::new();
        if num <= 0 {
            return r;
        }
        let n = num;
        let mut i: i32 = 0;
        while i < n
            invariant
                0 <= i <= n,
                r@.len() == i as int,
                forall|j: int|
                    0 <= j < r@.len() ==> (#[trigger] r@[j]).spec_description() == spec_numbered(
                        j + 1,
                    ),
            decreases n - i,
        {
            r.push(BindParameter::new(i + 1));
            i = i + 1;
        }
        r
    }
}

} // verus!
