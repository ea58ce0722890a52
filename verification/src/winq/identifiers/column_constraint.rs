use vstd::prelude::*;

use crate::winq::convert::AsExpression;
use crate::winq::identifiers::expression::Expression;
use crate::winq::identifiers::foreign_key::ForeignKey;
use crate::winq::types::{Conflict, Order};

verus! {

/// What a column constraint demands, at the specification level; rendered
/// clauses carry their text.
pub enum ConstraintBody {
    PrimaryKey,
    NotNull,
    Unique,
    Check(Seq<char>),
    DefaultValue(Seq<char>),
    Collate(Seq<char>),
    References(Seq<char>),
    UnIndexed,
}

enum Body {
    PrimaryKey,
    NotNull,
    Unique,
    Check(String),
    DefaultValue(String),
    Collate(String),
    References(String),
    UnIndexed,
}

/// The rendering of an optional sort direction: a space and the keyword.
pub open spec fn spec_order_suffix(o: Option<Order>) -> Seq<char> {
    match o {
        Some(x) => " "@ + x.spec_keyword(),
        None => Seq::empty(),
    }
}

/// The rendering of an optional conflict action: ` ON CONFLICT` and the
/// keyword.
pub open spec fn spec_conflict_suffix(c: Option<Conflict>) -> Seq<char> {
    match c {
        Some(x) => " ON CONFLICT "@ + x.spec_keyword(),
        None => Seq::empty(),
    }
}

/// The rendering of the autoincrement flag.
pub open spec fn spec_auto_suffix(auto_increment: bool) -> Seq<char> {
    if auto_increment {
        " AUTOINCREMENT"@
    } else {
        Seq::empty()
    }
}

/// The rendering of a primary-key body with its options, in SQL grammar
/// order: direction, conflict action, autoincrement.
pub open spec fn spec_primary_key_text(
    order: Option<Order>,
    conflict: Option<Conflict>,
    auto_increment: bool,
) -> Seq<char> {
    "PRIMARY KEY"@ + spec_order_suffix(order) + spec_conflict_suffix(conflict) + spec_auto_suffix(
        auto_increment,
    )
}

/// One constraint of a column definition: an optional `CONSTRAINT` name
/// and one demand with its options.
pub struct ColumnConstraint {
    name: Option<String>,
    body: Option<Body>,
    order: Option<Order>,
    conflict: Option<Conflict>,
    auto_increment: bool,
}

impl ColumnConstraint {
    /// The constraint's name, for specifications.
    pub closed spec fn spec_name(&self) -> Option<Seq<char>> {
        match self.name {
            Some(ref n) => Some(n@),
            None => None,
        }
    }

    /// The constraint's demand, for specifications.
    pub closed spec fn spec_body(&self) -> Option<ConstraintBody> {
        match self.body {
            None => None,
            Some(Body::PrimaryKey) => Some(ConstraintBody::PrimaryKey),
            Some(Body::NotNull) => Some(ConstraintBody::NotNull),
            Some(Body::Unique) => Some(ConstraintBody::Unique),
            Some(Body::Check(ref e)) => Some(ConstraintBody::Check(e@)),
            Some(Body::DefaultValue(ref e)) => Some(ConstraintBody::DefaultValue(e@)),
            Some(Body::Collate(ref c)) => Some(ConstraintBody::Collate(c@)),
            Some(Body::References(ref f)) => Some(ConstraintBody::References(f@)),
            Some(Body::UnIndexed) => Some(ConstraintBody::UnIndexed),
        }
    }

    /// The sort direction option, for specifications.
    pub closed spec fn spec_order(&self) -> Option<Order> {
        self.order
    }

    /// The conflict-action option, for specifications.
    pub closed spec fn spec_conflict(&self) -> Option<Conflict> {
        self.conflict
    }

    /// The autoincrement flag, for specifications.
    pub closed spec fn spec_auto(&self) -> bool {
        self.auto_increment
    }

    /// The rendering of the demand with its options, for specifications.
    pub open spec fn spec_body_text(&self) -> Seq<char> {
        match self.spec_body() {
            None => Seq::empty(),
            Some(ConstraintBody::PrimaryKey) => spec_primary_key_text(
                self.spec_order(),
                self.spec_conflict(),
                self.spec_auto(),
            ),
            Some(ConstraintBody::NotNull) => "NOT NULL"@ + spec_conflict_suffix(
                self.spec_conflict(),
            ),
            Some(ConstraintBody::Unique) => "UNIQUE"@ + spec_conflict_suffix(
                self.spec_conflict(),
            ),
            Some(ConstraintBody::Check(e)) => "CHECK("@ + e + ")"@,
            Some(ConstraintBody::DefaultValue(e)) => "DEFAULT "@ + e,
            Some(ConstraintBody::Collate(c)) => "COLLATE "@ + c,
            Some(ConstraintBody::References(f)) => f,
            Some(ConstraintBody::UnIndexed) => "UNINDEXED"@,
        }
    }

    /// The rendered text, for specifications: the `CONSTRAINT` name, if
    /// any, then the demand.
    pub open spec fn spec_description(&self) -> Seq<char> {
        match self.spec_name() {
            Some(n) => "CONSTRAINT "@ + n + (if self.spec_body() is None {
                Seq::empty()
            } else {
                " "@ + self.spec_body_text()
            }),
            None => self.spec_body_text(),
        }
    }

    /// An anonymous constraint with no demand yet.
    pub fn new() -> (r: ColumnConstraint)
        ensures
            r.spec_name() is None,
            r.spec_body() is None,
            r.spec_order() is None,
            r.spec_conflict() is None,
            !r.spec_auto(),
    {
        ColumnConstraint { name: None, body: None, order: None, conflict: None, auto_increment: false }
    }

    /// A named constraint with no demand yet.
    pub fn named(name: &str) -> (r: ColumnConstraint)
        ensures
            r.spec_name() == Some(name@),
            r.spec_body() is None,
            r.spec_order() is None,
            r.spec_conflict() is None,
            !r.spec_auto(),
    {
        ColumnConstraint {
            name: Some(name.to_owned()),
            body: None,
            order: None,
            conflict: None,
            auto_increment: false,
        }
    }

    /// Demands a primary key.
    pub fn primary_key(self) -> (r: ColumnConstraint)
        ensures
            r.spec_body() == Some(ConstraintBody::PrimaryKey),
            r.spec_name() == self.spec_name(),
            r.spec_order() == self.spec_order(),
            r.spec_conflict() == self.spec_conflict(),
            r.spec_auto() == self.spec_auto(),
    {
        ColumnConstraint { body: Some(Body::PrimaryKey), ..self }
    }

    /// Sets the sort direction of a primary key.
    pub fn order(self, order: Order) -> (r: ColumnConstraint)
        ensures
            r.spec_order() == Some(order),
            r.spec_name() == self.spec_name(),
            r.spec_body() == self.spec_body(),
            r.spec_conflict() == self.spec_conflict(),
            r.spec_auto() == self.spec_auto(),
    {
        ColumnConstraint { order: Some(order), ..self }
    }

    /// Sets the conflict action.
    pub fn conflict(self, conflict: Conflict) -> (r: ColumnConstraint)
        ensures
            r.spec_conflict() == Some(conflict),
            r.spec_name() == self.spec_name(),
            r.spec_body() == self.spec_body(),
            r.spec_order() == self.spec_order(),
            r.spec_auto() == self.spec_auto(),
    {
        ColumnConstraint { conflict: Some(conflict), ..self }
    }

    /// Marks a primary key as autoincrementing.
    pub fn auto_increment(self) -> (r: ColumnConstraint)
        ensures
            r.spec_auto(),
            r.spec_name() == self.spec_name(),
            r.spec_body() == self.spec_body(),
            r.spec_order() == self.spec_order(),
            r.spec_conflict() == self.spec_conflict(),
    {
        ColumnConstraint { auto_increment: true, ..self }
    }

    /// Demands non-null values.
    pub fn not_null(self) -> (r: ColumnConstraint)
        ensures
            r.spec_body() == Some(ConstraintBody::NotNull),
            r.spec_name() == self.spec_name(),
            r.spec_order() == self.spec_order(),
            r.spec_conflict() == self.spec_conflict(),
            r.spec_auto() == self.spec_auto(),
    {
        ColumnConstraint { body: Some(Body::NotNull), ..self }
    }

    /// Demands unique values.
    pub fn unique(self) -> (r: ColumnConstraint)
        ensures
            r.spec_body() == Some(ConstraintBody::Unique),
            r.spec_name() == self.spec_name(),
            r.spec_order() == self.spec_order(),
            r.spec_conflict() == self.spec_conflict(),
            r.spec_auto() == self.spec_auto(),
    {
        ColumnConstraint { body: Some(Body::Unique), ..self }
    }

    /// Demands that an expression hold.
    pub fn check(self, expr: Expression) -> (r: ColumnConstraint)
        ensures
            r.spec_body() == Some(ConstraintBody::Check(expr.spec_description())),
            r.spec_name() == self.spec_name(),
            r.spec_order() == self.spec_order(),
            r.spec_conflict() == self.spec_conflict(),
            r.spec_auto() == self.spec_auto(),
    {
        ColumnConstraint { body: Some(Body::Check(expr.description())), ..self }
    }

    /// Sets a default value.
    pub fn default<T: AsExpression>(self, expr: T) -> (r: ColumnConstraint)
        ensures
            r.spec_body() == Some(ConstraintBody::DefaultValue(expr.expression_text())),
            r.spec_name() == self.spec_name(),
            r.spec_order() == self.spec_order(),
            r.spec_conflict() == self.spec_conflict(),
            r.spec_auto() == self.spec_auto(),
    {
        self.default_inner(expr.as_expression())
    }

    fn default_inner(self, expr: Expression) -> (r: ColumnConstraint)
        ensures
            r.spec_body() == Some(ConstraintBody::DefaultValue(expr.spec_description())),
            r.spec_name() == self.spec_name(),
            r.spec_order() == self.spec_order(),
            r.spec_conflict() == self.spec_conflict(),
            r.spec_auto() == self.spec_auto(),
    {
        ColumnConstraint { body: Some(Body::DefaultValue(expr.description())), ..self }
    }

    /// Sets a collation.
    pub fn collate(self, name: &str) -> (r: ColumnConstraint)
        ensures
            r.spec_body() == Some(ConstraintBody::Collate(name@)),
            r.spec_name() == self.spec_name(),
            r.spec_order() == self.spec_order(),
            r.spec_conflict() == self.spec_conflict(),
            r.spec_auto() == self.spec_auto(),
    {
        ColumnConstraint { body: Some(Body::Collate(name.to_owned())), ..self }
    }

    /// Demands a foreign key.
    pub fn foreign_key(self, key: ForeignKey) -> (r: ColumnConstraint)
        ensures
            r.spec_body() == Some(ConstraintBody::References(key.spec_description())),
            r.spec_name() == self.spec_name(),
            r.spec_order() == self.spec_order(),
            r.spec_conflict() == self.spec_conflict(),
            r.spec_auto() == self.spec_auto(),
    {
        ColumnConstraint { body: Some(Body::References(key.description())), ..self }
    }

    /// Excludes the column from full-text indexing.
    pub fn un_indexed(self) -> (r: ColumnConstraint)
        ensures
            r.spec_body() == Some(ConstraintBody::UnIndexed),
            r.spec_name() == self.spec_name(),
            r.spec_order() == self.spec_order(),
            r.spec_conflict() == self.spec_conflict(),
            r.spec_auto() == self.spec_auto(),
    {
        ColumnConstraint { body: Some(Body::UnIndexed), ..self }
    }

    /// The rendered text of this constraint.
    pub fn description(&self) -> (r: String)
        ensures
            r@ == self.spec_description(),
    {
        let mut out = String::new();
        let has_body = self.body.is_some();
        match &self.name {
            Some(n) => {
                out.append("CONSTRAINT ");
                out.append(n.as_str());
                if has_body {
                    out.append(" ");
                }
            },
            None => {},
        }
        match &self.body {
            None => {},
            Some(Body::PrimaryKey) => {
                out.append("PRIMARY KEY");
                self.append_pk_options(&mut out);
            },
            Some(Body::NotNull) => {
                out.append("NOT NULL");
                self.append_conflict(&mut out);
            },
            Some(Body::Unique) => {
                out.append("UNIQUE");
                self.append_conflict(&mut out);
            },
            Some(Body::Check(e)) => {
                out.append("CHECK(");
                out.append(e.as_str());
                out.append(")");
            },
            Some(Body::DefaultValue(e)) => {
                out.append("DEFAULT ");
                out.append(e.as_str());
            },
            Some(Body::Collate(c)) => {
                out.append("COLLATE ");
                out.append(c.as_str());
            },
            Some(Body::References(f)) => {
                out.append(f.as_str());
            },
            Some(Body::UnIndexed) => {
                out.append("UNINDEXED");
            },
        }
        proof {
            assert(out@ =~= self.spec_description());
        }
        out
    }

    /// Appends the primary-key options in grammar order.
    fn append_pk_options(&self, out: &mut String)
        ensures
            final(out)@ == old(out)@ + spec_order_suffix(self.spec_order())
                + spec_conflict_suffix(self.spec_conflict()) + spec_auto_suffix(self.spec_auto()),
    {
        match &self.order {
            Some(o) => {
                out.append(" ");
                out.append(o.keyword());
            },
            None => {},
        }
        self.append_conflict(out);
        if self.auto_increment {
            out.append(" AUTOINCREMENT");
        }
        proof {
            assert(out@ =~= old(out)@ + spec_order_suffix(self.spec_order())
                + spec_conflict_suffix(self.spec_conflict()) + spec_auto_suffix(
                self.spec_auto(),
            ));
        }
    }

    /// Appends the conflict clause, if one is set.
    fn append_conflict(&self, out: &mut String)
        ensures
            final(out)@ == old(out)@ + spec_conflict_suffix(self.spec_conflict()),
    {
        match &self.conflict {
            Some(c) => {
                out.append(" ON CONFLICT ");
                out.append(c.keyword());
                proof {
                    assert(out@ =~= old(out)@ + spec_conflict_suffix(
                        self.spec_conflict(),
                    ));
                }
            },
            None => {},
        }
    }
}

} // verus!
