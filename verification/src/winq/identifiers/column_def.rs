use vstd::prelude::*;

use crate::winq::convert::AsExpression;
use crate::winq::identifiers::column::Column;
use crate::winq::identifiers::column_constraint::{spec_primary_key_text, ColumnConstraint};
use crate::winq::identifiers::foreign_key::ForeignKey;
use crate::winq::types::{ColumnType, Conflict, Order};

verus! {

/// The rendering of an optional storage class: a space and the type name.
pub open spec fn spec_type_suffix(t: Option<ColumnType>) -> Seq<char> {
    match t {
        Some(x) => " "@ + x.spec_keyword(),
        None => Seq::empty(),
    }
}

/// One column of a table definition: the column, an optional storage
/// class, and the constraints added so far.
pub struct ColumnDef {
    head: String,
    col_type: Option<ColumnType>,
    tail: String,
}

impl ColumnDef {
    /// The rendered column reference, for specifications.
    pub closed spec fn spec_head(&self) -> Seq<char> {
        self.head@
    }

    /// The storage class, for specifications.
    pub closed spec fn spec_type(&self) -> Option<ColumnType> {
        self.col_type
    }

    /// The rendered constraints, each preceded by a space, for
    /// specifications.
    pub closed spec fn spec_tail(&self) -> Seq<char> {
        self.tail@
    }

    /// The rendered text, for specifications.
    pub open spec fn spec_description(&self) -> Seq<char> {
        self.spec_head() + spec_type_suffix(self.spec_type()) + self.spec_tail()
    }

    /// A definition of `column` without a storage class.
    pub fn with(column: Column) -> (r: ColumnDef)
        ensures
            r.spec_head() == column.spec_description(),
            r.spec_type() is None,
            r.spec_tail().len() == 0,
    {
        ColumnDef { head: column.description(), col_type: None, tail: String::new() }
    }

    /// A definition of `column` with the storage class `column_type`.
    pub fn with_type(column: Column, column_type: ColumnType) -> (r: ColumnDef)
        ensures
            r.spec_head() == column.spec_description(),
            r.spec_type() == Some(column_type),
            r.spec_tail().len() == 0,
    {
        ColumnDef { head: column.description(), col_type: Some(column_type), tail: String::new() }
    }

    /// A definition of the column named `name` without a storage class.
    pub fn named(name: &str) -> (r: ColumnDef)
        ensures
            r.spec_head() == name@,
            r.spec_type() is None,
            r.spec_tail().len() == 0,
    {
        let column = Column::new(name);
        proof {
            assert(column.spec_description() =~= name@);
        }
        ColumnDef::with(column)
    }

    /// A definition of the column named `name` with the storage class
    /// `column_type`.
    pub fn named_with_type(name: &str, column_type: ColumnType) -> (r: ColumnDef)
        ensures
            r.spec_head() == name@,
            r.spec_type() == Some(column_type),
            r.spec_tail().len() == 0,
    {
        let column = Column::new(name);
        proof {
            assert(column.spec_description() =~= name@);
        }
        ColumnDef::with_type(column, column_type)
    }

    /// Adds one constraint.
    pub fn with_constraint(self, constraint: ColumnConstraint) -> (r: ColumnDef)
        ensures
            r.spec_head() == self.spec_head(),
            r.spec_type() == self.spec_type(),
            r.spec_tail() == self.spec_tail() + " "@ + constraint.spec_description(),
    {
        let ColumnDef { head, col_type, mut tail } = self;
        tail.append(" ");
        let rendered = constraint.description();
        tail.append(rendered.as_str());
        ColumnDef { head, col_type, tail }
    }

    /// Adds a primary-key constraint with the collected options, in SQL
    /// grammar order: direction, conflict action, autoincrement.
    pub fn primary_key(self, primary_key: ColumnDefPrimaryKey) -> (r: ColumnDef)
        ensures
            r.spec_head() == self.spec_head(),
            r.spec_type() == self.spec_type(),
            r.spec_tail() == self.spec_tail() + " "@ + spec_primary_key_text(
                primary_key.spec_order(),
                primary_key.spec_conflict(),
                primary_key.spec_auto(),
            ),
    {
        let constraint = ColumnConstraint::new().primary_key();
        let constraint = match primary_key.order_by {
            Some(order) => constraint.order(order),
            None => constraint,
        };
        let auto = match primary_key.is_auto_increment {
            Some(flag) => flag,
            None => false,
        };
        let constraint = if auto {
            constraint.auto_increment()
        } else {
            constraint
        };
        let constraint = match primary_key.on_conflict {
            Some(conflict) => constraint.conflict(conflict),
            None => constraint,
        };
        proof {
            assert(constraint.spec_description() == spec_primary_key_text(
                primary_key.spec_order(),
                primary_key.spec_conflict(),
                primary_key.spec_auto(),
            ));
        }
        self.with_constraint(constraint)
    }

    /// Adds a default-value constraint.
    pub fn default<T: AsExpression>(self, value: T) -> (r: ColumnDef)
        ensures
            r.spec_head() == self.spec_head(),
            r.spec_type() == self.spec_type(),
            r.spec_tail() == self.spec_tail() + " "@ + ("DEFAULT "@ + value.expression_text()),
    {
        let constraint = ColumnConstraint::new().default(value);
        self.with_constraint(constraint)
    }

    /// Adds a not-null constraint.
    pub fn not_null(self) -> (r: ColumnDef)
        ensures
            r.spec_head() == self.spec_head(),
            r.spec_type() == self.spec_type(),
            r.spec_tail() == self.spec_tail() + " "@ + "NOT NULL"@,
    {
        let constraint = ColumnConstraint::new().not_null();
        proof {
            assert(constraint.spec_description() =~= "NOT NULL"@);
        }
        self.with_constraint(constraint)
    }

    /// Adds a unique constraint.
    pub fn unique(self) -> (r: ColumnDef)
        ensures
            r.spec_head() == self.spec_head(),
            r.spec_type() == self.spec_type(),
            r.spec_tail() == self.spec_tail() + " "@ + "UNIQUE"@,
    {
        let constraint = ColumnConstraint::new().unique();
        proof {
            assert(constraint.spec_description() =~= "UNIQUE"@);
        }
        self.with_constraint(constraint)
    }

    /// Adds a foreign-key constraint.
    pub fn foreign_key(self, foreign_key: ForeignKey) -> (r: ColumnDef)
        ensures
            r.spec_head() == self.spec_head(),
            r.spec_type() == self.spec_type(),
            r.spec_tail() == self.spec_tail() + " "@ + foreign_key.spec_description(),
    {
        let constraint = ColumnConstraint::new().foreign_key(foreign_key);
        self.with_constraint(constraint)
    }

    /// Excludes the column from full-text indexing.
    pub fn un_indexed(self) -> (r: ColumnDef)
        ensures
            r.spec_head() == self.spec_head(),
            r.spec_type() == self.spec_type(),
            r.spec_tail() == self.spec_tail() + " "@ + "UNINDEXED"@,
    {
        let constraint = ColumnConstraint::new().un_indexed();
        proof {
            assert(constraint.spec_description() =~= "UNINDEXED"@);
        }
        self.with_constraint(constraint)
    }

    /// The rendered text of this definition.
    pub fn description(&self) -> (r: String)
        ensures
            r@ == self.spec_description(),
    {
        let mut out = self.head.clone();
        match self.col_type {
            Some(t) => {
                out.append(" ");
                out.append(t.keyword());
            },
            None => {},
        }
        out.append(self.tail.as_str());
        proof {
            assert(out@ =~= self.spec_description());
        }
        out
    }
}

/// The options of a primary-key constraint built through
/// [`ColumnDef::primary_key`].
pub struct ColumnDefPrimaryKey {
    order_by: Option<Order>,
    is_auto_increment: Option<bool>,
    on_conflict: Option<Conflict>,
}

impl ColumnDefPrimaryKey {
    /// The sort direction option, for specifications.
    pub closed spec fn spec_order(&self) -> Option<Order> {
        self.order_by
    }

    /// Whether autoincrement was requested, for specifications.
    pub closed spec fn spec_auto(&self) -> bool {
        self.is_auto_increment == Some(true)
    }

    /// The conflict-action option, for specifications.
    pub closed spec fn spec_conflict(&self) -> Option<Conflict> {
        self.on_conflict
    }

    /// No options.
    pub fn new() -> (r: ColumnDefPrimaryKey)
        ensures
            r.spec_order() is None,
            !r.spec_auto(),
            r.spec_conflict() is None,
    {
        ColumnDefPrimaryKey { order_by: None, is_auto_increment: None, on_conflict: None }
    }

    /// Sets the sort direction.
    pub fn order(self, order: Order) -> (r: ColumnDefPrimaryKey)
        ensures
            r.spec_order() == Some(order),
            r.spec_auto() == self.spec_auto(),
            r.spec_conflict() == self.spec_conflict(),
    {
        ColumnDefPrimaryKey { order_by: Some(order), ..self }
    }

    /// Requests autoincrement.
    pub fn auto_increment(self) -> (r: ColumnDefPrimaryKey)
        ensures
            r.spec_auto(),
            r.spec_order() == self.spec_order(),
            r.spec_conflict() == self.spec_conflict(),
    {
        ColumnDefPrimaryKey { is_auto_increment: Some(true), ..self }
    }

    /// Sets the conflict action.
    pub fn on_conflict(self, conflict: Conflict) -> (r: ColumnDefPrimaryKey)
        ensures
            r.spec_conflict() == Some(conflict),
            r.spec_order() == self.spec_order(),
            r.spec_auto() == self.spec_auto(),
    {
        ColumnDefPrimaryKey { on_conflict: Some(conflict), ..self }
    }
}

} // verus!
