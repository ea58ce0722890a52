use vstd::prelude::*;

use crate::winq::identifiers::column::Column;
use crate::winq::identifiers::column_def::ColumnDef;
use crate::winq::identifiers::expression::Expression;
use crate::winq::identifiers::indexed_column::IndexedColumn;
use crate::winq::identifiers::literal_value::LiteralValue;
use crate::winq::identifiers::qualified_table::QualifiedTable;
use crate::winq::identifiers::result_column::ResultColumn;
use crate::winq::identifiers::schema::Schema;
use crate::winq::identifiers::table_or_subquery::TableOrSubquery;
use crate::winq::text::{spec_dec, spec_quoted};
use crate::winq::types::{ColumnType, Order};

verus! {

/// A value usable as a column definition once a storage class is given.
pub trait AsColumnDef: Sized {
    /// The rendered column reference this value stands for.
    spec fn def_column_text(&self) -> Seq<char>;

    /// This value as a column definition of the given storage class.
    fn as_def(self, column_type: ColumnType) -> (r: ColumnDef)
        ensures
            r.spec_head() == self.def_column_text(),
            r.spec_type() == Some(column_type),
            r.spec_tail().len() == 0,
    ;
}

/// A value usable as a column of an index.
pub trait AsIndexedColumn: Sized {
    /// The rendered text this value stands for.
    spec fn index_text(&self) -> Seq<char>;

    /// This value as an indexed column.
    fn as_index(self) -> (r: IndexedColumn)
        ensures
            r.spec_description() == self.index_text(),
    ;
}

/// A value usable as a column of an index with a sort direction.
pub trait AsOrderedIndexedColumn: Sized {
    /// The rendered text this value stands for, before the direction.
    spec fn ordered_index_text(&self) -> Seq<char>;

    /// This value as an indexed column with the given direction.
    fn as_ordered_index(self, order: Order) -> (r: IndexedColumn)
        ensures
            r.spec_description() == self.ordered_index_text() + " "@ + order.spec_keyword(),
    ;
}

/// A value usable as one column of a result set.
pub trait AsResultColumn: Sized {
    /// The rendered text this value stands for.
    spec fn result_text(&self) -> Seq<char>;

    /// This value as a result column.
    fn as_result_column(self) -> (r: ResultColumn)
        ensures
            r.spec_description() == self.result_text(),
    ;
}

/// A value usable as a schema qualifier.
pub trait AsSchema: Sized {
    /// The schema name this value stands for.
    spec fn schema_text(&self) -> Seq<char>;

    /// This value as a schema clause.
    fn as_schema(self) -> (r: Schema)
        ensures
            r.spec_description() == self.schema_text(),
    ;
}

/// A value usable as the target table of an update or delete.
pub trait AsQualifiedTable: Sized {
    /// The rendered text this value stands for.
    spec fn qualified_table_text(&self) -> Seq<char>;

    /// This value as a qualified table.
    fn as_qualified_table(self) -> (r: QualifiedTable)
        ensures
            r.spec_description() == self.qualified_table_text(),
    ;
}

/// A value usable as the source table of a query.
pub trait AsTableOrSubquery: Sized {
    /// The rendered text this value stands for.
    spec fn subquery_text(&self) -> Seq<char>;

    /// This value as a source table.
    fn as_table_or_subquery(self) -> (r: TableOrSubquery)
        ensures
            r.spec_description() == self.subquery_text(),
    ;
}

/// A value usable as an SQL expression.
pub trait AsExpression: Sized {
    /// The rendered text this value stands for.
    spec fn expression_text(&self) -> Seq<char>;

    /// This value as an expression.
    fn as_expression(self) -> (r: Expression)
        ensures
            r.spec_description() == self.expression_text(),
    ;
}

/// A value usable as an SQL literal.
pub trait AsLiteralValue: Sized {
    /// The rendered text this value stands for.
    spec fn literal_text(&self) -> Seq<char>;

    /// This value as a literal.
    fn as_literal_value(self) -> (r: LiteralValue)
        ensures
            r.spec_description() == self.literal_text(),
    ;
}

impl AsSchema for Schema {
    open spec fn schema_text(&self) -> Seq<char> {
        self.spec_description()
    }

    fn as_schema(self) -> (r: Schema)
        ensures
            r.spec_description() == self.schema_text(),
    {
        self
    }
}

impl<'a> AsSchema for &'a str {
    open spec fn schema_text(&self) -> Seq<char> {
        self@
    }

    fn as_schema(self) -> (r: Schema)
        ensures
            r.spec_description() == self.schema_text(),
    {
        Schema::new(self)
    }
}

impl AsColumnDef for Column {
    open spec fn def_column_text(&self) -> Seq<char> {
        self.spec_description()
    }

    fn as_def(self, column_type: ColumnType) -> (r: ColumnDef)
        ensures
            r.spec_head() == self.def_column_text(),
            r.spec_type() == Some(column_type),
            r.spec_tail().len() == 0,
    {
        ColumnDef::with_type(self, column_type)
    }
}

impl AsIndexedColumn for Column {
    open spec fn index_text(&self) -> Seq<char> {
        self.spec_description()
    }

    fn as_index(self) -> (r: IndexedColumn)
        ensures
            r.spec_description() == self.index_text(),
    {
        IndexedColumn::from_rendered(self.description())
    }
}

impl AsOrderedIndexedColumn for Column {
    open spec fn ordered_index_text(&self) -> Seq<char> {
        self.spec_description()
    }

    fn as_ordered_index(self, order: Order) -> (r: IndexedColumn)
        ensures
            r.spec_description() == self.ordered_index_text() + " "@ + order.spec_keyword(),
    {
        let mut out = self.description();
        out.append(" ");
        out.append(order.keyword());
        IndexedColumn::from_rendered(out)
    }
}

impl AsResultColumn for Column {
    open spec fn result_text(&self) -> Seq<char> {
        self.spec_description()
    }

    fn as_result_column(self) -> (r: ResultColumn)
        ensures
            r.spec_description() == self.result_text(),
    {
        ResultColumn::from_rendered(self.description())
    }
}

impl AsResultColumn for ResultColumn {
    open spec fn result_text(&self) -> Seq<char> {
        self.spec_description()
    }

    fn as_result_column(self) -> (r: ResultColumn)
        ensures
            r.spec_description() == self.result_text(),
    {
        self
    }
}

impl AsQualifiedTable for QualifiedTable {
    open spec fn qualified_table_text(&self) -> Seq<char> {
        self.spec_description()
    }

    fn as_qualified_table(self) -> (r: QualifiedTable)
        ensures
            r.spec_description() == self.qualified_table_text(),
    {
        self
    }
}

impl<'a> AsQualifiedTable for &'a str {
    open spec fn qualified_table_text(&self) -> Seq<char> {
        self@
    }

    fn as_qualified_table(self) -> (r: QualifiedTable)
        ensures
            r.spec_description() == self.qualified_table_text(),
    {
        QualifiedTable::new(self)
    }
}

impl AsTableOrSubquery for TableOrSubquery {
    open spec fn subquery_text(&self) -> Seq<char> {
        self.spec_description()
    }

    fn as_table_or_subquery(self) -> (r: TableOrSubquery)
        ensures
            r.spec_description() == self.subquery_text(),
    {
        self
    }
}

impl<'a> AsTableOrSubquery for &'a str {
    open spec fn subquery_text(&self) -> Seq<char> {
        self@
    }

    fn as_table_or_subquery(self) -> (r: TableOrSubquery)
        ensures
            r.spec_description() == self.subquery_text(),
    {
        TableOrSubquery::new(self)
    }
}

impl AsExpression for Expression {
    open spec fn expression_text(&self) -> Seq<char> {
        self.spec_description()
    }

    fn as_expression(self) -> (r: Expression)
        ensures
            r.spec_description() == self.expression_text(),
    {
        self
    }
}

impl AsExpression for LiteralValue {
    open spec fn expression_text(&self) -> Seq<char> {
        self.spec_description()
    }

    fn as_expression(self) -> (r: Expression)
        ensures
            r.spec_description() == self.expression_text(),
    {
        Expression::literal(self)
    }
}

impl AsExpression for i64 {
    open spec fn expression_text(&self) -> Seq<char> {
        spec_dec(*self as int)
    }

    fn as_expression(self) -> (r: Expression)
        ensures
            r.spec_description() == self.expression_text(),
    {
        Expression::literal(LiteralValue::integer(self))
    }
}

impl<'a> AsExpression for &'a str {
    open spec fn expression_text(&self) -> Seq<char> {
        spec_quoted(self@)
    }

    fn as_expression(self) -> (r: Expression)
        ensures
            r.spec_description() == self.expression_text(),
    {
        Expression::literal(LiteralValue::text(self))
    }
}

impl AsExpression for bool {
    open spec fn expression_text(&self) -> Seq<char> {
        if *self {
            "1"@
        } else {
            "0"@
        }
    }

    fn as_expression(self) -> (r: Expression)
        ensures
            r.spec_description() == self.expression_text(),
    {
        Expression::literal(LiteralValue::boolean(self))
    }
}

impl AsLiteralValue for i64 {
    open spec fn literal_text(&self) -> Seq<char> {
        spec_dec(*self as int)
    }

    fn as_literal_value(self) -> (r: LiteralValue)
        ensures
            r.spec_description() == self.literal_text(),
    {
        LiteralValue::integer(self)
    }
}

impl<'a> AsLiteralValue for &'a str {
    open spec fn literal_text(&self) -> Seq<char> {
        spec_quoted(self@)
    }

    fn as_literal_value(self) -> (r: LiteralValue)
        ensures
            r.spec_description() == self.literal_text(),
    {
        LiteralValue::text(self)
    }
}

impl AsLiteralValue for bool {
    open spec fn literal_text(&self) -> Seq<char> {
        if *self {
            "1"@
        } else {
            "0"@
        }
    }

    fn as_literal_value(self) -> (r: LiteralValue)
        ensures
            r.spec_description() == self.literal_text(),
    {
        LiteralValue::boolean(self)
    }
}

} // verus!
