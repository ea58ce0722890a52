//! The syntax-node types: columns, constraints, definitions and the small
//! leaf clauses they are built from.

pub mod bind;
pub mod column;
pub mod column_constraint;
pub mod column_def;
pub mod common_table_expression;
pub mod expression;
pub mod foreign_key;
pub mod indexed_column;
pub mod literal_value;
pub mod qualified_table;
pub mod result_column;
pub mod schema;
pub mod table_or_subquery;
