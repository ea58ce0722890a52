use wcdb::winq::identifiers::bind::BindParameter;
use wcdb::winq::identifiers::column::Column;
use wcdb::winq::identifiers::column_constraint::ColumnConstraint;
use wcdb::winq::identifiers::column_def::{ColumnDef, ColumnDefPrimaryKey};
use wcdb::winq::identifiers::common_table_expression::CommonTableExpression;
use wcdb::winq::identifiers::foreign_key::ForeignKey;
use wcdb::winq::identifiers::literal_value::LiteralValue;
use wcdb::winq::types::{ColumnType, Conflict, Order, TransactionType};

#[test]
fn test_bind_parameter() {
    assert_eq!(BindParameter::new(1).description(), "?1");
    assert_eq!(BindParameter::named("name").description(), ":name");
    assert_eq!(BindParameter::at("name").description(), "@name");
    assert_eq!(BindParameter::colon("name").description(), ":name");
    assert_eq!(BindParameter::dollar("name").description(), "$name");

    assert_eq!(BindParameter::def().description(), "?");
    assert_eq!(BindParameter::_1().description(), "?1");
    assert_eq!(BindParameter::_2().description(), "?2");
    assert_eq!(BindParameter::_3().description(), "?3");
    assert_eq!(BindParameter::_4().description(), "?4");
    assert_eq!(BindParameter::_5().description(), "?5");
    assert_eq!(BindParameter::_6().description(), "?6");
    assert_eq!(BindParameter::_7().description(), "?7");
    assert_eq!(BindParameter::_8().description(), "?8");
    assert_eq!(BindParameter::_9().description(), "?9");
    assert_eq!(BindParameter::_10().description(), "?10");
    assert_eq!(BindParameter::_11().description(), "?11");
    assert_eq!(BindParameter::_12().description(), "?12");
    assert_eq!(BindParameter::_13().description(), "?13");
    assert_eq!(BindParameter::_14().description(), "?14");
    assert_eq!(BindParameter::_15().description(), "?15");

    let params = BindParameter::bind_parameters(3);
    assert_eq!(params.len(), 3);
    assert_eq!(params[0].description(), "?1");
    assert_eq!(params[1].description(), "?2");
    assert_eq!(params[2].description(), "?3");
}

#[test]
fn test_column() {
    assert_eq!(Column::new("name").description(), "name");
    assert_eq!(Column::all().description(), "*");
    assert_eq!(Column::rowid().description(), "rowid");
    assert_eq!(Column::new("name").in_table("table").description(), "table.name");
    assert_eq!(Column::new("name").as_alias("alias").description(), "name AS alias");
    assert_eq!(
        Column::new("name").in_table("t").as_alias("alias").description(),
        "t.name AS alias"
    );
}

#[test]
fn test_column_constraint() {
    assert_eq!(ColumnConstraint::new().description(), "");

    assert_eq!(ColumnConstraint::new().primary_key().description(), "PRIMARY KEY");
    assert_eq!(
        ColumnConstraint::named("name").primary_key().description(),
        "CONSTRAINT name PRIMARY KEY"
    );

    assert_eq!(
        ColumnConstraint::new().primary_key().order(Order::Asc).description(),
        "PRIMARY KEY ASC"
    );
    assert_eq!(
        ColumnConstraint::new().primary_key().conflict(Conflict::Abort).description(),
        "PRIMARY KEY ON CONFLICT ABORT"
    );
    assert_eq!(
        ColumnConstraint::new().primary_key().auto_increment().description(),
        "PRIMARY KEY AUTOINCREMENT"
    );

    assert_eq!(ColumnConstraint::new().not_null().description(), "NOT NULL");
    assert_eq!(ColumnConstraint::new().unique().description(), "UNIQUE");
    assert_eq!(
        ColumnConstraint::named("name").collate("BINARY").description(),
        "CONSTRAINT name COLLATE BINARY"
    );
}

#[test]
fn test_column_def() {
    assert_eq!(
        ColumnDef::named_with_type("name", ColumnType::Float).description(),
        "name REAL"
    );
    assert_eq!(
        ColumnDef::named_with_type("name", ColumnType::Text).description(),
        "name TEXT"
    );
    assert_eq!(
        ColumnDef::named_with_type("name", ColumnType::Blob).description(),
        "name BLOB"
    );
    assert_eq!(
        ColumnDef::named_with_type("name", ColumnType::Null).description(),
        "name NULL"
    );

    let new_column_def = || ColumnDef::named_with_type("name", ColumnType::Integer32);
    assert_eq!(
        new_column_def().primary_key(ColumnDefPrimaryKey::new()).description(),
        "name INTEGER PRIMARY KEY"
    );
    assert_eq!(
        new_column_def()
            .primary_key(ColumnDefPrimaryKey::new().order(Order::Asc))
            .description(),
        "name INTEGER PRIMARY KEY ASC"
    );
    assert_eq!(
        new_column_def()
            .primary_key(ColumnDefPrimaryKey::new().auto_increment())
            .description(),
        "name INTEGER PRIMARY KEY AUTOINCREMENT"
    );
    assert_eq!(
        new_column_def()
            .primary_key(ColumnDefPrimaryKey::new().on_conflict(Conflict::Abort))
            .description(),
        "name INTEGER PRIMARY KEY ON CONFLICT ABORT"
    );
}

#[test]
fn more_column_def_constraints() {
    assert_eq!(
        ColumnDef::named("age").not_null().unique().description(),
        "age NOT NULL UNIQUE"
    );
    assert_eq!(
        ColumnDef::named_with_type("age", ColumnType::Integer64)
            .default(18i64)
            .description(),
        "age INTEGER DEFAULT 18"
    );
    assert_eq!(
        ColumnDef::named("owner")
            .foreign_key(ForeignKey::references("users").column("id"))
            .description(),
        "owner REFERENCES users(id)"
    );
    assert_eq!(ColumnDef::named("body").un_indexed().description(), "body UNINDEXED");
}

#[test]
fn literals_and_expressions() {
    assert_eq!(LiteralValue::integer(0).description(), "0");
    assert_eq!(LiteralValue::integer(-42).description(), "-42");
    assert_eq!(LiteralValue::integer(9007).description(), "9007");
    assert_eq!(LiteralValue::text("it's").description(), "'it''s'");
    assert_eq!(LiteralValue::text("").description(), "''");
    assert_eq!(LiteralValue::boolean(true).description(), "1");
    assert_eq!(LiteralValue::boolean(false).description(), "0");
    assert_eq!(LiteralValue::null().description(), "NULL");
    assert_eq!(
        ColumnDef::named("note").default("it's").description(),
        "note DEFAULT 'it''s'"
    );
}

#[test]
fn syntax_codes() {
    assert_eq!(Order::Asc.c(), 0);
    assert_eq!(Order::Desc.c(), 1);
    assert_eq!(Conflict::Rollback.c(), 0);
    assert_eq!(Conflict::Replace.c(), 4);
    assert_eq!(ColumnType::Integer32.c(), ColumnType::Integer64.c());
    assert_ne!(ColumnType::Integer32.c(), ColumnType::Float.c());
    assert_eq!(TransactionType::Deferred.c(), 0);
    assert_eq!(TransactionType::Immediate.c(), 1);
    assert_eq!(TransactionType::Exclusive.c(), 2);
}

#[test]
fn common_table_expression_columns() {
    assert_eq!(CommonTableExpression::new("cte").description(), "cte");
    assert_eq!(
        CommonTableExpression::new("cte")
            .column(Column::new("a"))
            .column(Column::new("b"))
            .description(),
        "cte(a, b)"
    );
}
