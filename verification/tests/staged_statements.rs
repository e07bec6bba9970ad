//! Behaviour of the Insert, Update and Delete Builders and of the schema
//! descriptor itself: first-write-wins staging, shape validation,
//! transposition and the terminal renders.

use prkorm::insert::InsertError;
use prkorm::schema::Schema;

fn customers() -> Schema {
    Schema::new(
        String::from("customers"),
        None,
        String::from("id"),
        vec![
            String::from("id"),
            String::from("first_name"),
            String::from("mobile_number"),
        ],
    )
}

#[test]
fn insert_single_row_two_columns() {
    let q = customers()
        .insert()
        .stage("first_name", "Prakash")
        .stage("mobile_number", "9876543210")
        .build()
        .expect("well-shaped staging must render");
    assert_eq!(
        q,
        "INSERT INTO customers\n(first_name, mobile_number) VALUES ('Prakash', '9876543210')"
    );
}

#[test]
fn insert_restaging_a_column_is_ignored() {
    let q = customers()
        .insert()
        .stage("first_name", "a")
        .stage("first_name", "b")
        .build()
        .expect("well-shaped staging must render");
    assert!(q.contains("'a'"));
    assert!(!q.contains("'b'"));
    assert_eq!(q, "INSERT INTO customers\n(first_name) VALUES ('a')");
}

#[test]
fn insert_uneven_value_counts_fail_with_row_shape_mismatch() {
    let r = customers()
        .insert()
        .stage_values(
            "first_name",
            vec![String::from("a"), String::from("b")],
        )
        .stage("mobile_number", "1")
        .build();
    assert_eq!(
        r,
        Err(InsertError::RowShapeMismatch {
            first_column: String::from("first_name"),
            offending_column: String::from("mobile_number"),
        })
    );
}

#[test]
fn insert_with_nothing_staged_fails_as_malformed() {
    assert_eq!(customers().insert().build(), Err(InsertError::MalformedQuery));
}

#[test]
fn insert_with_zero_rows_fails_as_malformed() {
    let r = customers()
        .insert()
        .stage_values("first_name", Vec::new())
        .build();
    assert_eq!(r, Err(InsertError::MalformedQuery));
}

#[test]
fn insert_multi_row_transposes_in_column_order() {
    let q = customers()
        .insert()
        .stage_values("id", vec![String::from("1"), String::from("2")])
        .stage_values(
            "first_name",
            vec![String::from("Ann"), String::from("Ben")],
        )
        .build()
        .expect("rectangular staging must render");
    assert_eq!(
        q,
        "INSERT INTO customers\n(id, first_name) VALUES ('1', 'Ann'), ('2', 'Ben')"
    );
}

#[test]
fn insert_limit_has_no_effect_on_rendering() {
    let plain = customers().insert().stage("id", "1").build().unwrap();
    let limited = customers()
        .insert()
        .limit(3)
        .stage("id", "1")
        .build()
        .unwrap();
    assert_eq!(plain, limited);
}

#[test]
fn update_renders_set_in_first_write_order() {
    let q = customers()
        .update()
        .stage_value("first_name", "JOHN")
        .stage_value("mobile_number", "42")
        .update_where_column_eq("id", "5");
    assert_eq!(
        q,
        "UPDATE customers SET first_name = 'JOHN', mobile_number = '42' \nWHERE id = '5'"
    );
}

#[test]
fn update_restaging_a_column_is_ignored() {
    let q = customers()
        .update()
        .stage_value("first_name", "JOHN")
        .stage_value("first_name", "WICK")
        .update_where_column_eq("id", "5");
    assert_eq!(q, "UPDATE customers SET first_name = 'JOHN' \nWHERE id = '5'");
}

#[test]
fn update_where_str_embeds_the_predicate_verbatim() {
    let q = customers()
        .update()
        .stage_value("first_name", "X")
        .where_str("mobile_number > 100");
    assert_eq!(
        q,
        "UPDATE customers SET first_name = 'X' WHERE mobile_number > 100"
    );
}

#[test]
fn update_with_nothing_staged_renders_empty_set() {
    let q = customers().update().where_str("id = 1");
    assert_eq!(q, "UPDATE customers SET  WHERE id = 1");
}

#[test]
fn delete_where_column_eq_renders() {
    let q = customers().delete().delete_where_column_eq("id", "5");
    assert_eq!(q, "DELETE FROM customers WHERE id = '5'");
}

#[test]
fn delete_where_str_embeds_the_predicate_verbatim() {
    let q = customers().delete().delete_where_str("id IN (1, 2)");
    assert_eq!(q, "DELETE FROM customers WHERE id IN (1, 2)");
}

#[test]
fn schema_exposes_table_data() {
    let schema = customers();
    assert_eq!(schema.table(), "customers");
    assert_eq!(schema.alias(), "customers");
    assert_eq!(schema.table_primary_key(), "id");
    let columns = schema.columns();
    assert_eq!(columns.len(), 3);
    assert_eq!(columns[0].qualified(), "customers.id");
    assert_eq!(columns[0].bare(), "id");
    assert_eq!(columns[2].qualified(), "customers.mobile_number");
}

#[test]
fn schema_alias_qualifies_columns() {
    let schema = Schema::new(
        String::from("orders"),
        Some(String::from("o")),
        String::from("id"),
        vec![String::from("id")],
    );
    assert_eq!(schema.columns()[0].qualified(), "o.id");
    assert_eq!(schema.alias(), "o");
}

#[test]
fn schema_without_table_context_keeps_bare_names() {
    let schema = Schema::new(
        String::new(),
        None,
        String::new(),
        vec![String::from("id")],
    );
    assert_eq!(schema.columns()[0].qualified(), "id");
}

#[test]
fn schema_selective_factories_seed_the_selected_expression() {
    let schema = customers();
    assert_eq!(
        schema.select_column("customers.id").build(),
        "SELECT customers.id \nFROM customers "
    );
    assert_eq!(
        schema.select_aggregate("count", "customers.id").build(),
        "SELECT COUNT(customers.id) \nFROM customers "
    );
    assert_eq!(
        schema
            .select_aggregate_as("sum", "customers.mobile_number", "total")
            .build(),
        "SELECT SUM(customers.mobile_number) AS total \nFROM customers "
    );
    assert_eq!(
        schema.select_str("1").build(),
        "SELECT 1 \nFROM customers "
    );
    assert_eq!(
        schema.select_str_as("customers.id", "x").build(),
        "SELECT (customers.id) AS x \nFROM customers "
    );
}
