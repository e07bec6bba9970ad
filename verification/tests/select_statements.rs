//! Behaviour of the Select Builder through the public API: seeding, chained
//! fragment accumulation, clause order, alias suppression and rendering.

use prkorm::schema::Schema;

fn orders() -> Schema {
    Schema::new(
        String::from("orders"),
        None,
        String::from("id"),
        vec![
            String::from("id"),
            String::from("customer_id"),
            String::from("order_status"),
        ],
    )
}

fn orders_aliased() -> Schema {
    Schema::new(
        String::from("orders"),
        Some(String::from("o")),
        String::from("id"),
        vec![String::from("id"), String::from("customer_id")],
    )
}

#[test]
fn select_all_columns_renders_statement() {
    let q = orders().select().build();
    assert_eq!(
        q,
        "SELECT orders.id, orders.customer_id, orders.order_status \nFROM orders "
    );
}

#[test]
fn select_with_no_declared_columns_renders_star() {
    let schema = Schema::new(
        String::from("logs"),
        None,
        String::new(),
        Vec::new(),
    );
    assert_eq!(schema.select().build(), "SELECT * \nFROM logs ");
}

#[test]
fn where_chain_keeps_call_order_and_joins_with_and() {
    let q = orders()
        .select()
        .where_column("orders.order_status", "PENDING")
        .where_column("orders.customer_id", "7")
        .build();
    assert_eq!(
        q,
        "SELECT orders.id, orders.customer_id, orders.order_status \nFROM orders  \
         \nWHERE orders.order_status = 'PENDING' AND orders.customer_id = '7'"
    );
}

#[test]
fn where_column_in_blank_is_a_no_op() {
    let before = orders().select();
    let after = before
        .clone()
        .where_column_in("orders.customer_id", "")
        .where_column_in("orders.customer_id", "   ")
        .where_column_in("orders.customer_id", " \t\n ");
    assert_eq!(before.build(), after.build());
}

#[test]
fn where_column_in_nonblank_appends() {
    let q = orders()
        .select_column("orders.id")
        .where_column_in("orders.customer_id", "1, 2, 3")
        .build();
    assert_eq!(
        q,
        "SELECT orders.id \nFROM orders  \nWHERE orders.customer_id IN (1, 2, 3)"
    );
}

#[test]
fn where_column_condition_embeds_operator_verbatim() {
    let q = orders()
        .select_column("orders.id")
        .where_column_condition("orders.customer_id", "!=", "NULL")
        .build();
    assert_eq!(
        q,
        "SELECT orders.id \nFROM orders  \nWHERE orders.customer_id != 'NULL'"
    );
}

#[test]
fn alias_equal_to_table_is_suppressed() {
    let q = orders().select_column("orders.id").build();
    assert_eq!(q, "SELECT orders.id \nFROM orders ");
}

#[test]
fn alias_differing_from_table_is_emitted_once() {
    let q = orders_aliased().select_column("o.id").build();
    assert_eq!(q, "SELECT o.id \nFROM orders o");
}

#[test]
fn render_is_idempotent() {
    let b = orders()
        .select()
        .where_column("orders.order_status", "PENDING")
        .limit(10);
    let first = b.build();
    let second = b.build();
    assert_eq!(first, second);
}

#[test]
fn branched_builders_render_independently() {
    let base = orders().select_column("orders.id");
    let left = base.clone().where_column("orders.order_status", "OPEN");
    let right = base.clone().where_column("orders.order_status", "DONE");
    assert_eq!(
        left.build(),
        "SELECT orders.id \nFROM orders  \nWHERE orders.order_status = 'OPEN'"
    );
    assert_eq!(
        right.build(),
        "SELECT orders.id \nFROM orders  \nWHERE orders.order_status = 'DONE'"
    );
    assert_eq!(base.build(), "SELECT orders.id \nFROM orders ");
}

#[test]
fn field_scoped_joins_anchor_on_the_given_column() {
    let q = orders()
        .select_column("orders.id")
        .left_join_by_column("customers", "id", "orders.customer_id")
        .build();
    assert_eq!(
        q,
        "SELECT orders.id \nFROM orders   \nLEFT JOIN customers ON customers.id = orders.customer_id "
    );
}

#[test]
fn field_scoped_full_join_renders_full_join() {
    let q = orders()
        .select_column("orders.id")
        .full_join_by_column("customers", "id", "orders.customer_id")
        .build();
    assert!(q.contains("\nFULL JOIN customers ON customers.id = orders.customer_id"));
}

#[test]
fn primary_key_joins_anchor_on_alias_and_key() {
    let q = orders_aliased()
        .select_column("o.id")
        .inner_join("customers", "order_id")
        .build();
    assert_eq!(
        q,
        "SELECT o.id \nFROM orders o  \nINNER JOIN customers ON customers.order_id = o.id "
    );
}

#[test]
fn primary_key_full_join_keeps_right_join_keyword() {
    let q = orders()
        .select_column("orders.id")
        .full_join("customers", "order_id")
        .build();
    assert!(q.contains("\nRIGHT JOIN customers ON customers.order_id = orders.id"));
    assert!(!q.contains("FULL"));
}

#[test]
fn every_join_variant_renders_its_keyword() {
    let by_column = orders()
        .select_column("orders.id")
        .inner_join_by_column("a", "k", "orders.customer_id")
        .join_by_column("b", "k", "orders.customer_id")
        .right_join_by_column("c", "k", "orders.customer_id")
        .build();
    assert!(by_column.contains("\nINNER JOIN a ON a.k = orders.customer_id"));
    assert!(by_column.contains("\nJOIN b ON b.k = orders.customer_id"));
    assert!(by_column.contains("\nRIGHT JOIN c ON c.k = orders.customer_id"));
    let by_key = orders()
        .select_column("orders.id")
        .left_join("d", "k")
        .right_join("e", "k")
        .build();
    assert!(by_key.contains("\nLEFT JOIN d ON d.k = orders.id"));
    assert!(by_key.contains("\nRIGHT JOIN e ON e.k = orders.id"));
}

#[test]
fn join_accumulation_keeps_order() {
    let q = orders()
        .select_column("orders.id")
        .join("customers", "order_id")
        .right_join_by_column("addresses", "id", "orders.address_id")
        .build();
    let join_pos = q.find("\nJOIN customers").expect("first join missing");
    let right_pos = q.find("\nRIGHT JOIN addresses").expect("second join missing");
    assert!(join_pos < right_pos);
}

#[test]
fn raw_string_escape_hatches_append_verbatim() {
    let q = orders()
        .select_column("orders.id")
        .join_str("LEFT JOIN x ON x.a = orders.id")
        .where_str("orders.id > 5")
        .group_by_str("orders.id")
        .having_str("COUNT(orders.id) > 2")
        .order_by_str("orders.id DESC")
        .build();
    assert_eq!(
        q,
        "SELECT orders.id \nFROM orders   \nLEFT JOIN x ON x.a = orders.id  \
         \nWHERE orders.id > 5 \nGROUP BY orders.id \nHAVING COUNT(orders.id) > 2 \
         \nORDER BY orders.id DESC"
    );
}

#[test]
fn order_by_variants_render_direction() {
    let q = orders()
        .select_column("orders.id")
        .order_by_column("orders.id", "DESC")
        .order_by_column_asc("orders.customer_id")
        .order_by_column_desc("orders.order_status")
        .build();
    assert_eq!(
        q,
        "SELECT orders.id \nFROM orders  \nORDER BY orders.id DESC, orders.customer_id ASC, orders.order_status DESC"
    );
}

#[test]
fn group_by_columns_are_comma_separated() {
    let q = orders()
        .select_column("orders.id")
        .group_by_column("orders.customer_id")
        .group_by_column("orders.order_status")
        .build();
    assert_eq!(
        q,
        "SELECT orders.id \nFROM orders  \nGROUP BY orders.customer_id, orders.order_status"
    );
}

#[test]
fn having_conditions_join_with_and() {
    let q = orders()
        .select_column("orders.id")
        .having_column("orders.order_status", "PENDING")
        .having_column("orders.customer_id", "3")
        .build();
    assert_eq!(
        q,
        "SELECT orders.id \nFROM orders  \nHAVING orders.order_status = 'PENDING' AND orders.customer_id = '3'"
    );
}

#[test]
fn limit_renders_decimal() {
    let q = orders().select_column("orders.id").limit(205).build();
    assert_eq!(q, "SELECT orders.id \nFROM orders  \nLIMIT 205");
}

#[test]
fn limit_zero_renders() {
    let q = orders().select_column("orders.id").limit(0).build();
    assert_eq!(q, "SELECT orders.id \nFROM orders  \nLIMIT 0");
}

#[test]
fn limit_overwrites_previous_value() {
    let q = orders().select_column("orders.id").limit(3).limit(8).build();
    assert_eq!(q, "SELECT orders.id \nFROM orders  \nLIMIT 8");
}

#[test]
fn selected_expression_variants_append() {
    let q = orders()
        .select_column("orders.id")
        .select_column("orders.customer_id")
        .select_column_as("orders.order_status", "status")
        .select_str("1 + 1")
        .select_as("orders.id", "the_id")
        .build();
    assert_eq!(
        q,
        "SELECT orders.id, orders.customer_id, (orders.order_status) AS status, 1 + 1, (orders.id) AS the_id \nFROM orders "
    );
}

#[test]
fn aggregates_uppercase_the_function_name() {
    let q = orders()
        .select_column("orders.id")
        .select_aggregate_over("orders.customer_id", "count")
        .select_aggregate_over_as("orders.customer_id", "max", "biggest")
        .build();
    assert_eq!(
        q,
        "SELECT orders.id, COUNT(orders.customer_id), MAX(orders.customer_id) AS biggest \nFROM orders "
    );
}

#[test]
fn clause_order_is_fixed() {
    let q = orders()
        .select()
        .limit(4)
        .order_by_column_asc("orders.id")
        .having_column("orders.order_status", "X")
        .group_by_column("orders.customer_id")
        .where_column("orders.id", "1")
        .join_str("JOIN a ON a.b = orders.id")
        .build();
    let w = q.find("\nWHERE").unwrap();
    let g = q.find("\nGROUP BY").unwrap();
    let h = q.find("\nHAVING").unwrap();
    let o = q.find("\nORDER BY").unwrap();
    let l = q.find("\nLIMIT").unwrap();
    let j = q.find("\nJOIN").unwrap();
    assert!(j < w && w < g && g < h && h < o && o < l);
}
