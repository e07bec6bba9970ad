//! The Select Builder: accumulates selected expressions, joins, predicates,
//! grouping, ordering and an optional row limit, and renders a complete
//! `SELECT` statement.
//!
//! Every chaining operation consumes the builder and returns one whose view
//! extends a single list (or replaces the limit), all other state unchanged.
//! Rendering is read-only: `build` may be called any number of times and is
//! pinned down exactly by [`select_render`].

use vstd::prelude::*;
use vstd::string::*;
use crate::render::{
    append_headed,
    append_joins,
    cmp_pred,
    eq_fragment,
    eq_pred,
    headed,
    in_pred,
    join_fragment,
    join_text,
    joins_block,
    sep_items,
    to_upper,
    upper_of,
};
use crate::text::{blank, clone_strings, dec_seq, is_blank, lemma_strs_push, push_fragment, strs, u32_to_dec};

verus! {

/// The abstract state of a Select Builder: every accumulated fragment as a
/// character sequence.
#[verifier::ext_equal]
pub ghost struct SelectView {
    pub selected: Seq<char>,
    pub joins: Seq<Seq<char>>,
    pub where_conditions: Seq<Seq<char>>,
    pub group_by: Seq<Seq<char>>,
    pub order_by: Seq<Seq<char>>,
    pub having: Seq<Seq<char>>,
    pub limit: Option<u32>,
    pub table: Seq<char>,
    pub alias: Seq<char>,
    pub primary_key: Seq<char>,
}

/// Accumulates fragments for one `SELECT` statement.
pub struct SelectBuilder {
    selected: String,
    joins: Vec<String>,
    where_conditions: Vec<String>,
    group_by: Vec<String>,
    order_by: Vec<String>,
    having: Vec<String>,
    limit: Option<u32>,
    table: String,
    alias: String,
    primary_key: String,
}

impl View for SelectBuilder {
    type V = SelectView;

    closed spec fn view(&self) -> SelectView {
        SelectView {
            selected: self.selected@,
            joins: strs(self.joins@),
            where_conditions: strs(self.where_conditions@),
            group_by: strs(self.group_by@),
            order_by: strs(self.order_by@),
            having: strs(self.having@),
            limit: self.limit,
            table: self.table@,
            alias: self.alias@,
            primary_key: self.primary_key@,
        }
    }
}

/// The alias token of the `FROM` clause: suppressed exactly when the alias
/// equals the table name.
pub open spec fn alias_token(table: Seq<char>, alias: Seq<char>) -> Seq<char> {
    if alias == table {
        Seq::empty()
    } else {
        alias
    }
}

/// The `LIMIT` clause: nothing when no limit was set.
pub open spec fn limit_block(limit: Option<u32>) -> Seq<char> {
    match limit {
        Option::None => Seq::empty(),
        Option::Some(n) => " \nLIMIT "@ + dec_seq(n as nat),
    }
}

/// The complete statement text rendered from a builder state: the clauses in
/// their fixed order, each present exactly when its list is non-empty.
pub open spec fn select_render(v: SelectView) -> Seq<char> {
    "SELECT "@ + v.selected + " \nFROM "@ + v.table + " "@ + alias_token(v.table, v.alias)
        + joins_block(v.joins) + headed(" \nWHERE"@, v.where_conditions, " AND"@) + headed(
        " \nGROUP BY"@,
        v.group_by,
        ","@,
    ) + headed(" \nHAVING"@, v.having, " AND"@) + headed(" \nORDER BY"@, v.order_by, ","@)
        + limit_block(v.limit)
}

impl Clone for SelectBuilder {
    /// A deep copy that reads the same and shares no list with the
    /// original: two builders branched from one intermediate state chain and
    /// render without interference.
    fn clone(&self) -> (r: Self)
        ensures
            r@ == self@,
    {
        SelectBuilder {
            selected: self.selected.clone(),
            joins: clone_strings(&self.joins),
            where_conditions: clone_strings(&self.where_conditions),
            group_by: clone_strings(&self.group_by),
            order_by: clone_strings(&self.order_by),
            having: clone_strings(&self.having),
            limit: self.limit,
            table: self.table.clone(),
            alias: self.alias.clone(),
            primary_key: self.primary_key.clone(),
        }
    }
}

impl SelectBuilder {
    /// A fresh builder over the given table data, seeded with an initial
    /// selected expression; every list starts empty and no limit is set.
    pub(crate) fn seeded(selected: String, table: String, alias: String, primary_key: String) -> (r:
        Self)
        ensures
            r@ == (SelectView {
                selected: selected@,
                joins: Seq::empty(),
                where_conditions: Seq::empty(),
                group_by: Seq::empty(),
                order_by: Seq::empty(),
                having: Seq::empty(),
                limit: None,
                table: table@,
                alias: alias@,
                primary_key: primary_key@,
            }),
    {
        let r = SelectBuilder {
            selected,
            joins: Vec::new(),
            where_conditions: Vec::new(),
            group_by: Vec::new(),
            order_by: Vec::new(),
            having: Vec::new(),
            limit: None,
            table,
            alias,
            primary_key,
        };
        proof {
            assert(strs(Seq::<String>::empty()) =~= Seq::<Seq<char>>::empty());
        }
        r
    }

    /// Appends a further column to the selected expressions.
    pub fn select_column(self, column: &str) -> (r: Self)
        ensures
            r@ == (SelectView { selected: self@.selected + ", "@ + column@, ..self@ }),
    {
        let mut this = self;
        this.selected.append(", ");
        this.selected.append(column);
        this
    }

    /// Appends a further column under a display alias.
    pub fn select_column_as(self, column: &str, alias: &str) -> (r: Self)
        ensures
            r@ == (SelectView {
                selected: self@.selected + ", ("@ + column@ + ") AS "@ + alias@,
                ..self@
            }),
    {
        let mut this = self;
        this.selected.append(", (");
        this.selected.append(column);
        this.selected.append(") AS ");
        this.selected.append(alias);
        this
    }

    /// Appends an aggregate call over a column; the function name is
    /// upper-cased before embedding.
    pub fn select_aggregate_over(self, column: &str, function: &str) -> (r: Self)
        ensures
            r@ == (SelectView {
                selected: self@.selected + ", "@ + upper_of(function@) + "("@ + column@ + ")"@,
                ..self@
            }),
    {
        let mut this = self;
        let up = to_upper(function);
        this.selected.append(", ");
        this.selected.append(up.as_str());
        this.selected.append("(");
        this.selected.append(column);
        this.selected.append(")");
        this
    }

    /// Appends an aggregate call over a column under a display alias.
    pub fn select_aggregate_over_as(self, column: &str, function: &str, alias: &str) -> (r: Self)
        ensures
            r@ == (SelectView {
                selected: self@.selected + ", "@ + upper_of(function@) + "("@ + column@ + ") AS "@
                    + alias@,
                ..self@
            }),
    {
        let mut this = self;
        let up = to_upper(function);
        this.selected.append(", ");
        this.selected.append(up.as_str());
        this.selected.append("(");
        this.selected.append(column);
        this.selected.append(") AS ");
        this.selected.append(alias);
        this
    }

    /// Appends a raw, already-formatted expression to the selected list.
    pub fn select_str(self, raw: &str) -> (r: Self)
        ensures
            r@ == (SelectView { selected: self@.selected + ", "@ + raw@, ..self@ }),
    {
        let mut this = self;
        this.selected.append(", ");
        this.selected.append(raw);
        this
    }

    /// Appends a raw expression under a display alias.
    pub fn select_as(self, raw: &str, alias: &str) -> (r: Self)
        ensures
            r@ == (SelectView {
                selected: self@.selected + ", ("@ + raw@ + ") AS "@ + alias@,
                ..self@
            }),
    {
        let mut this = self;
        this.selected.append(", (");
        this.selected.append(raw);
        this.selected.append(") AS ");
        this.selected.append(alias);
        this
    }

    /// Appends a raw, already-formatted join fragment on a fresh line.
    pub fn join_str(self, raw: &str) -> (r: Self)
        ensures
            r@ == (SelectView { joins: self@.joins.push("\n"@ + raw@), ..self@ }),
    {
        let mut this = self;
        let mut fragment = String::from_str("\n");
        fragment.append(raw);
        push_fragment(&mut this.joins, fragment);
        this
    }

    /// Appends `INNER JOIN <table> ON <table>.<key> = <column>`, anchored to
    /// the given column of this table.
    pub fn inner_join_by_column(self, table: &str, key: &str, column: &str) -> (r: Self)
        ensures
            r@ == (SelectView {
                joins: self@.joins.push(join_text("INNER JOIN"@, table@, key@, column@)),
                ..self@
            }),
    {
        let mut this = self;
        let fragment = join_fragment("INNER JOIN", table, key, column);
        push_fragment(&mut this.joins, fragment);
        this
    }

    /// Appends `JOIN <table> ON <table>.<key> = <column>`.
    pub fn join_by_column(self, table: &str, key: &str, column: &str) -> (r: Self)
        ensures
            r@ == (SelectView {
                joins: self@.joins.push(join_text("JOIN"@, table@, key@, column@)),
                ..self@
            }),
    {
        let mut this = self;
        let fragment = join_fragment("JOIN", table, key, column);
        push_fragment(&mut this.joins, fragment);
        this
    }

    /// Appends `LEFT JOIN <table> ON <table>.<key> = <column>`.
    pub fn left_join_by_column(self, table: &str, key: &str, column: &str) -> (r: Self)
        ensures
            r@ == (SelectView {
                joins: self@.joins.push(join_text("LEFT JOIN"@, table@, key@, column@)),
                ..self@
            }),
    {
        let mut this = self;
        let fragment = join_fragment("LEFT JOIN", table, key, column);
        push_fragment(&mut this.joins, fragment);
        this
    }

    /// Appends `RIGHT JOIN <table> ON <table>.<key> = <column>`.
    pub fn right_join_by_column(self, table: &str, key: &str, column: &str) -> (r: Self)
        ensures
            r@ == (SelectView {
                joins: self@.joins.push(join_text("RIGHT JOIN"@, table@, key@, column@)),
                ..self@
            }),
    {
        let mut this = self;
        let fragment = join_fragment("RIGHT JOIN", table, key, column);
        push_fragment(&mut this.joins, fragment);
        this
    }

    /// Appends `FULL JOIN <table> ON <table>.<key> = <column>`.
    pub fn full_join_by_column(self, table: &str, key: &str, column: &str) -> (r: Self)
        ensures
            r@ == (SelectView {
                joins: self@.joins.push(join_text("FULL JOIN"@, table@, key@, column@)),
                ..self@
            }),
    {
        let mut this = self;
        let fragment = join_fragment("FULL JOIN", table, key, column);
        push_fragment(&mut this.joins, fragment);
        this
    }

    /// Appends `INNER JOIN <table> ON <table>.<key> = <alias>.<primaryKey>`.
    /// Available only on a builder whose schema declared a primary key.
    pub fn inner_join(self, table: &str, key: &str) -> (r: Self)
        requires
            self@.primary_key.len() > 0,
        ensures
            r@ == (SelectView {
                joins: self@.joins.push(
                    join_text("INNER JOIN"@, table@, key@, self@.alias + "."@ + self@.primary_key),
                ),
                ..self@
            }),
    {
        let mut this = self;
        let rhs = this.key_anchor();
        let fragment = join_fragment("INNER JOIN", table, key, rhs.as_str());
        push_fragment(&mut this.joins, fragment);
        this
    }

    /// Appends `JOIN <table> ON <table>.<key> = <alias>.<primaryKey>`.
    /// Available only on a builder whose schema declared a primary key.
    pub fn join(self, table: &str, key: &str) -> (r: Self)
        requires
            self@.primary_key.len() > 0,
        ensures
            r@ == (SelectView {
                joins: self@.joins.push(
                    join_text("JOIN"@, table@, key@, self@.alias + "."@ + self@.primary_key),
                ),
                ..self@
            }),
    {
        let mut this = self;
        let rhs = this.key_anchor();
        let fragment = join_fragment("JOIN", table, key, rhs.as_str());
        push_fragment(&mut this.joins, fragment);
        this
    }

    /// Appends `LEFT JOIN <table> ON <table>.<key> = <alias>.<primaryKey>`.
    /// Available only on a builder whose schema declared a primary key.
    pub fn left_join(self, table: &str, key: &str) -> (r: Self)
        requires
            self@.primary_key.len() > 0,
        ensures
            r@ == (SelectView {
                joins: self@.joins.push(
                    join_text("LEFT JOIN"@, table@, key@, self@.alias + "."@ + self@.primary_key),
                ),
                ..self@
            }),
    {
        let mut this = self;
        let rhs = this.key_anchor();
        let fragment = join_fragment("LEFT JOIN", table, key, rhs.as_str());
        push_fragment(&mut this.joins, fragment);
        this
    }

    /// Appends `RIGHT JOIN <table> ON <table>.<key> = <alias>.<primaryKey>`.
    /// Available only on a builder whose schema declared a primary key.
    pub fn right_join(self, table: &str, key: &str) -> (r: Self)
        requires
            self@.primary_key.len() > 0,
        ensures
            r@ == (SelectView {
                joins: self@.joins.push(
                    join_text("RIGHT JOIN"@, table@, key@, self@.alias + "."@ + self@.primary_key),
                ),
                ..self@
            }),
    {
        let mut this = self;
        let rhs = this.key_anchor();
        let fragment = join_fragment("RIGHT JOIN", table, key, rhs.as_str());
        push_fragment(&mut this.joins, fragment);
        this
    }

    /// The full-join operation by primary key.  It renders the keyword
    /// sequence `RIGHT JOIN`, not a full-outer-join keyword: deliberately
    /// kept as the established output, not corrected.
    /// Available only on a builder whose schema declared a primary key.
    pub fn full_join(self, table: &str, key: &str) -> (r: Self)
        requires
            self@.primary_key.len() > 0,
        ensures
            r@ == (SelectView {
                joins: self@.joins.push(
                    join_text("RIGHT JOIN"@, table@, key@, self@.alias + "."@ + self@.primary_key),
                ),
                ..self@
            }),
    {
        let mut this = self;
        let rhs = this.key_anchor();
        let fragment = join_fragment("RIGHT JOIN", table, key, rhs.as_str());
        push_fragment(&mut this.joins, fragment);
        this
    }

    /// Builds `<alias>.<primaryKey>`, the right-hand side of every
    /// primary-key join.
    fn key_anchor(&self) -> (r: String)
        ensures
            r@ == self@.alias + "."@ + self@.primary_key,
    {
        let mut rhs = String::from_str(self.alias.as_str());
        rhs.append(".");
        rhs.append(self.primary_key.as_str());
        rhs
    }

    /// Appends `<column> = '<value>'` to the where-list.
    pub fn where_column(self, column: &str, value: &str) -> (r: Self)
        ensures
            r@ == (SelectView {
                where_conditions: self@.where_conditions.push(eq_pred(column@, value@)),
                ..self@
            }),
    {
        let mut this = self;
        let fragment = eq_fragment(column, value);
        proof {
            lemma_strs_push(this.where_conditions@, fragment);
        }
        this.where_conditions.push(fragment);
        this
    }

    /// Appends `<column> IN (<value>)` to the where-list — unless the value
    /// is empty or whitespace-only, in which case the builder is returned
    /// unchanged, so optional sub-filters chain without conditional logic at
    /// the call site.
    pub fn where_column_in(self, column: &str, value: &str) -> (r: Self)
        ensures
            r@ == (if blank(value@) {
                self@
            } else {
                SelectView {
                    where_conditions: self@.where_conditions.push(in_pred(column@, value@)),
                    ..self@
                }
            }),
    {
        if is_blank(value) {
            return self;
        }
        let mut this = self;
        let mut fragment = String::from_str(column);
        fragment.append(" IN (");
        fragment.append(value);
        fragment.append(")");
        push_fragment(&mut this.where_conditions, fragment);
        this
    }

    /// Appends `<column> <operator> '<value>'` to the where-list; the
    /// operator is embedded verbatim (`!=`, `>`, `LIKE`, ...).
    pub fn where_column_condition(self, column: &str, operator: &str, value: &str) -> (r: Self)
        ensures
            r@ == (SelectView {
                where_conditions: self@.where_conditions.push(cmp_pred(column@, operator@, value@)),
                ..self@
            }),
    {
        let mut this = self;
        let mut fragment = String::from_str(column);
        fragment.append(" ");
        fragment.append(operator);
        fragment.append(" '");
        fragment.append(value);
        fragment.append("'");
        push_fragment(&mut this.where_conditions, fragment);
        this
    }

    /// Appends a raw, already-formatted predicate to the where-list.
    pub fn where_str(self, raw: &str) -> (r: Self)
        ensures
            r@ == (SelectView { where_conditions: self@.where_conditions.push(raw@), ..self@ }),
    {
        let mut this = self;
        push_fragment(&mut this.where_conditions, String::from_str(raw));
        this
    }

    /// Appends the column to the group-by keys.
    pub fn group_by_column(self, column: &str) -> (r: Self)
        ensures
            r@ == (SelectView { group_by: self@.group_by.push(column@), ..self@ }),
    {
        let mut this = self;
        push_fragment(&mut this.group_by, String::from_str(column));
        this
    }

    /// Appends a raw, already-formatted key to the group-by list.
    pub fn group_by_str(self, raw: &str) -> (r: Self)
        ensures
            r@ == (SelectView { group_by: self@.group_by.push(raw@), ..self@ }),
    {
        let mut this = self;
        push_fragment(&mut this.group_by, String::from_str(raw));
        this
    }

    /// Appends `<column> <direction>` to the order-by keys.
    pub fn order_by_column(self, column: &str, direction: &str) -> (r: Self)
        ensures
            r@ == (SelectView {
                order_by: self@.order_by.push(column@ + " "@ + direction@),
                ..self@
            }),
    {
        let mut this = self;
        let mut fragment = String::from_str(column);
        fragment.append(" ");
        fragment.append(direction);
        push_fragment(&mut this.order_by, fragment);
        this
    }

    /// Appends `<column> ASC` to the order-by keys.
    pub fn order_by_column_asc(self, column: &str) -> (r: Self)
        ensures
            r@ == (SelectView { order_by: self@.order_by.push(column@ + " ASC"@), ..self@ }),
    {
        let mut this = self;
        let mut fragment = String::from_str(column);
        fragment.append(" ASC");
        push_fragment(&mut this.order_by, fragment);
        this
    }

    /// Appends `<column> DESC` to the order-by keys.
    pub fn order_by_column_desc(self, column: &str) -> (r: Self)
        ensures
            r@ == (SelectView { order_by: self@.order_by.push(column@ + " DESC"@), ..self@ }),
    {
        let mut this = self;
        let mut fragment = String::from_str(column);
        fragment.append(" DESC");
        push_fragment(&mut this.order_by, fragment);
        this
    }

    /// Appends a raw, already-formatted key to the order-by list.
    pub fn order_by_str(self, raw: &str) -> (r: Self)
        ensures
            r@ == (SelectView { order_by: self@.order_by.push(raw@), ..self@ }),
    {
        let mut this = self;
        push_fragment(&mut this.order_by, String::from_str(raw));
        this
    }

    /// Appends `<column> = '<value>'` to the having-list.
    pub fn having_column(self, column: &str, value: &str) -> (r: Self)
        ensures
            r@ == (SelectView { having: self@.having.push(eq_pred(column@, value@)), ..self@ }),
    {
        let mut this = self;
        let fragment = eq_fragment(column, value);
        push_fragment(&mut this.having, fragment);
        this
    }

    /// Appends a raw, already-formatted condition to the having-list.
    pub fn having_str(self, raw: &str) -> (r: Self)
        ensures
            r@ == (SelectView { having: self@.having.push(raw@), ..self@ }),
    {
        let mut this = self;
        push_fragment(&mut this.having, String::from_str(raw));
        this
    }

    /// Sets the row limit, overwriting any previous value.
    pub fn limit(self, limit: u32) -> (r: Self)
        ensures
            r@ == (SelectView { limit: Some(limit), ..self@ }),
    {
        let mut this = self;
        this.limit = Some(limit);
        this
    }

    /// Renders the statement.  Read-only: the builder is left as it was, so
    /// rendering twice yields the same text.
    pub fn build(&self) -> (s: String)
        ensures
            s@ == select_render(self@),
    {
        let mut s = String::new();
        s.append("SELECT ");
        s.append(self.selected.as_str());
        s.append(" \nFROM ");
        s.append(self.table.as_str());
        s.append(" ");
        if !(self.alias == self.table) {
            s.append(self.alias.as_str());
        } else {
            proof {
                assert(s@ + alias_token(self@.table, self@.alias) =~= s@);
            }
        }
        append_joins(&mut s, &self.joins);
        append_headed(&mut s, " \nWHERE", &self.where_conditions, " AND");
        append_headed(&mut s, " \nGROUP BY", &self.group_by, ",");
        append_headed(&mut s, " \nHAVING", &self.having, " AND");
        append_headed(&mut s, " \nORDER BY", &self.order_by, ",");
        match self.limit {
            Option::Some(n) => {
                s.append(" \nLIMIT ");
                let digits = u32_to_dec(n);
                s.append(digits.as_str());
            },
            Option::None => {
                proof {
                    assert(s@ + limit_block(self@.limit) =~= s@);
                }
            },
        }
        proof {
            assert(s@ =~= select_render(self@));
        }
        s
    }
}

/// Everything a statement carries after the `FROM` clause and its alias
/// token, in the fixed clause order.
pub open spec fn trailing_clauses(v: SelectView) -> Seq<char> {
    joins_block(v.joins) + headed(" \nWHERE"@, v.where_conditions, " AND"@) + headed(
        " \nGROUP BY"@,
        v.group_by,
        ","@,
    ) + headed(" \nHAVING"@, v.having, " AND"@) + headed(" \nORDER BY"@, v.order_by, ","@)
        + limit_block(v.limit)
}

/// Alias suppression: when the alias equals the table name, the `FROM`
/// clause carries no alias token at all; when it differs, the alias stands
/// after the table name exactly once.
pub proof fn lemma_alias_suppression(v: SelectView)
    ensures
        v.alias == v.table ==> select_render(v) == "SELECT "@ + v.selected + " \nFROM "@ + v.table
            + " "@ + trailing_clauses(v),
        v.alias != v.table ==> select_render(v) == "SELECT "@ + v.selected + " \nFROM "@ + v.table
            + " "@ + v.alias + trailing_clauses(v),
{
    if v.alias == v.table {
        assert(select_render(v) =~= "SELECT "@ + v.selected + " \nFROM "@ + v.table + " "@
            + trailing_clauses(v));
    } else {
        assert(select_render(v) =~= "SELECT "@ + v.selected + " \nFROM "@ + v.table + " "@
            + v.alias + trailing_clauses(v));
    }
}

/// A builder with no accumulated join, predicate, grouping, ordering or
/// limit renders `SELECT <selected> \nFROM <table> ` plus the alias token,
/// and no trailing clause text at all.
pub proof fn lemma_fresh_render(v: SelectView)
    requires
        v.joins.len() == 0,
        v.where_conditions.len() == 0,
        v.group_by.len() == 0,
        v.order_by.len() == 0,
        v.having.len() == 0,
        v.limit is None,
    ensures
        select_render(v) == "SELECT "@ + v.selected + " \nFROM "@ + v.table + " "@ + alias_token(
            v.table,
            v.alias,
        ),
{
    assert(select_render(v) =~= "SELECT "@ + v.selected + " \nFROM "@ + v.table + " "@
        + alias_token(v.table, v.alias));
}

/// Rendering is a function of the builder state alone: any two renderings
/// of one unmodified builder are identical, character for character.
pub proof fn lemma_render_deterministic(v: SelectView, s1: Seq<char>, s2: Seq<char>)
    requires
        s1 == select_render(v),
        s2 == select_render(v),
    ensures
        s1 == s2,
{
}

/// Two chained equality predicates render the `WHERE` clause as
/// ` \nWHERE <c1> = '<x1>' AND <c2> = '<x2>'`: call order kept, glued with
/// `AND`.
pub proof fn lemma_where_clause_two(c1: Seq<char>, x1: Seq<char>, c2: Seq<char>, x2: Seq<char>)
    ensures
        headed(" \nWHERE"@, seq![eq_pred(c1, x1), eq_pred(c2, x2)], " AND"@) == " \nWHERE "@ + c1
            + " = '"@ + x1 + "' AND "@ + c2 + " = '"@ + x2 + "'"@,
{
    reveal_strlit(" \nWHERE");
    reveal_strlit(" \nWHERE ");
    reveal_strlit(" ");
    reveal_strlit(" AND");
    reveal_strlit("' AND ");
    reveal_strlit(" = '");
    reveal_strlit("'");
    let items = seq![eq_pred(c1, x1), eq_pred(c2, x2)];
    assert(sep_items(items, " AND"@, 2) =~= Seq::<char>::empty());
    assert(sep_items(items, " AND"@, 1) =~= " "@ + items[1]);
    assert(sep_items(items, " AND"@, 0) =~= " "@ + items[0] + " AND"@ + (" "@ + items[1]));
    assert(headed(" \nWHERE"@, items, " AND"@) =~= " \nWHERE "@ + c1 + " = '"@ + x1 + "' AND "@
        + c2 + " = '"@ + x2 + "'"@);
}

} // verus!
