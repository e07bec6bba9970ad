//! The Update Builder: an order-preserving, first-write-wins mapping from
//! column names to single staged values.  Rendering is terminal: the
//! predicate is supplied at the final call, which directly returns
//! `UPDATE <table> SET <column> = '<value>', ... WHERE <predicate>`.

use vstd::prelude::*;
use vstd::string::*;
use crate::render::{eq_pred, listed};
use crate::text::{clone_strings, contains_str, lemma_strs_push, strs};

verus! {

/// The abstract state of an Update Builder: the table name and, in
/// first-write order, the staged columns with their values.
#[verifier::ext_equal]
pub ghost struct UpdateView {
    pub table: Seq<char>,
    pub columns: Seq<Seq<char>>,
    pub values: Seq<Seq<char>>,
}

/// Accumulates staged values for one `UPDATE` statement.
pub struct UpdateBuilder {
    table: String,
    columns: Vec<String>,
    values: Vec<String>,
}

impl UpdateBuilder {
    /// One staged value per staged column.
    #[verifier::type_invariant]
    spec fn shape_wf(self) -> bool {
        self.columns@.len() == self.values@.len()
    }
}

impl View for UpdateBuilder {
    type V = UpdateView;

    closed spec fn view(&self) -> UpdateView {
        UpdateView {
            table: self.table@,
            columns: strs(self.columns@),
            values: strs(self.values@),
        }
    }
}

/// The `SET` assignments, one `<column> = '<value>'` per staged column in
/// first-write order.
pub open spec fn set_pairs(columns: Seq<Seq<char>>, values: Seq<Seq<char>>) -> Seq<Seq<char>> {
    Seq::new(columns.len(), |i: int| eq_pred(columns[i], values[i]))
}

/// The `SET` clause text: the assignments comma-separated.
pub open spec fn set_clause(v: UpdateView) -> Seq<char> {
    listed(set_pairs(v.columns, v.values), ", "@, 0)
}

impl Clone for UpdateBuilder {
    /// A deep copy that reads the same and shares no staged state with the
    /// original.
    fn clone(&self) -> (r: Self)
        ensures
            r@ == self@,
    {
        proof {
            use_type_invariant(self);
        }
        UpdateBuilder {
            table: self.table.clone(),
            columns: clone_strings(&self.columns),
            values: clone_strings(&self.values),
        }
    }
}

impl UpdateBuilder {
    /// A fresh builder over the given table with nothing staged.
    pub(crate) fn fresh(table: String) -> (r: Self)
        ensures
            r@ == (UpdateView { table: table@, columns: Seq::empty(), values: Seq::empty() }),
    {
        let r = UpdateBuilder { table, columns: Vec::new(), values: Vec::new() };
        proof {
            assert(strs(Seq::<String>::empty()) =~= Seq::<Seq<char>>::empty());
        }
        r
    }

    /// Stages a value for a column.  First write wins: staging an
    /// already-staged column is a no-op.
    pub fn stage_value(self, column: &str, value: &str) -> (r: Self)
        ensures
            r@ == (if self@.columns.contains(column@) {
                self@
            } else {
                UpdateView {
                    columns: self@.columns.push(column@),
                    values: self@.values.push(value@),
                    ..self@
                }
            }),
    {
        if contains_str(&self.columns, column) {
            return self;
        }
        proof {
            use_type_invariant(&self);
        }
        let UpdateBuilder { table, mut columns, mut values } = self;
        let key = String::from_str(column);
        let staged = String::from_str(value);
        proof {
            lemma_strs_push(columns@, key);
            lemma_strs_push(values@, staged);
        }
        columns.push(key);
        values.push(staged);
        UpdateBuilder { table, columns, values }
    }

    /// Terminal call: renders
    /// `UPDATE <table> SET <assignments> \nWHERE <column> = '<value>'`.
    pub fn update_where_column_eq(self, column: &str, value: &str) -> (r: String)
        ensures
            r@ == "UPDATE "@ + self@.table + " SET "@ + set_clause(self@) + " \nWHERE "@ + eq_pred(
                column@,
                value@,
            ),
    {
        let mut s = self.render_head();
        s.append(" \nWHERE ");
        s.append(column);
        s.append(" = '");
        s.append(value);
        s.append("'");
        s
    }

    /// Terminal call: renders `UPDATE <table> SET <assignments> WHERE <raw>`
    /// with the predicate embedded verbatim.
    pub fn where_str(self, raw: &str) -> (r: String)
        ensures
            r@ == "UPDATE "@ + self@.table + " SET "@ + set_clause(self@) + " WHERE "@ + raw@,
    {
        let mut s = self.render_head();
        s.append(" WHERE ");
        s.append(raw);
        s
    }

    /// Renders `UPDATE <table> SET <assignments>`, shared by both terminal
    /// calls.
    fn render_head(&self) -> (r: String)
        ensures
            r@ == "UPDATE "@ + self@.table + " SET "@ + set_clause(self@),
    {
        proof {
            use_type_invariant(self);
        }
        let mut s = String::from_str("UPDATE ");
        s.append(self.table.as_str());
        s.append(" SET ");
        let ghost pairs = set_pairs(self@.columns, self@.values);
        let ghost base = s@;
        let n = self.columns.len();
        let mut i: usize = 0;
        while i < n
            invariant
                i <= n,
                n == self.columns@.len(),
                n == self.values@.len(),
                pairs == set_pairs(self@.columns, self@.values),
                pairs.len() == n,
                s@ + listed(pairs, ", "@, i as int) == base + listed(pairs, ", "@, 0),
            decreases n - i,
        {
            let ghost pre = s@;
            let ghost piece = (pairs[i as int] + (if i + 1 == n {
                Seq::<char>::empty()
            } else {
                ", "@
            }));
            s.append(self.columns[i].as_str());
            s.append(" = '");
            s.append(self.values[i].as_str());
            s.append("'");
            if i + 1 != n {
                s.append(", ");
            }
            proof {
                assert(pairs[i as int] == eq_pred(self@.columns[i as int], self@.values[i as int]));
                assert(self@.columns[i as int] == self.columns@[i as int]@);
                assert(self@.values[i as int] == self.values@[i as int]@);
                assert(s@ =~= pre + piece);
                assert(listed(pairs, ", "@, i as int) == piece + listed(pairs, ", "@, i as int + 1));
                assert(pre + (piece + listed(pairs, ", "@, i as int + 1)) =~= (pre + piece) + listed(
                    pairs,
                    ", "@,
                    i as int + 1,
                ));
            }
            i = i + 1;
        }
        proof {
            assert(listed(pairs, ", "@, n as int) =~= Seq::<char>::empty());
            assert(s@ + Seq::<char>::empty() =~= s@);
        }
        s
    }
}

/// Staging two values and closing with an equality predicate renders
/// `UPDATE <t> SET <a> = '<x>', <b> = '<y>' \nWHERE <pk> = '<pv>'`: the
/// `SET` assignments stand in first-write order, comma-separated.
pub proof fn lemma_update_two(
    t: Seq<char>,
    a: Seq<char>,
    x: Seq<char>,
    b: Seq<char>,
    y: Seq<char>,
    pk: Seq<char>,
    pv: Seq<char>,
)
    ensures
        ({
            let v = UpdateView { table: t, columns: seq![a, b], values: seq![x, y] };
            "UPDATE "@ + v.table + " SET "@ + set_clause(v) + " \nWHERE "@ + eq_pred(pk, pv)
                == "UPDATE "@ + t + " SET "@ + a + " = '"@ + x + "', "@ + b + " = '"@ + y
                + "' \nWHERE "@ + pk + " = '"@ + pv + "'"@
        }),
{
    reveal_strlit("UPDATE ");
    reveal_strlit(" SET ");
    reveal_strlit(" = '");
    reveal_strlit("'");
    reveal_strlit(", ");
    reveal_strlit("', ");
    reveal_strlit(" \nWHERE ");
    reveal_strlit("' \nWHERE ");
    let v = UpdateView { table: t, columns: seq![a, b], values: seq![x, y] };
    let pairs = set_pairs(v.columns, v.values);
    assert(pairs =~= seq![eq_pred(a, x), eq_pred(b, y)]);
    assert(listed(pairs, ", "@, 2) =~= Seq::<char>::empty());
    assert(listed(pairs, ", "@, 1) =~= eq_pred(b, y));
    assert(listed(pairs, ", "@, 0) =~= eq_pred(a, x) + ", "@ + eq_pred(b, y));
    assert("UPDATE "@ + v.table + " SET "@ + set_clause(v) + " \nWHERE "@ + eq_pred(pk, pv) =~=
        "UPDATE "@ + t + " SET "@ + a + " = '"@ + x + "', "@ + b + " = '"@ + y + "' \nWHERE "@ + pk
        + " = '"@ + pv + "'"@);
}

} // verus!
