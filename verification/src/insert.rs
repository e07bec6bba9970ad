//! The Insert Builder: an order-preserving, first-write-wins mapping from
//! column names to staged value sequences, rendered as an `INSERT` statement
//! by transposing the per-column sequences into per-row value tuples.
//!
//! Rendering validates the staged shape first: with no staged column, or no
//! staged row, it fails with [`InsertError::MalformedQuery`]; with columns
//! staged at differing value-counts it fails with
//! [`InsertError::RowShapeMismatch`] naming the offending columns, instead
//! of silently truncating.

use vstd::prelude::*;
use vstd::string::*;
use crate::render::{append_listed, listed, quoted};
use crate::text::{clone_string_rows, clone_strings, contains_str, lemma_strs_push, lemma_strss_push, strs, strss};

verus! {

/// Why rendering an `INSERT` statement was refused.
#[derive(Debug, Clone, PartialEq, Eq)]
pub enum InsertError {
    /// Nothing was staged: no column at all, or columns with zero rows.
    MalformedQuery,
    /// Two staged columns hold different numbers of values.  `first_column`
    /// is the first staged column, whose value-count set the expected row
    /// count; `offending_column` is the first staged column that disagrees.
    RowShapeMismatch { first_column: String, offending_column: String },
}

/// The abstract state of an Insert Builder: the table name and, in
/// first-write order, the staged columns with their value sequences.
#[verifier::ext_equal]
pub ghost struct InsertView {
    pub table: Seq<char>,
    pub columns: Seq<Seq<char>>,
    pub values: Seq<Seq<Seq<char>>>,
    pub limit: Option<u32>,
}

/// Accumulates staged values for one `INSERT` statement.
pub struct InsertBuilder {
    table: String,
    columns: Vec<String>,
    values: Vec<Vec<String>>,
    limit: Option<u32>,
}

impl InsertBuilder {
    /// One staged value sequence per staged column.
    #[verifier::type_invariant]
    spec fn shape_wf(self) -> bool {
        self.columns@.len() == self.values@.len()
    }
}

impl View for InsertBuilder {
    type V = InsertView;

    closed spec fn view(&self) -> InsertView {
        InsertView {
            table: self.table@,
            columns: strs(self.columns@),
            values: strss(self.values@),
            limit: self.limit,
        }
    }
}

/// Whether every staged column holds as many values as the first one.
pub open spec fn rectangular(values: Seq<Seq<Seq<char>>>) -> bool {
    forall|j: int| 0 <= j < values.len() ==> (#[trigger] values[j]).len() == values[0].len()
}

/// The first index at or after `j` whose value-count differs from the first
/// column's, or the length of `values` when none does.
pub open spec fn scan_uneven(values: Seq<Seq<Seq<char>>>, j: int) -> int
    decreases values.len() - j,
{
    if j < 0 || j >= values.len() {
        values.len() as int
    } else if values[j].len() != values[0].len() {
        j
    } else {
        scan_uneven(values, j + 1)
    }
}

/// Row `i` of the transposition: the `i`-th staged value of every column, in
/// column order.
pub open spec fn row_at(values: Seq<Seq<Seq<char>>>, i: int) -> Seq<Seq<char>> {
    values.map_values(|col: Seq<Seq<char>>| col[i])
}

/// One parenthesized value tuple: the row's values single-quoted and
/// comma-separated.
pub open spec fn tuple_text(row: Seq<Seq<char>>) -> Seq<char> {
    listed(row.map_values(|v: Seq<char>| quoted(v)), ", "@, 0)
}

/// The `VALUES` text from row `i` on: each tuple preceded by a space and
/// wrapped in parentheses, with a comma after every tuple but the last.
pub open spec fn rows_text(values: Seq<Seq<Seq<char>>>, rows: int, i: int) -> Seq<char>
    decreases rows - i,
{
    if i < 0 || i >= rows {
        Seq::empty()
    } else {
        " ("@ + tuple_text(row_at(values, i)) + ")"@ + (if i + 1 == rows {
            Seq::<char>::empty()
        } else {
            ","@
        }) + rows_text(values, rows, i + 1)
    }
}

/// What rendering promises: a statement exactly when at least one column
/// and one row are staged and the staged shape is rectangular, a
/// [`InsertError::MalformedQuery`] when nothing renderable was staged, and a
/// [`InsertError::RowShapeMismatch`] naming the first staged column and the
/// first disagreeing one when the shape is uneven.
pub open spec fn build_result(v: InsertView, r: Result<String, InsertError>) -> bool {
    match r {
        Result::Ok(s) => v.columns.len() > 0 && rectangular(v.values) && v.values[0].len() > 0
            && s@ == insert_render(v),
        Result::Err(e) => match e {
            InsertError::MalformedQuery => v.columns.len() == 0 || (rectangular(v.values)
                && v.values[0].len() == 0),
            InsertError::RowShapeMismatch { first_column, offending_column } => {
                &&& !rectangular(v.values)
                &&& first_column@ == v.columns[0]
                &&& offending_column@ == v.columns[scan_uneven(v.values, 1)]
            },
        },
    }
}

/// The complete statement text rendered from a well-shaped builder state.
pub open spec fn insert_render(v: InsertView) -> Seq<char> {
    "INSERT INTO "@ + v.table + "\n("@ + listed(v.columns, ", "@, 0) + ") VALUES"@ + rows_text(
        v.values,
        v.values[0].len() as int,
        0,
    )
}

impl Clone for InsertBuilder {
    /// A deep copy that reads the same and shares no staged state with the
    /// original.
    fn clone(&self) -> (r: Self)
        ensures
            r@ == self@,
    {
        proof {
            use_type_invariant(self);
        }
        InsertBuilder {
            table: self.table.clone(),
            columns: clone_strings(&self.columns),
            values: clone_string_rows(&self.values),
            limit: self.limit,
        }
    }
}

impl InsertBuilder {
    /// A fresh builder over the given table with nothing staged.
    pub(crate) fn fresh(table: String) -> (r: Self)
        ensures
            r@ == (InsertView {
                table: table@,
                columns: Seq::empty(),
                values: Seq::empty(),
                limit: None,
            }),
    {
        let r = InsertBuilder { table, columns: Vec::new(), values: Vec::new(), limit: None };
        proof {
            assert(strs(Seq::<String>::empty()) =~= Seq::<Seq<char>>::empty());
            assert(strss(Seq::<Vec<String>>::empty()) =~= Seq::<Seq<Seq<char>>>::empty());
        }
        r
    }

    /// Stages one value for a column, starting a one-row value sequence.
    /// First write wins: staging an already-staged column is a no-op.
    pub fn stage(self, column: &str, value: &str) -> (r: Self)
        ensures
            r@ == (if self@.columns.contains(column@) {
                self@
            } else {
                InsertView {
                    columns: self@.columns.push(column@),
                    values: self@.values.push(seq![value@]),
                    ..self@
                }
            }),
    {
        if contains_str(&self.columns, column) {
            return self;
        }
        proof {
            use_type_invariant(&self);
        }
        let InsertBuilder { table, mut columns, mut values, limit } = self;
        let mut staged: Vec<String> = Vec::new();
        staged.push(String::from_str(value));
        let key = String::from_str(column);
        proof {
            assert(strs(staged@) =~= seq![value@]);
            lemma_strs_push(columns@, key);
            lemma_strss_push(values@, staged);
        }
        columns.push(key);
        values.push(staged);
        InsertBuilder { table, columns, values, limit }
    }

    /// Stages a whole value sequence for a column — one entry per row of a
    /// multi-row batch.  First write wins, exactly as [`Self::stage`].
    pub fn stage_values(self, column: &str, values: Vec<String>) -> (r: Self)
        ensures
            r@ == (if self@.columns.contains(column@) {
                self@
            } else {
                InsertView {
                    columns: self@.columns.push(column@),
                    values: self@.values.push(strs(values@)),
                    ..self@
                }
            }),
    {
        if contains_str(&self.columns, column) {
            return self;
        }
        proof {
            use_type_invariant(&self);
        }
        let InsertBuilder { table, mut columns, values: mut staged_values, limit } = self;
        let key = String::from_str(column);
        proof {
            lemma_strs_push(columns@, key);
            lemma_strss_push(staged_values@, values);
        }
        columns.push(key);
        staged_values.push(values);
        InsertBuilder { table, columns, values: staged_values, limit }
    }

    /// Sets the limit field.  Accepted for interface symmetry with the
    /// Select Builder; rendering never reads it.
    pub fn limit(self, limit: u32) -> (r: Self)
        ensures
            r@ == (InsertView { limit: Some(limit), ..self@ }),
    {
        proof {
            use_type_invariant(&self);
        }
        let mut this = self;
        this.limit = Some(limit);
        this
    }

    /// Renders the statement, or reports why the staged shape cannot be
    /// rendered.  Read-only; success exactly when at least one column and at
    /// least one row are staged and every column holds the same number of
    /// values.
    pub fn build(&self) -> (r: Result<String, InsertError>)
        ensures
            build_result(self@, r),
    {
        proof {
            use_type_invariant(self);
            assert(self@.columns.len() == self@.values.len());
        }
        if self.columns.len() == 0 {
            return Err(InsertError::MalformedQuery);
        }
        let rows = self.values[0].len();
        let n = self.values.len();
        let mut j: usize = 1;
        while j < n
            invariant
                1 <= j <= n,
                n == self@.values.len(),
                n == self.values@.len(),
                n == self.columns@.len(),
                n > 0,
                rows == self@.values[0].len(),
                forall|k: int| 0 <= k < j ==> (#[trigger] self@.values[k]).len() == self@.values[0].len(),
            decreases n - j,
        {
            if self.values[j].len() != rows {
                proof {
                    assert(self@.values[j as int] == strs(self.values@[j as int]@));
                    assert(self@.values[j as int].len() != self@.values[0].len());
                    lemma_scan_uneven_finds(self@.values, 1, j as int);
                    assert(self@.columns[0] == self.columns@[0]@);
                    assert(self@.columns[j as int] == self.columns@[j as int]@);
                }
                return Err(
                    InsertError::RowShapeMismatch {
                        first_column: self.columns[0].clone(),
                        offending_column: self.columns[j].clone(),
                    },
                );
            }
            j = j + 1;
        }
        if rows == 0 {
            return Err(InsertError::MalformedQuery);
        }
        let mut s = String::from_str("INSERT INTO ");
        s.append(self.table.as_str());
        s.append("\n(");
        append_listed(&mut s, &self.columns, ", ");
        s.append(") VALUES");
        let ghost base = s@;
        let mut i: usize = 0;
        while i < rows
            invariant
                i <= rows,
                n == self@.values.len(),
                n == self.values@.len(),
                n > 0,
                rows == self@.values[0].len(),
                rectangular(self@.values),
                s@ + rows_text(self@.values, rows as int, i as int) == base + rows_text(
                    self@.values,
                    rows as int,
                    0,
                ),
            decreases rows - i,
        {
            let ghost pre = s@;
            let ghost piece = (" ("@ + tuple_text(row_at(self@.values, i as int)) + ")"@ + (if i
                + 1 == rows {
                Seq::<char>::empty()
            } else {
                ","@
            }));
            s.append(" (");
            self.append_tuple(&mut s, i, rows);
            s.append(")");
            if i + 1 != rows {
                s.append(",");
            }
            proof {
                assert(s@ =~= pre + piece);
                assert(rows_text(self@.values, rows as int, i as int) == piece + rows_text(
                    self@.values,
                    rows as int,
                    i as int + 1,
                ));
                assert(pre + (piece + rows_text(self@.values, rows as int, i as int + 1)) =~= (pre
                    + piece) + rows_text(self@.values, rows as int, i as int + 1));
            }
            i = i + 1;
        }
        proof {
            assert(rows_text(self@.values, rows as int, rows as int) =~= Seq::<char>::empty());
            assert(s@ + Seq::<char>::empty() =~= s@);
            assert(s@ =~= insert_render(self@));
        }
        Ok(s)
    }

    /// Appends row `i`'s value tuple: each column's `i`-th staged value,
    /// single-quoted, comma-separated, in column order.
    fn append_tuple(&self, s: &mut String, i: usize, rows: usize)
        requires
            self@.values.len() > 0,
            rectangular(self@.values),
            rows == self@.values[0].len(),
            i < rows,
        ensures
            final(s)@ == old(s)@ + tuple_text(row_at(self@.values, i as int)),
    {
        let ghost mapped = row_at(self@.values, i as int).map_values(|v: Seq<char>| quoted(v));
        let ghost base = s@;
        let n = self.values.len();
        let mut j: usize = 0;
        while j < n
            invariant
                j <= n,
                n == self@.values.len(),
                n == self.values@.len(),
                rectangular(self@.values),
                rows == self@.values[0].len(),
                i < rows,
                mapped == row_at(self@.values, i as int).map_values(|v: Seq<char>| quoted(v)),
                s@ + listed(mapped, ", "@, j as int) == base + listed(mapped, ", "@, 0),
            decreases n - j,
        {
            let ghost pre = s@;
            let ghost piece = (mapped[j as int] + (if j + 1 == n {
                Seq::<char>::empty()
            } else {
                ", "@
            }));
            proof {
                assert(self@.values[j as int].len() == self@.values[0].len());
                assert(self@.values[j as int] == strs(self.values@[j as int]@));
            }
            s.append("'");
            s.append(self.values[j][i].as_str());
            s.append("'");
            if j + 1 != n {
                s.append(", ");
            }
            proof {
                assert(mapped[j as int] == quoted(self@.values[j as int][i as int]));
                assert(s@ =~= pre + piece);
                assert(listed(mapped, ", "@, j as int) == piece + listed(mapped, ", "@, j as int + 1));
                assert(pre + (piece + listed(mapped, ", "@, j as int + 1)) =~= (pre + piece)
                    + listed(mapped, ", "@, j as int + 1));
            }
            j = j + 1;
        }
        proof {
            assert(listed(mapped, ", "@, n as int) =~= Seq::<char>::empty());
            assert(s@ + Seq::<char>::empty() =~= s@);
        }
    }
}

/// First write wins: once a column is staged it is among the staged
/// columns, so a later staging of the same column — whatever its value —
/// returns the builder unchanged by the staging contract, and the first
/// value is the one rendered.
pub proof fn lemma_restage_noop(v: InsertView, column: Seq<char>, value: Seq<char>)
    ensures
        ({
            let staged = InsertView {
                columns: v.columns.push(column),
                values: v.values.push(seq![value]),
                ..v
            };
            staged.columns.contains(column)
        }),
{
    let staged_columns = v.columns.push(column);
    assert(staged_columns[v.columns.len() as int] == column);
}

/// Columns staged at differing value-counts cannot render: every outcome
/// that `build` admits for such a state is a row-shape mismatch naming the
/// first staged column and the first disagreeing one — never a statement
/// and never a bare malformed-query report.
pub proof fn lemma_uneven_must_mismatch(v: InsertView, r: Result<String, InsertError>)
    requires
        v.columns.len() == v.values.len(),
        !rectangular(v.values),
        build_result(v, r),
    ensures
        ({
            let k = scan_uneven(v.values, 1);
            r matches Err(e) && e matches InsertError::RowShapeMismatch {
                first_column,
                offending_column,
            } && first_column@ == v.columns[0] && offending_column@ == v.columns[k]
        }),
{
    match r {
        Result::Ok(_) => {
            assert(false);
        },
        Result::Err(e) => match e {
            InsertError::MalformedQuery => {
                assert(v.values.len() > 0);
                assert(false);
            },
            InsertError::RowShapeMismatch { .. } => {},
        },
    }
}

/// Single-row staging of two columns renders
/// `INSERT INTO <t>\n(<c1>, <c2>) VALUES ('<x1>', '<x2>')`: column order is
/// first-write order and each value is single-quoted in the one row tuple.
pub proof fn lemma_insert_single_row(
    t: Seq<char>,
    c1: Seq<char>,
    x1: Seq<char>,
    c2: Seq<char>,
    x2: Seq<char>,
)
    ensures
        ({
            let v = InsertView {
                table: t,
                columns: seq![c1, c2],
                values: seq![seq![x1], seq![x2]],
                limit: None,
            };
            insert_render(v) == "INSERT INTO "@ + t + "\n("@ + c1 + ", "@ + c2 + ") VALUES ('"@
                + x1 + "', '"@ + x2 + "')"@
        }),
{
    reveal_strlit("INSERT INTO ");
    reveal_strlit("\n(");
    reveal_strlit(", ");
    reveal_strlit(") VALUES");
    reveal_strlit(") VALUES ('");
    reveal_strlit(" (");
    reveal_strlit(")");
    reveal_strlit("'");
    reveal_strlit("', '");
    reveal_strlit("')");
    let v = InsertView {
        table: t,
        columns: seq![c1, c2],
        values: seq![seq![x1], seq![x2]],
        limit: None,
    };
    let cols = seq![c1, c2];
    assert(listed(cols, ", "@, 2) =~= Seq::<char>::empty());
    assert(listed(cols, ", "@, 1) =~= c2);
    assert(listed(cols, ", "@, 0) =~= c1 + ", "@ + c2);
    let row = row_at(v.values, 0);
    assert(row =~= seq![x1, x2]);
    let q = row.map_values(|w: Seq<char>| quoted(w));
    assert(q =~= seq![quoted(x1), quoted(x2)]);
    assert(listed(q, ", "@, 2) =~= Seq::<char>::empty());
    assert(listed(q, ", "@, 1) =~= quoted(x2));
    assert(listed(q, ", "@, 0) =~= quoted(x1) + ", "@ + quoted(x2));
    assert(tuple_text(row) =~= quoted(x1) + ", "@ + quoted(x2));
    assert(rows_text(v.values, 1, 1) =~= Seq::<char>::empty());
    assert(rows_text(v.values, 1, 0) =~= " ("@ + tuple_text(row) + ")"@);
    assert(insert_render(v) =~= "INSERT INTO "@ + t + "\n("@ + c1 + ", "@ + c2 + ") VALUES ('"@
        + x1 + "', '"@ + x2 + "')"@);
}

/// When every column before `j` (from index 1 on) agrees with the first
/// column's value-count and column `j` does not, the scan stops at `j`.
proof fn lemma_scan_uneven_finds(values: Seq<Seq<Seq<char>>>, a: int, j: int)
    requires
        1 <= a <= j < values.len(),
        values[j].len() != values[0].len(),
        forall|k: int| a <= k < j ==> (#[trigger] values[k]).len() == values[0].len(),
    ensures
        scan_uneven(values, a) == j,
    decreases j - a,
{
    if a < j {
        lemma_scan_uneven_finds(values, a + 1, j);
    }
}

} // verus!
