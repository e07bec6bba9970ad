//! The Schema Descriptor: the static input describing one record shape —
//! table name, display alias, primary-key name and the ordered column list —
//! plus the factory operations that construct builders pre-populated with
//! that data.
//!
//! Column method dispatch is by runtime argument: every builder operation
//! takes the column name it works on, and the descriptor supplies the
//! canonical `(qualified, bare)` pair for each declared column.

use vstd::prelude::*;
use vstd::string::*;
use crate::delete::DeleteBuilder;
use crate::insert::InsertBuilder;
use crate::render::{listed, to_upper, upper_of};
use crate::select::{
    alias_token,
    lemma_fresh_render,
    select_render,
    SelectBuilder,
    SelectView,
};
use crate::text::strs;
use crate::update::UpdateBuilder;

verus! {

/// One declared column: its table-qualified name and its bare name.
pub struct Column {
    qualified: String,
    bare: String,
}

/// The abstract state of a column pair.
#[verifier::ext_equal]
pub ghost struct ColumnView {
    pub qualified: Seq<char>,
    pub bare: Seq<char>,
}

impl View for Column {
    type V = ColumnView;

    closed spec fn view(&self) -> ColumnView {
        ColumnView { qualified: self.qualified@, bare: self.bare@ }
    }
}

impl Column {
    /// The table-qualified name, e.g. `orders.id`.
    pub fn qualified(&self) -> (r: &str)
        ensures
            r@ == self@.qualified,
    {
        self.qualified.as_str()
    }

    /// The bare name, e.g. `id`.
    pub fn bare(&self) -> (r: &str)
        ensures
            r@ == self@.bare,
    {
        self.bare.as_str()
    }
}

/// The abstract state of a schema descriptor.
#[verifier::ext_equal]
pub ghost struct SchemaView {
    pub table: Seq<char>,
    pub alias: Seq<char>,
    pub primary_key: Seq<char>,
    pub columns: Seq<ColumnView>,
}

/// A record shape registered once per record type: table name, display
/// alias (the table name when none was declared), primary-key name (empty
/// when no key was declared) and the ordered column list.
pub struct Schema {
    table: String,
    alias: String,
    primary_key: String,
    columns: Vec<Column>,
}

/// The column views held by a vector of columns.
pub open spec fn col_views(v: Seq<Column>) -> Seq<ColumnView> {
    v.map_values(|c: Column| c@)
}

proof fn lemma_col_views_push(v: Seq<Column>, c: Column)
    ensures
        col_views(v.push(c)) =~= col_views(v).push(c@),
{
}

impl View for Schema {
    type V = SchemaView;

    closed spec fn view(&self) -> SchemaView {
        SchemaView {
            table: self.table@,
            alias: self.alias@,
            primary_key: self.primary_key@,
            columns: col_views(self.columns@),
        }
    }
}

/// A column's qualified name: `<alias>.<bare>` under a table context, the
/// bare name alone without one.
pub open spec fn qualified_name(table: Seq<char>, alias: Seq<char>, bare: Seq<char>) -> Seq<char> {
    if table.len() > 0 {
        alias + "."@ + bare
    } else {
        bare
    }
}

/// The column views that registration derives from the bare names.
pub open spec fn columns_view(table: Seq<char>, alias: Seq<char>, bares: Seq<Seq<char>>) -> Seq<
    ColumnView,
> {
    bares.map_values(
        |b: Seq<char>| ColumnView { qualified: qualified_name(table, alias, b), bare: b },
    )
}

/// The seed of a full `select()`: all qualified columns in declaration
/// order, comma-separated, or `*` when the record declares no column.
pub open spec fn select_all(v: SchemaView) -> Seq<char> {
    if v.columns.len() == 0 {
        "*"@
    } else {
        listed(v.columns.map_values(|c: ColumnView| c.qualified), ", "@, 0)
    }
}

/// A select view fresh from a factory: the given seed, every list empty, no
/// limit, and the schema's table data.
pub open spec fn fresh_select(v: SchemaView, selected: Seq<char>) -> SelectView {
    SelectView {
        selected: selected,
        joins: Seq::empty(),
        where_conditions: Seq::empty(),
        group_by: Seq::empty(),
        order_by: Seq::empty(),
        having: Seq::empty(),
        limit: None,
        table: v.table,
        alias: v.alias,
        primary_key: v.primary_key,
    }
}

impl Schema {
    /// Registers a record shape.  The alias defaults to the table name; an
    /// empty `primary_key` means no key was declared, which withholds the
    /// primary-key join operations of the Select Builder.  Each bare column
    /// name is qualified as `<alias>.<bare>` (the bare name alone when the
    /// table name is empty).
    pub fn new(table: String, alias: Option<String>, primary_key: String, bare_columns: Vec<
        String,
    >) -> (r: Self)
        ensures
            r@ == (SchemaView {
                table: table@,
                alias: (match alias {
                    Option::Some(a) => a@,
                    Option::None => table@,
                }),
                primary_key: primary_key@,
                columns: columns_view(
                    table@,
                    (match alias {
                        Option::Some(a) => a@,
                        Option::None => table@,
                    }),
                    strs(bare_columns@),
                ),
            }),
    {
        let alias_resolved = match alias {
            Option::Some(a) => a,
            Option::None => table.clone(),
        };
        let ghost target = columns_view(table@, alias_resolved@, strs(bare_columns@));
        let mut columns: Vec<Column> = Vec::new();
        let n = bare_columns.len();
        let mut i: usize = 0;
        while i < n
            invariant
                i <= n,
                n == bare_columns@.len(),
                target == columns_view(table@, alias_resolved@, strs(bare_columns@)),
                target.len() == n,
                col_views(columns@) =~= target.subrange(0, i as int),
            decreases n - i,
        {
            let bare = bare_columns[i].clone();
            let qualified = if !table.as_str().is_empty() {
                let mut q = String::from_str(alias_resolved.as_str());
                q.append(".");
                q.append(bare.as_str());
                q
            } else {
                bare.clone()
            };
            let column = Column { qualified, bare };
            proof {
                assert(column@ == target[i as int]);
                lemma_col_views_push(columns@, column);
            }
            columns.push(column);
            proof {
                assert(col_views(columns@) =~= target.subrange(0, i as int + 1));
            }
            i = i + 1;
        }
        proof {
            assert(target.subrange(0, n as int) =~= target);
        }
        Schema { table, alias: alias_resolved, primary_key, columns }
    }

    /// The table name.
    pub fn table(&self) -> (r: &str)
        ensures
            r@ == self@.table,
    {
        self.table.as_str()
    }

    /// The display alias.
    pub fn alias(&self) -> (r: &str)
        ensures
            r@ == self@.alias,
    {
        self.alias.as_str()
    }

    /// The primary-key name; empty when no key was declared.
    pub fn table_primary_key(&self) -> (r: &str)
        ensures
            r@ == self@.primary_key,
    {
        self.primary_key.as_str()
    }

    /// The declared columns, in declaration order.
    pub fn columns(&self) -> (r: &Vec<Column>)
        ensures
            col_views(r@) == self@.columns,
    {
        &self.columns
    }

    /// A Select Builder seeded with every qualified column in declaration
    /// order (`*` when the record declares no column).
    pub fn select(&self) -> (r: SelectBuilder)
        ensures
            r@ == fresh_select(self@, select_all(self@)),
    {
        let selected = self.all_columns_text();
        SelectBuilder::seeded(
            selected,
            self.table.clone(),
            self.alias.clone(),
            self.primary_key.clone(),
        )
    }

    /// A Select Builder seeded with a single expression, usually one
    /// qualified column.
    pub fn select_column(&self, column: &str) -> (r: SelectBuilder)
        ensures
            r@ == fresh_select(self@, column@),
    {
        SelectBuilder::seeded(
            String::from_str(column),
            self.table.clone(),
            self.alias.clone(),
            self.primary_key.clone(),
        )
    }

    /// A Select Builder seeded with an aggregate call over an expression;
    /// the function name is upper-cased before embedding.
    pub fn select_aggregate(&self, function: &str, over: &str) -> (r: SelectBuilder)
        ensures
            r@ == fresh_select(self@, upper_of(function@) + "("@ + over@ + ")"@),
    {
        let mut selected = to_upper(function);
        selected.append("(");
        selected.append(over);
        selected.append(")");
        SelectBuilder::seeded(
            selected,
            self.table.clone(),
            self.alias.clone(),
            self.primary_key.clone(),
        )
    }

    /// A Select Builder seeded with an aggregate call under a display alias.
    pub fn select_aggregate_as(&self, function: &str, over: &str, alias: &str) -> (r: SelectBuilder)
        ensures
            r@ == fresh_select(self@, upper_of(function@) + "("@ + over@ + ") AS "@ + alias@),
    {
        let mut selected = to_upper(function);
        selected.append("(");
        selected.append(over);
        selected.append(") AS ");
        selected.append(alias);
        SelectBuilder::seeded(
            selected,
            self.table.clone(),
            self.alias.clone(),
            self.primary_key.clone(),
        )
    }

    /// A Select Builder seeded with a raw expression, embedded verbatim.
    pub fn select_str(&self, select: &str) -> (r: SelectBuilder)
        ensures
            r@ == fresh_select(self@, select@),
    {
        SelectBuilder::seeded(
            String::from_str(select),
            self.table.clone(),
            self.alias.clone(),
            self.primary_key.clone(),
        )
    }

    /// A Select Builder seeded with a raw expression under a display alias.
    pub fn select_str_as(&self, select: &str, alias: &str) -> (r: SelectBuilder)
        ensures
            r@ == fresh_select(self@, "("@ + select@ + ") AS "@ + alias@),
    {
        let mut selected = String::from_str("(");
        selected.append(select);
        selected.append(") AS ");
        selected.append(alias);
        SelectBuilder::seeded(
            selected,
            self.table.clone(),
            self.alias.clone(),
            self.primary_key.clone(),
        )
    }

    /// A fresh Insert Builder for this table.
    pub fn insert(&self) -> (r: InsertBuilder)
        ensures
            r@.table == self@.table,
            r@.columns == Seq::<Seq<char>>::empty(),
            r@.values == Seq::<Seq<Seq<char>>>::empty(),
            r@.limit is None,
    {
        InsertBuilder::fresh(self.table.clone())
    }

    /// A fresh Update Builder for this table.
    pub fn update(&self) -> (r: UpdateBuilder)
        ensures
            r@.table == self@.table,
            r@.columns == Seq::<Seq<char>>::empty(),
            r@.values == Seq::<Seq<char>>::empty(),
    {
        UpdateBuilder::fresh(self.table.clone())
    }

    /// A fresh Delete Builder for this table.
    pub fn delete(&self) -> (r: DeleteBuilder)
        ensures
            r@ == self@.table,
    {
        DeleteBuilder::fresh(self.table.clone())
    }

    /// The comma-separated qualified column list seeding `select()`.
    fn all_columns_text(&self) -> (r: String)
        ensures
            r@ == select_all(self@),
    {
        if self.columns.len() == 0 {
            return String::from_str("*");
        }
        let ghost quals = self@.columns.map_values(|c: ColumnView| c.qualified);
        let mut s = String::new();
        let ghost base = s@;
        let n = self.columns.len();
        let mut i: usize = 0;
        while i < n
            invariant
                i <= n,
                n == self.columns@.len(),
                n > 0,
                quals == self@.columns.map_values(|c: ColumnView| c.qualified),
                quals.len() == n,
                s@ + listed(quals, ", "@, i as int) == base + listed(quals, ", "@, 0),
            decreases n - i,
        {
            let ghost pre = s@;
            let ghost piece = (quals[i as int] + (if i + 1 == n {
                Seq::<char>::empty()
            } else {
                ", "@
            }));
            s.append(self.columns[i].qualified.as_str());
            if i + 1 != n {
                s.append(", ");
            }
            proof {
                assert(quals[i as int] == self@.columns[i as int].qualified);
                assert(self@.columns[i as int] == self.columns@[i as int]@);
                assert(s@ =~= pre + piece);
                assert(listed(quals, ", "@, i as int) == piece + listed(quals, ", "@, i as int + 1));
                assert(pre + (piece + listed(quals, ", "@, i as int + 1)) =~= (pre + piece) + listed(
                    quals,
                    ", "@,
                    i as int + 1,
                ));
            }
            i = i + 1;
        }
        proof {
            assert(listed(quals, ", "@, n as int) =~= Seq::<char>::empty());
            assert(s@ + Seq::<char>::empty() =~= s@);
            assert(base =~= Seq::<char>::empty());
            assert(Seq::<char>::empty() + listed(quals, ", "@, 0) =~= listed(quals, ", "@, 0));
        }
        s
    }
}

/// A full `select()` over a record with at least one declared column, with
/// nothing chained after it, renders `SELECT` followed by the qualified
/// columns in declaration order, comma-separated, then ` \nFROM <table> `
/// and the alias token, with no trailing clause.
pub proof fn lemma_select_fresh_statement(v: SchemaView)
    requires
        v.columns.len() > 0,
    ensures
        select_render(fresh_select(v, select_all(v))) == "SELECT "@ + listed(
            v.columns.map_values(|c: ColumnView| c.qualified),
            ", "@,
            0,
        ) + " \nFROM "@ + v.table + " "@ + alias_token(v.table, v.alias),
{
    lemma_fresh_render(fresh_select(v, select_all(v)));
}

} // verus!
