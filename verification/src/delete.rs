//! The Delete Builder: holds only the table name.  Both operations are
//! terminal: the predicate arrives with the call and the statement text is
//! returned directly.

use vstd::prelude::*;
use vstd::string::*;
use crate::render::eq_pred;

verus! {

/// Renders `DELETE FROM` statements for one table.
pub struct DeleteBuilder {
    table: String,
}

impl View for DeleteBuilder {
    type V = Seq<char>;

    closed spec fn view(&self) -> Seq<char> {
        self.table@
    }
}

impl Clone for DeleteBuilder {
    /// A copy that renders the same statements.
    fn clone(&self) -> (r: Self)
        ensures
            r@ == self@,
    {
        DeleteBuilder { table: self.table.clone() }
    }
}

impl DeleteBuilder {
    /// A fresh builder over the given table.
    pub(crate) fn fresh(table: String) -> (r: Self)
        ensures
            r@ == table@,
    {
        DeleteBuilder { table }
    }

    /// Terminal call: renders `DELETE FROM <table> WHERE <column> = '<value>'`.
    pub fn delete_where_column_eq(self, column: &str, value: &str) -> (r: String)
        ensures
            r@ == "DELETE FROM "@ + self@ + " WHERE "@ + eq_pred(column@, value@),
    {
        let mut s = self.render_head();
        s.append(column);
        s.append(" = '");
        s.append(value);
        s.append("'");
        s
    }

    /// Terminal call: renders `DELETE FROM <table> WHERE <raw>` with the
    /// predicate embedded verbatim.
    pub fn delete_where_str(self, raw: &str) -> (r: String)
        ensures
            r@ == "DELETE FROM "@ + self@ + " WHERE "@ + raw@,
    {
        let mut s = self.render_head();
        s.append(raw);
        s
    }

    /// Renders `DELETE FROM <table> WHERE `, shared by both terminal calls.
    fn render_head(&self) -> (r: String)
        ensures
            r@ == "DELETE FROM "@ + self@ + " WHERE "@,
    {
        let mut s = String::from_str("DELETE FROM ");
        s.append(self.table.as_str());
        s.append(" WHERE ");
        s
    }
}

} // verus!
