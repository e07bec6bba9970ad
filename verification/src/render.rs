//! The rendering vocabulary shared by the builders.
//!
//! Spec functions here define, character for character, how lists of
//! accumulated fragments are glued into clause text, and exec helpers append
//! that text to a statement under construction, proved against the spec
//! functions.

use vstd::prelude::*;
use vstd::string::*;
use crate::text::strs;

verus! {

/// Fragments from index `i` on, each preceded by a space, with `sep` after
/// every fragment but the last.  `WHERE`/`HAVING` clauses use `" AND"` as the
/// separator, `GROUP BY`/`ORDER BY` use `","`.
pub open spec fn sep_items(items: Seq<Seq<char>>, sep: Seq<char>, i: int) -> Seq<char>
    decreases items.len() - i,
{
    if i < 0 || i >= items.len() {
        Seq::empty()
    } else {
        " "@ + items[i] + (if i + 1 == items.len() {
            Seq::<char>::empty()
        } else {
            sep
        }) + sep_items(items, sep, i + 1)
    }
}

/// A whole optional clause: nothing when no fragment was accumulated, else
/// the clause keyword followed by the separated fragments.
pub open spec fn headed(header: Seq<char>, items: Seq<Seq<char>>, sep: Seq<char>) -> Seq<char> {
    if items.len() == 0 {
        Seq::empty()
    } else {
        header + sep_items(items, sep, 0)
    }
}

/// Join fragments from index `i` on, each wrapped in single spaces.
pub open spec fn join_items(items: Seq<Seq<char>>, i: int) -> Seq<char>
    decreases items.len() - i,
{
    if i < 0 || i >= items.len() {
        Seq::empty()
    } else {
        " "@ + items[i] + " "@ + join_items(items, i + 1)
    }
}

/// The join block of a `SELECT` statement: empty when no join was
/// accumulated, else a leading space followed by the spaced join fragments.
pub open spec fn joins_block(items: Seq<Seq<char>>) -> Seq<char> {
    if items.len() == 0 {
        Seq::empty()
    } else {
        " "@ + join_items(items, 0)
    }
}

/// Items from index `i` on with `sep` between neighbours and nothing added
/// around the first or last: the shape of column lists and `SET` clauses.
pub open spec fn listed(items: Seq<Seq<char>>, sep: Seq<char>, i: int) -> Seq<char>
    decreases items.len() - i,
{
    if i < 0 || i >= items.len() {
        Seq::empty()
    } else {
        items[i] + (if i + 1 == items.len() {
            Seq::<char>::empty()
        } else {
            sep
        }) + listed(items, sep, i + 1)
    }
}

/// A value embedded in single quotes, exactly as the statement text carries
/// it (no escaping of quote characters inside the value).
pub open spec fn quoted(v: Seq<char>) -> Seq<char> {
    "'"@ + v + "'"@
}

/// An equality predicate fragment, `<column> = '<value>'`.
pub open spec fn eq_pred(column: Seq<char>, value: Seq<char>) -> Seq<char> {
    column + " = '"@ + value + "'"@
}

/// A comparison fragment with a verbatim operator, `<column> <op> '<value>'`.
pub open spec fn cmp_pred(column: Seq<char>, op: Seq<char>, value: Seq<char>) -> Seq<char> {
    column + " "@ + op + " '"@ + value + "'"@
}

/// A membership fragment, `<column> IN (<value>)`.
pub open spec fn in_pred(column: Seq<char>, value: Seq<char>) -> Seq<char> {
    column + " IN ("@ + value + ")"@
}

/// A join fragment: newline, join keyword, joined table, and the `ON`
/// equality between that table's key and `rhs`.
pub open spec fn join_text(kw: Seq<char>, table: Seq<char>, key: Seq<char>, rhs: Seq<char>) -> Seq<
    char,
> {
    "\n"@ + kw + " "@ + table + " ON "@ + table + "."@ + key + " = "@ + rhs
}

/// Builds `<column> = '<value>'`.
pub(crate) fn eq_fragment(column: &str, value: &str) -> (r: String)
    ensures
        r@ == eq_pred(column@, value@),
{
    let mut r = String::from_str(column);
    r.append(" = '");
    r.append(value);
    r.append("'");
    r
}

/// Builds `\n<kw> <table> ON <table>.<key> = <rhs>`.
pub(crate) fn join_fragment(kw: &str, table: &str, key: &str, rhs: &str) -> (r: String)
    ensures
        r@ == join_text(kw@, table@, key@, rhs@),
{
    let mut r = String::from_str("\n");
    r.append(kw);
    r.append(" ");
    r.append(table);
    r.append(" ON ");
    r.append(table);
    r.append(".");
    r.append(key);
    r.append(" = ");
    r.append(rhs);
    r
}

/// The uppercase form of a string, as `str::to_uppercase` computes it.
pub uninterp spec fn upper_of(s: Seq<char>) -> Seq<char>;

/// Relies on `str::to_uppercase`: the result is a pure function of the
/// characters of the input (Unicode uppercasing, no locale involved).
#[verifier::external_body]
pub(crate) fn to_upper(s: &str) -> (r: String)
    ensures
        r@ == upper_of(s@),
{
    s.to_uppercase()
}

/// Appends `" "` + fragment (+ separator when more follow) for each
/// accumulated fragment, after the clause keyword — the body of every
/// optional `WHERE`/`GROUP BY`/`HAVING`/`ORDER BY` clause.
pub(crate) fn append_headed(s: &mut String, header: &str, items: &Vec<String>, sep: &str)
    ensures
        final(s)@ == old(s)@ + headed(header@, strs(items@), sep@),
{
    if items.len() == 0 {
        assert(s@ =~= old(s)@ + headed(header@, strs(items@), sep@));
        return ;
    }
    s.append(header);
    let ghost base = s@;
    let n = items.len();
    let mut i: usize = 0;
    while i < n
        invariant
            i <= n,
            n == items@.len(),
            s@ + sep_items(strs(items@), sep@, i as int) == base + sep_items(
                strs(items@),
                sep@,
                0,
            ),
        decreases n - i,
    {
        let ghost pre = s@;
        let ghost its = strs(items@);
        let ghost piece = (" "@ + its[i as int] + (if i + 1 == n {
            Seq::<char>::empty()
        } else {
            sep@
        }));
        s.append(" ");
        s.append(items[i].as_str());
        if i + 1 != n {
            s.append(sep);
        }
        proof {
            assert(s@ =~= pre + piece);
            assert(sep_items(its, sep@, i as int) == piece + sep_items(its, sep@, i as int + 1));
            assert(pre + (piece + sep_items(its, sep@, i as int + 1)) =~= (pre + piece)
                + sep_items(its, sep@, i as int + 1));
        }
        i = i + 1;
    }
    proof {
        assert(sep_items(strs(items@), sep@, n as int) =~= Seq::<char>::empty());
        assert(s@ + Seq::<char>::empty() =~= s@);
        assert(s@ =~= old(s)@ + headed(header@, strs(items@), sep@));
    }
}

/// Appends the join block: each accumulated join fragment wrapped in single
/// spaces, after one leading space.
pub(crate) fn append_joins(s: &mut String, items: &Vec<String>)
    ensures
        final(s)@ == old(s)@ + joins_block(strs(items@)),
{
    if items.len() == 0 {
        assert(s@ =~= old(s)@ + joins_block(strs(items@)));
        return ;
    }
    s.append(" ");
    let ghost base = s@;
    let n = items.len();
    let mut i: usize = 0;
    while i < n
        invariant
            i <= n,
            n == items@.len(),
            s@ + join_items(strs(items@), i as int) == base + join_items(strs(items@), 0),
        decreases n - i,
    {
        let ghost pre = s@;
        let ghost its = strs(items@);
        let ghost piece = (" "@ + its[i as int] + " "@);
        s.append(" ");
        s.append(items[i].as_str());
        s.append(" ");
        proof {
            assert(s@ =~= pre + piece);
            assert(join_items(its, i as int) == piece + join_items(its, i as int + 1));
            assert(pre + (piece + join_items(its, i as int + 1)) =~= (pre + piece) + join_items(
                its,
                i as int + 1,
            ));
        }
        i = i + 1;
    }
    proof {
        assert(join_items(strs(items@), n as int) =~= Seq::<char>::empty());
        assert(s@ + Seq::<char>::empty() =~= s@);
        assert(s@ =~= old(s)@ + joins_block(strs(items@)));
    }
}

/// Appends the items with `sep` between neighbours.
pub(crate) fn append_listed(s: &mut String, items: &Vec<String>, sep: &str)
    ensures
        final(s)@ == old(s)@ + listed(strs(items@), sep@, 0),
{
    let ghost base = s@;
    let n = items.len();
    let mut i: usize = 0;
    while i < n
        invariant
            i <= n,
            n == items@.len(),
            s@ + listed(strs(items@), sep@, i as int) == base + listed(strs(items@), sep@, 0),
        decreases n - i,
    {
        let ghost pre = s@;
        let ghost its = strs(items@);
        let ghost piece = (its[i as int] + (if i + 1 == n {
            Seq::<char>::empty()
        } else {
            sep@
        }));
        s.append(items[i].as_str());
        if i + 1 != n {
            s.append(sep);
        }
        proof {
            assert(s@ =~= pre + piece);
            assert(listed(its, sep@, i as int) == piece + listed(its, sep@, i as int + 1));
            assert(pre + (piece + listed(its, sep@, i as int + 1)) =~= (pre + piece) + listed(
                its,
                sep@,
                i as int + 1,
            ));
        }
        i = i + 1;
    }
    proof {
        assert(listed(strs(items@), sep@, n as int) =~= Seq::<char>::empty());
        assert(s@ + Seq::<char>::empty() =~= s@);
    }
}

} // verus!
