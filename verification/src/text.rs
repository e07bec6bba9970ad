//! Small text utilities shared by the builders: viewing a vector of strings
//! as a sequence of character sequences, recognising blank input, and
//! rendering a number in decimal.

use vstd::prelude::*;
use vstd::string::*;

verus! {

/// The character sequences held by a sequence of strings.
pub open spec fn strs(v: Seq<String>) -> Seq<Seq<char>> {
    v.map_values(|s: String| s@)
}

pub proof fn lemma_strs_push(v: Seq<String>, s: String)
    ensures
        strs(v.push(s)) =~= strs(v).push(s@),
{
}

/// The character sequences held by each string vector in a sequence of them.
pub open spec fn strss(v: Seq<Vec<String>>) -> Seq<Seq<Seq<char>>> {
    v.map_values(|c: Vec<String>| strs(c@))
}

pub proof fn lemma_strss_push(v: Seq<Vec<String>>, c: Vec<String>)
    ensures
        strss(v.push(c)) =~= strss(v).push(strs(c@)),
{
}

/// Copies a fragment list; the copy reads the same and shares nothing, so
/// builders cloned for branching cannot interfere.
pub(crate) fn clone_strings(v: &Vec<String>) -> (r: Vec<String>)
    ensures
        strs(r@) == strs(v@),
        r@.len() == v@.len(),
{
    let mut r: Vec<String> = Vec::new();
    let n = v.len();
    let mut i: usize = 0;
    while i < n
        invariant
            i <= n,
            n == v@.len(),
            r@.len() == i,
            strs(r@) =~= strs(v@).subrange(0, i as int),
        decreases n - i,
    {
        let s = v[i].clone();
        proof {
            lemma_strs_push(r@, s);
        }
        r.push(s);
        proof {
            assert(strs(r@) =~= strs(v@).subrange(0, i as int + 1));
        }
        i = i + 1;
    }
    proof {
        assert(strs(v@).subrange(0, n as int) =~= strs(v@));
    }
    r
}

/// Copies a list of value sequences, as [`clone_strings`] copies a fragment
/// list.
pub(crate) fn clone_string_rows(v: &Vec<Vec<String>>) -> (r: Vec<Vec<String>>)
    ensures
        strss(r@) == strss(v@),
        r@.len() == v@.len(),
{
    let mut r: Vec<Vec<String>> = Vec::new();
    let n = v.len();
    let mut i: usize = 0;
    while i < n
        invariant
            i <= n,
            n == v@.len(),
            r@.len() == i,
            strss(r@) =~= strss(v@).subrange(0, i as int),
        decreases n - i,
    {
        let s = clone_strings(&v[i]);
        proof {
            lemma_strss_push(r@, s);
        }
        r.push(s);
        proof {
            assert(strss(r@) =~= strss(v@).subrange(0, i as int + 1));
        }
        i = i + 1;
    }
    proof {
        assert(strss(v@).subrange(0, n as int) =~= strss(v@));
    }
    r
}

/// Whether some string in the list reads as `key`.
pub(crate) fn contains_str(list: &Vec<String>, key: &str) -> (r: bool)
    ensures
        r == strs(list@).contains(key@),
{
    let k = String::from_str(key);
    let n = list.len();
    let mut i: usize = 0;
    while i < n
        invariant
            i <= n,
            n == list@.len(),
            k@ == key@,
            forall|j: int| 0 <= j < i ==> strs(list@)[j] != key@,
        decreases n - i,
    {
        if list[i] == k {
            assert(strs(list@)[i as int] == key@);
            return true;
        }
        i = i + 1;
    }
    assert(forall|j: int| 0 <= j < strs(list@).len() ==> strs(list@)[j] != key@);
    false
}

/// Pushes a fragment onto a fragment list.
pub(crate) fn push_fragment(list: &mut Vec<String>, fragment: String)
    ensures
        strs(final(list)@) == strs(old(list)@).push(fragment@),
{
    proof {
        lemma_strs_push(list@, fragment);
    }
    list.push(fragment);
}

/// A character with the Unicode `White_Space` property.
pub open spec fn spec_is_space(c: char) -> bool {
    let u = c as u32;
    (0x9 <= u && u <= 0xD) || u == 0x20 || u == 0x85 || u == 0xA0 || u == 0x1680 || (0x2000 <= u
        && u <= 0x200A) || u == 0x2028 || u == 0x2029 || u == 0x202F || u == 0x205F || u == 0x3000
}

/// A string that is empty or made of whitespace only.
pub open spec fn blank(s: Seq<char>) -> bool {
    forall|i: int| 0 <= i < s.len() ==> spec_is_space(s[i])
}

fn is_space(c: char) -> (r: bool)
    ensures
        r == spec_is_space(c),
{
    let u = c as u32;
    (0x9 <= u && u <= 0xD) || u == 0x20 || u == 0x85 || u == 0xA0 || u == 0x1680 || (0x2000 <= u
        && u <= 0x200A) || u == 0x2028 || u == 0x2029 || u == 0x202F || u == 0x205F || u == 0x3000
}

/// Whether the whole string is whitespace (an empty string counts as blank).
pub fn is_blank(s: &str) -> (r: bool)
    ensures
        r == blank(s@),
{
    let n = s.unicode_len();
    let mut i: usize = 0;
    while i < n
        invariant
            i <= n,
            n == s@.len(),
            forall|j: int| 0 <= j < i ==> spec_is_space(s@[j]),
        decreases n - i,
    {
        if !is_space(s.get_char(i)) {
            return false;
        }
        i = i + 1;
    }
    true
}

/// The decimal digit characters of `n`, most significant first.
pub open spec fn dec_seq(n: nat) -> Seq<char>
    decreases n,
{
    if n < 10 {
        seq![digit_char(n)]
    } else {
        dec_seq(n / 10) + seq![digit_char(n % 10)]
    }
}

/// The character for a single decimal digit.
pub open spec fn digit_char(d: nat) -> char {
    if d == 0 {
        '0'
    } else if d == 1 {
        '1'
    } else if d == 2 {
        '2'
    } else if d == 3 {
        '3'
    } else if d == 4 {
        '4'
    } else if d == 5 {
        '5'
    } else if d == 6 {
        '6'
    } else if d == 7 {
        '7'
    } else if d == 8 {
        '8'
    } else {
        '9'
    }
}

fn digit_str(d: u32) -> (r: &'static str)
    requires
        d < 10,
    ensures
        r@ == seq![digit_char(d as nat)],
{
    proof {
        reveal_strlit("0");
        reveal_strlit("1");
        reveal_strlit("2");
        reveal_strlit("3");
        reveal_strlit("4");
        reveal_strlit("5");
        reveal_strlit("6");
        reveal_strlit("7");
        reveal_strlit("8");
        reveal_strlit("9");
    }
    let r = match d {
        0 => "0",
        1 => "1",
        2 => "2",
        3 => "3",
        4 => "4",
        5 => "5",
        6 => "6",
        7 => "7",
        8 => "8",
        _ => "9",
    };
    proof {
        assert(r@ =~= seq![digit_char(d as nat)]);
    }
    r
}

/// Renders `n` in decimal, e.g. `205` as `"205"`.
pub fn u32_to_dec(n: u32) -> (s: String)
    ensures
        s@ == dec_seq(n as nat),
    decreases n,
{
    if n < 10 {
        String::from_str(digit_str(n))
    } else {
        let mut s = u32_to_dec(n / 10);
        s.append(digit_str(n % 10));
        s
    }
}

} // verus!
