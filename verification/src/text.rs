//! Small helpers on strings and lists of strings.

use vstd::prelude::*;
use vstd::string::*;

verus! {

/// The element-wise views of a sequence of values.
pub open spec fn views<T: View>(s: Seq<T>) -> Seq<T::V> {
    s.map_values(|x: T| x@)
}

/// An owned copy of a list of strings.
pub fn clone_strings(list: &Vec<String>) -> (copy: Vec<String>)
    ensures
        views(copy@) == views(list@),
{
    let copy = list.clone();
    assert(views(copy@) =~= copy.deep_view());
    assert(views(list@) =~= list.deep_view());
    copy
}

/// Whether `item` occurs in `list`.
pub fn contains_text(list: &Vec<String>, item: &String) -> (found: bool)
    ensures
        found == views(list@).contains(item@),
{
    let mut i: usize = 0;
    while i < list.len()
        invariant
            i <= list.len(),
            forall|j: int| 0 <= j < i ==> views(list@)[j] != item@,
        decreases list.len() - i,
    {
        if list[i] == *item {
            assert(views(list@)[i as int] == item@);
            return true;
        }
        i += 1;
    }
    false
}

/// A list of one name.
pub(crate) fn names1(a: &str) -> (list: Vec<String>)
    ensures
        views(list@) == seq![a@],
{
    let list = vec![a.to_string()];
    assert(views(list@) =~= seq![a@]);
    list
}

/// A list of two names.
pub(crate) fn names2(a: &str, b: &str) -> (list: Vec<String>)
    ensures
        views(list@) == seq![a@, b@],
{
    let list = vec![a.to_string(), b.to_string()];
    assert(views(list@) =~= seq![a@, b@]);
    list
}

/// A list of three names.
pub(crate) fn names3(a: &str, b: &str, c: &str) -> (list: Vec<String>)
    ensures
        views(list@) == seq![a@, b@, c@],
{
    let list = vec![a.to_string(), b.to_string(), c.to_string()];
    assert(views(list@) =~= seq![a@, b@, c@]);
    list
}

/// A list of four names.
pub(crate) fn names4(a: &str, b: &str, c: &str, d: &str) -> (list: Vec<String>)
    ensures
        views(list@) == seq![a@, b@, c@, d@],
{
    let list = vec![a.to_string(), b.to_string(), c.to_string(), d.to_string()];
    assert(views(list@) =~= seq![a@, b@, c@, d@]);
    list
}

/// The list without a name.
pub(crate) fn no_names() -> (list: Vec<String>)
    ensures
        views(list@) == Seq::<Seq<char>>::empty(),
{
    let list: Vec<String> = Vec::new();
    assert(views(list@) =~= Seq::<Seq<char>>::empty());
    list
}

/// Whether `fragment` occurs in `text`: some stretch of `text` equals it.
pub open spec fn occurs_in(fragment: Seq<char>, text: Seq<char>) -> bool {
    exists|i: int|
        0 <= i <= text.len() - fragment.len() && #[trigger] text.subrange(i, i + fragment.len())
            == fragment
}

/// Whether `fragment` occurs in `text`.
///
/// Calls `str::contains` with a string as the pattern, which the standard
/// library documents to return true exactly when the pattern matches a
/// sub-slice of the string.
#[verifier::external_body]
pub(crate) fn has_fragment(text: &str, fragment: &str) -> (found: bool)
    ensures
        found == occurs_in(fragment@, text@),
{
    text.contains(fragment)
}

/// The decimal digits of `n`, most significant first.
pub open spec fn decimal(n: nat) -> Seq<char>
    decreases n,
{
    if n < 10 {
        seq![digit(n)]
    } else {
        decimal(n / 10).push(digit(n % 10))
    }
}

/// The character of a single decimal digit.
pub open spec fn digit(d: nat) -> char {
    if d == 0 {
        '0'
    } else if d == 1 {
        '1'
    } else if d == 2 {
        '2'
    } else if d == 3 {
        '3'
    } else if d == 4 {
        '4'
    } else if d == 5 {
        '5'
    } else if d == 6 {
        '6'
    } else if d == 7 {
        '7'
    } else if d == 8 {
        '8'
    } else {
        '9'
    }
}

fn digit_text(d: u64) -> (s: &'static str)
    requires
        d < 10,
    ensures
        s@ == seq![digit(d as nat)],
{
    proof {
        reveal_strlit("0");
        reveal_strlit("1");
        reveal_strlit("2");
        reveal_strlit("3");
        reveal_strlit("4");
        reveal_strlit("5");
        reveal_strlit("6");
        reveal_strlit("7");
        reveal_strlit("8");
        reveal_strlit("9");
    }
    let s = if d == 0 {
        "0"
    } else if d == 1 {
        "1"
    } else if d == 2 {
        "2"
    } else if d == 3 {
        "3"
    } else if d == 4 {
        "4"
    } else if d == 5 {
        "5"
    } else if d == 6 {
        "6"
    } else if d == 7 {
        "7"
    } else if d == 8 {
        "8"
    } else {
        "9"
    };
    assert(s@ =~= seq![digit(d as nat)]);
    s
}

/// Writes `n` in decimal.
pub fn decimal_text(n: u64) -> (s: String)
    ensures
        s@ == decimal(n as nat),
    decreases n,
{
    if n < 10 {
        String::from_str(digit_text(n))
    } else {
        let head = decimal_text(n / 10);
        let s = head.concat(digit_text(n % 10));
        assert(s@ =~= decimal(n as nat));
        s
    }
}

} // verus!
