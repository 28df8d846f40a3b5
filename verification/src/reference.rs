//! References of the form `type:id`, the names by which requests and tuples
//! speak of objects.

use vstd::prelude::*;
use vstd::string::*;

verus! {

/// A typed reference to an object of the graph.
#[derive(Debug)]
pub struct ObjectRef {
    pub kind: String,
    pub id: String,
}

/// The mathematical value of an [`ObjectRef`].
pub struct RefModel {
    pub kind: Seq<char>,
    pub id: Seq<char>,
}

impl View for ObjectRef {
    type V = RefModel;

    open spec fn view(&self) -> RefModel {
        RefModel { kind: self.kind@, id: self.id@ }
    }
}

/// The first position at or after `from` that holds the separator, or the
/// length of `s` where there is none.
pub open spec fn segment_end(s: Seq<char>, from: int) -> int
    decreases s.len() - from,
{
    if from < 0 || from >= s.len() {
        s.len() as int
    } else if s[from] == ':' {
        from
    } else {
        segment_end(s, from + 1)
    }
}

/// Whether `s` holds a separator at all.
pub open spec fn has_separator(s: Seq<char>) -> bool {
    s.contains(':')
}

/// What a reference string denotes: the text before the first separator is the
/// type, the text between the first and the second separator (or the end) is
/// the id. A string without a separator denotes nothing.
pub open spec fn parse_spec(s: Seq<char>) -> Option<RefModel> {
    let first = segment_end(s, 0);
    if first >= s.len() {
        None
    } else {
        Some(
            RefModel {
                kind: s.subrange(0, first),
                id: s.subrange(first + 1, segment_end(s, first + 1)),
            },
        )
    }
}

/// The text `type:id` of a reference.
pub open spec fn format_spec(r: RefModel) -> Seq<char> {
    r.kind + seq![':'] + r.id
}

/// `segment_end` stays within the string, finds a separator or the end, and
/// passes over no separator.
pub proof fn lemma_segment_end(s: Seq<char>, from: int)
    requires
        0 <= from <= s.len(),
    ensures
        from <= segment_end(s, from) <= s.len(),
        segment_end(s, from) < s.len() ==> s[segment_end(s, from)] == ':',
        forall|j: int| from <= j < segment_end(s, from) ==> s[j] != ':',
    decreases s.len() - from,
{
    if from < s.len() && s[from] != ':' {
        lemma_segment_end(s, from + 1);
    }
}

/// A string parses exactly when it holds a separator.
pub proof fn lemma_parse_iff_separator(s: Seq<char>)
    ensures
        parse_spec(s) is Some <==> has_separator(s),
{
    lemma_segment_end(s, 0);
    if has_separator(s) {
        let i = choose|i: int| 0 <= i < s.len() && s[i] == ':';
        assert(segment_end(s, 0) <= i);
    }
}

/// Parsing undoes formatting wherever neither part holds a separator.
pub proof fn lemma_parse_format(r: RefModel)
    requires
        !has_separator(r.kind),
        !has_separator(r.id),
    ensures
        parse_spec(format_spec(r)) == Some(r),
{
    let s = format_spec(r);
    let k = r.kind.len() as int;
    assert(s.len() == k + 1 + r.id.len());
    assert(s[k] == ':');
    assert forall|j: int| 0 <= j < k implies s[j] != ':' by {
        assert(s[j] == r.kind[j]);
        assert(r.kind.contains(r.kind[j]));
    }
    lemma_segment_end(s, 0);
    assert(segment_end(s, 0) == k);
    assert forall|j: int| k + 1 <= j < s.len() implies s[j] != ':' by {
        assert(s[j] == r.id[j - k - 1]);
        assert(r.id.contains(r.id[j - k - 1]));
    }
    lemma_segment_end(s, k + 1);
    assert(segment_end(s, k + 1) == s.len());
    assert(s.subrange(0, k) =~= r.kind);
    assert(s.subrange(k + 1, s.len() as int) =~= r.id);
}

/// The positions of the first and of the second separator of `s`, each the
/// length of `s` where there is none, found in one pass.
fn separators(s: &str) -> (found: (usize, usize))
    ensures
        found.0 == segment_end(s@, 0),
        found.0 < s@.len() ==> found.0 < found.1 && found.1 == segment_end(s@, found.0 + 1),
        found.0 <= found.1 <= s@.len(),
{
    let n = s.unicode_len();
    let mut first: usize = n;
    let mut i: usize = 0;
    for c in it: s.chars()
        invariant
            n == s@.len(),
            i == it.index(),
            it.seq() == s@,
            first < n ==> first < i && first == segment_end(s@, 0) && segment_end(
                s@,
                first + 1,
            ) == segment_end(s@, i as int),
            first >= n ==> first == n && segment_end(s@, 0) == segment_end(s@, i as int),
    {
        if c == ':' {
            if first < n {
                return (first, i);
            }
            first = i;
        }
        i += 1;
    }
    (first, n)
}

impl ObjectRef {
    /// A reference from its two parts.
    pub fn new(kind: &str, id: &str) -> (r: ObjectRef)
        ensures
            r@ == (RefModel { kind: kind@, id: id@ }),
    {
        ObjectRef { kind: kind.to_string(), id: id.to_string() }
    }

    /// Reads a reference of the form `type:id`; `None` where the separator is
    /// missing.
    pub fn parse(s: &str) -> (r: Option<ObjectRef>)
        ensures
            match r {
                Some(found) => parse_spec(s@) == Some(found@),
                None => parse_spec(s@) is None,
            },
    {
        let n = s.unicode_len();
        let (first, second) = separators(s);
        if first >= n {
            None
        } else {
            let kind = s.substring_char(0, first).to_string();
            let id = s.substring_char(first + 1, second).to_string();
            Some(ObjectRef { kind, id })
        }
    }

    /// The text `type:id` of this reference.
    pub fn format(&self) -> (s: String)
        ensures
            s@ == format_spec(self@),
    {
        proof {
            reveal_strlit(":");
        }
        let s = self.kind.clone().concat(":").concat(self.id.as_str());
        assert(":"@ =~= seq![':']);
        s
    }

    /// An owned copy of this reference.
    pub fn duplicate(&self) -> (r: ObjectRef)
        ensures
            r@ == self@,
    {
        ObjectRef { kind: self.kind.clone(), id: self.id.clone() }
    }
}

} // verus!
