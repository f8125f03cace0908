use vstd::prelude::*;
use vstd::string::*;

verus! {

/// A parsed revision reference: a single commit-ish name, a two-dot range,
/// or a three-dot (merge-base) range.
///
/// An empty input is rejected before any variant is produced; an empty
/// endpoint of a range is replaced by the literal `HEAD`.
#[derive(Debug, Clone, PartialEq, Eq)]
pub enum CommitReference {
    Single(String),
    Range { from: String, to: String },
    TripleDots { from: String, to: String },
}

#[derive(Debug, Clone, Copy, PartialEq, Eq)]
pub enum ReferenceParseError {
    Empty,
}

/// Spec-level shape of a commit reference, over sequences of characters.
pub enum RefExpr {
    Single(Seq<char>),
    Range { from: Seq<char>, to: Seq<char> },
    TripleDots { from: Seq<char>, to: Seq<char> },
}

impl View for CommitReference {
    type V = RefExpr;

    open spec fn view(&self) -> RefExpr {
        match self {
            CommitReference::Single(s) => RefExpr::Single(s@),
            CommitReference::Range { from, to } => RefExpr::Range { from: from@, to: to@ },
            CommitReference::TripleDots { from, to } => RefExpr::TripleDots {
                from: from@,
                to: to@,
            },
        }
    }
}

/// Three consecutive dots start at position `i`.
pub open spec fn triple_at(s: Seq<char>, i: int) -> bool {
    &&& 0 <= i
    &&& i + 3 <= s.len()
    &&& s[i] == '.'
    &&& s[i + 1] == '.'
    &&& s[i + 2] == '.'
}

/// Two consecutive dots start at position `i`.
pub open spec fn double_at(s: Seq<char>, i: int) -> bool {
    &&& 0 <= i
    &&& i + 2 <= s.len()
    &&& s[i] == '.'
    &&& s[i + 1] == '.'
}

/// Position of the first `...` at or after `i`, if any.
pub open spec fn find_triple_from(s: Seq<char>, i: int) -> Option<int>
    decreases s.len() - i,
{
    if i + 3 > s.len() {
        None
    } else if triple_at(s, i) {
        Some(i)
    } else {
        find_triple_from(s, i + 1)
    }
}

/// Position of the first `..` at or after `i`, if any.
pub open spec fn find_double_from(s: Seq<char>, i: int) -> Option<int>
    decreases s.len() - i,
{
    if i + 2 > s.len() {
        None
    } else if double_at(s, i) {
        Some(i)
    } else {
        find_double_from(s, i + 1)
    }
}

/// An empty range endpoint stands for `HEAD`.
pub open spec fn head_default(p: Seq<char>) -> Seq<char> {
    if p.len() == 0 {
        "HEAD"@
    } else {
        p
    }
}

/// What parsing a reference string yields: the first `...` is tried before
/// the first `..` (the longer separator must win, since `..` is a substring
/// of `...`), and a text without either separator is a single reference.
pub open spec fn parse_spec(s: Seq<char>) -> Result<RefExpr, ReferenceParseError> {
    if s.len() == 0 {
        Err(ReferenceParseError::Empty)
    } else {
        match find_triple_from(s, 0) {
            Some(i) => Ok(
                RefExpr::TripleDots {
                    from: head_default(s.subrange(0, i)),
                    to: head_default(s.subrange(i + 3, s.len() as int)),
                },
            ),
            None => match find_double_from(s, 0) {
                Some(i) => Ok(
                    RefExpr::Range {
                        from: head_default(s.subrange(0, i)),
                        to: head_default(s.subrange(i + 2, s.len() as int)),
                    },
                ),
                None => Ok(RefExpr::Single(s)),
            },
        }
    }
}

/// The text form a reference renders back to: endpoints joined by `..`
/// or `...`, and the single form verbatim.
pub open spec fn text_of(v: RefExpr) -> Seq<char> {
    match v {
        RefExpr::Single(s) => s,
        RefExpr::Range { from, to } => from + ".."@ + to,
        RefExpr::TripleDots { from, to } => from + "..."@ + to,
    }
}

pub open spec fn parse_result_view(r: Result<CommitReference, ReferenceParseError>) -> Result<
    RefExpr,
    ReferenceParseError,
> {
    match r {
        Ok(c) => Ok(c@),
        Err(e) => Err(e),
    }
}

pub proof fn lemma_find_triple_from_spec(s: Seq<char>, i: int)
    requires
        0 <= i,
    ensures
        match find_triple_from(s, i) {
            Some(j) => i <= j && triple_at(s, j) && (forall|k: int|
                i <= k < j ==> !triple_at(s, k)),
            None => forall|k: int| i <= k ==> !triple_at(s, k),
        },
    decreases s.len() - i,
{
    if i + 3 > s.len() {
    } else if triple_at(s, i) {
    } else {
        lemma_find_triple_from_spec(s, i + 1);
    }
}

pub proof fn lemma_find_double_from_spec(s: Seq<char>, i: int)
    requires
        0 <= i,
    ensures
        match find_double_from(s, i) {
            Some(j) => i <= j && double_at(s, j) && (forall|k: int|
                i <= k < j ==> !double_at(s, k)),
            None => forall|k: int| i <= k ==> !double_at(s, k),
        },
    decreases s.len() - i,
{
    if i + 2 > s.len() {
    } else if double_at(s, i) {
    } else {
        lemma_find_double_from_spec(s, i + 1);
    }
}

pub proof fn lemma_find_triple_none(s: Seq<char>, i: int)
    requires
        0 <= i,
        forall|k: int| i <= k ==> !triple_at(s, k),
    ensures
        find_triple_from(s, i) is None,
    decreases s.len() - i,
{
    if i + 3 <= s.len() {
        lemma_find_triple_none(s, i + 1);
    }
}

pub proof fn lemma_find_double_none(s: Seq<char>, i: int)
    requires
        0 <= i,
        forall|k: int| i <= k ==> !double_at(s, k),
    ensures
        find_double_from(s, i) is None,
    decreases s.len() - i,
{
    if i + 2 <= s.len() {
        lemma_find_double_none(s, i + 1);
    }
}

pub proof fn lemma_find_triple_some(s: Seq<char>, i: int, j: int)
    requires
        0 <= i <= j,
        triple_at(s, j),
        forall|k: int| i <= k < j ==> !triple_at(s, k),
    ensures
        find_triple_from(s, i) == Some(j),
    decreases j - i,
{
    if i < j {
        lemma_find_triple_some(s, i + 1, j);
    }
}

pub proof fn lemma_find_double_some(s: Seq<char>, i: int, j: int)
    requires
        0 <= i <= j,
        double_at(s, j),
        forall|k: int| i <= k < j ==> !double_at(s, k),
    ensures
        find_double_from(s, i) == Some(j),
    decreases j - i,
{
    if i < j {
        lemma_find_double_some(s, i + 1, j);
    }
}

/// Law: a non-empty text with no dot at all parses to the single form,
/// carrying the text verbatim.
pub proof fn lemma_parse_single(s: Seq<char>)
    requires
        s.len() > 0,
        forall|k: int| 0 <= k < s.len() ==> s[k] != '.',
    ensures
        parse_spec(s) == Ok::<RefExpr, ReferenceParseError>(RefExpr::Single(s)),
{
    assert forall|k: int| 0 <= k implies !triple_at(s, k) by {
        if triple_at(s, k) {
            assert(s[k] == '.');
        }
    }
    assert forall|k: int| 0 <= k implies !double_at(s, k) by {
        if double_at(s, k) {
            assert(s[k] == '.');
        }
    }
    lemma_find_triple_none(s, 0);
    lemma_find_double_none(s, 0);
}

/// Endpoints that survive being joined by a dot separator: non-empty, no
/// two consecutive dots inside either endpoint, the first not ending with a
/// dot and the second not starting with one. Outside these bounds a rendered
/// range can collide with the separator (rendering `Range` of `a.` and `b`
/// gives `a...b`, which parses back as a three-dot range).
pub open spec fn separator_safe(from: Seq<char>, to: Seq<char>) -> bool {
    &&& from.len() > 0
    &&& to.len() > 0
    &&& (forall|k: int| 0 <= k < from.len() - 1 ==> !(#[trigger] from[k] == '.' && from[k + 1] == '.'))
    &&& from[from.len() - 1] != '.'
    &&& to[0] != '.'
    &&& (forall|k: int| 0 <= k < to.len() - 1 ==> !(#[trigger] to[k] == '.' && to[k + 1] == '.'))
}

/// Law: rendering a two-dot range back to text and reparsing it returns the
/// same expression, for endpoints that do not collide with the separator.
pub proof fn lemma_range_round_trip(from: Seq<char>, to: Seq<char>)
    requires
        separator_safe(from, to),
    ensures
        parse_spec(text_of(RefExpr::Range { from, to })) == Ok::<RefExpr, ReferenceParseError>(RefExpr::Range { from, to }),
{
    reveal_strlit("..");
    let s = text_of(RefExpr::Range { from, to });
    let fl = from.len() as int;
    let n = s.len() as int;
    assert(n == fl + 2 + to.len());
    assert(forall|k: int| 0 <= k < fl ==> s[k] == from[k]);
    assert(s[fl] == '.' && s[fl + 1] == '.');
    assert(forall|k: int| fl + 2 <= k < n ==> s[k] == to[k - fl - 2]);
    assert forall|k: int| 0 <= k implies !triple_at(s, k) by {
        if triple_at(s, k) {
            if k + 1 < fl {
                assert(from[k] == '.' && from[k + 1] == '.');
            } else if k + 1 == fl {
                assert(from[fl - 1] == '.');
            } else if k == fl {
                assert(to[0] == '.');
            } else if k == fl + 1 {
                assert(to[0] == '.');
            } else {
                assert(to[k - fl - 2] == '.' && to[k - fl - 1] == '.');
            }
        }
    }
    lemma_find_triple_none(s, 0);
    assert(double_at(s, fl));
    assert forall|k: int| 0 <= k < fl implies !double_at(s, k) by {
        if double_at(s, k) {
            if k + 1 < fl {
                assert(from[k] == '.' && from[k + 1] == '.');
            } else {
                assert(from[fl - 1] == '.');
            }
        }
    }
    lemma_find_double_some(s, 0, fl);
    assert(s.subrange(0, fl) =~= from);
    assert(s.subrange(fl + 2, n) =~= to);
}

/// Law: rendering a three-dot range back to text and reparsing it returns
/// the same expression, for endpoints that do not collide with the separator.
pub proof fn lemma_triple_dots_round_trip(from: Seq<char>, to: Seq<char>)
    requires
        separator_safe(from, to),
    ensures
        parse_spec(text_of(RefExpr::TripleDots { from, to })) == Ok::<RefExpr, ReferenceParseError>(
            RefExpr::TripleDots { from, to },
        ),
{
    reveal_strlit("...");
    let s = text_of(RefExpr::TripleDots { from, to });
    let fl = from.len() as int;
    let n = s.len() as int;
    assert(n == fl + 3 + to.len());
    assert(forall|k: int| 0 <= k < fl ==> s[k] == from[k]);
    assert(s[fl] == '.' && s[fl + 1] == '.' && s[fl + 2] == '.');
    assert(forall|k: int| fl + 3 <= k < n ==> s[k] == to[k - fl - 3]);
    assert(triple_at(s, fl));
    assert forall|k: int| 0 <= k < fl implies !triple_at(s, k) by {
        if triple_at(s, k) {
            if k + 1 < fl {
                assert(from[k] == '.' && from[k + 1] == '.');
            } else {
                assert(from[fl - 1] == '.');
            }
        }
    }
    lemma_find_triple_some(s, 0, fl);
    assert(s.subrange(0, fl) =~= from);
    assert(s.subrange(fl + 3, n) =~= to);
}

/// First position at which three consecutive dots start, if any.
fn find_triple(s: &str) -> (r: Option<usize>)
    ensures
        match r {
            Some(i) => find_triple_from(s@, 0) == Some(i as int),
            None => find_triple_from(s@, 0) is None,
        },
{
    let len = s.unicode_len();
    if len < 3 {
        proof {
            lemma_find_triple_none(s@, 0);
        }
        return None;
    }
    let mut i: usize = 0;
    while i <= len - 3
        invariant
            len == s@.len(),
            3 <= len,
            0 <= i <= len,
            forall|k: int| 0 <= k < i ==> !triple_at(s@, k),
        decreases len - i,
    {
        if s.get_char(i) == '.' && s.get_char(i + 1) == '.' && s.get_char(i + 2) == '.' {
            proof {
                lemma_find_triple_some(s@, 0, i as int);
            }
            return Some(i);
        }
        i += 1;
    }
    proof {
        lemma_find_triple_none(s@, 0);
    }
    None
}

/// First position at which two consecutive dots start, if any.
fn find_double(s: &str) -> (r: Option<usize>)
    ensures
        match r {
            Some(i) => find_double_from(s@, 0) == Some(i as int),
            None => find_double_from(s@, 0) is None,
        },
{
    let len = s.unicode_len();
    if len < 2 {
        proof {
            lemma_find_double_none(s@, 0);
        }
        return None;
    }
    let mut i: usize = 0;
    while i <= len - 2
        invariant
            len == s@.len(),
            2 <= len,
            0 <= i <= len,
            forall|k: int| 0 <= k < i ==> !double_at(s@, k),
        decreases len - i,
    {
        if s.get_char(i) == '.' && s.get_char(i + 1) == '.' {
            proof {
                lemma_find_double_some(s@, 0, i as int);
            }
            return Some(i);
        }
        i += 1;
    }
    proof {
        lemma_find_double_none(s@, 0);
    }
    None
}

/// An empty endpoint is replaced with `HEAD`.
fn head_or(part: &str) -> (r: String)
    ensures
        r@ == head_default(part@),
{
    if part.is_empty() {
        "HEAD".to_owned()
    } else {
        part.to_owned()
    }
}

impl CommitReference {
    /// Parses a free-form reference text: empty input is rejected; the text
    /// is split on the first `...`, else on the first `..`, with empty
    /// endpoints defaulted to `HEAD`; anything else is a single reference.
    pub fn parse(s: &str) -> (r: Result<CommitReference, ReferenceParseError>)
        ensures
            parse_result_view(r) == parse_spec(s@),
    {
        if s.is_empty() {
            return Err(ReferenceParseError::Empty);
        }
        let len = s.unicode_len();
        match find_triple(s) {
            Some(i) => {
                proof {
                    lemma_find_triple_from_spec(s@, 0);
                }
                let from = s.substring_char(0, i);
                let to = s.substring_char(i + 3, len);
                Ok(CommitReference::TripleDots { from: head_or(from), to: head_or(to) })
            },
            None => match find_double(s) {
                Some(i) => {
                    proof {
                        lemma_find_double_from_spec(s@, 0);
                    }
                    let from = s.substring_char(0, i);
                    let to = s.substring_char(i + 2, len);
                    Ok(CommitReference::Range { from: head_or(from), to: head_or(to) })
                },
                None => Ok(CommitReference::Single(s.to_owned())),
            },
        }
    }

    /// Renders the reference back to its text form.
    pub fn to_text(&self) -> (r: String)
        ensures
            r@ == text_of(self@),
    {
        match self {
            CommitReference::Single(s) => s.clone(),
            CommitReference::Range { from, to } => {
                let mut out = from.clone();
                out.append("..");
                out.append(to.as_str());
                out
            },
            CommitReference::TripleDots { from, to } => {
                let mut out = from.clone();
                out.append("...");
                out.append(to.as_str());
                out
            },
        }
    }
}

} // verus!
