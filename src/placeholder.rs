//! Extraction of the single bracketed value of a display key.
//!
//! A key such as `"There are {24} hours in a day"` is looked up under the
//! canonical key `"There are {} hours in a day"`, and the captured text `24`
//! is substituted for the marker `{}` in the template found.

use vstd::prelude::*;
use crate::text::chars_of;

verus! {

/// The first position at or after `from` where `s` holds `c`.
pub open spec fn first_index(s: Seq<char>, c: char, from: int) -> Option<int>
    decreases s.len() - from,
{
    if from < 0 || from >= s.len() {
        None
    } else if s[from] == c {
        Some(from)
    } else {
        first_index(s, c, from + 1)
    }
}

/// The first bracket pair of `s`: the first `{`, and the first `}` after it.
pub open spec fn bracket_span(s: Seq<char>) -> Option<(int, int)> {
    match first_index(s, '{', 0) {
        Some(i) => match first_index(s, '}', i + 1) {
            Some(j) => Some((i, j)),
            None => None,
        },
        None => None,
    }
}

/// The two-character marker that stands for the captured value.
pub open spec fn marker() -> Seq<char> {
    seq!['{', '}']
}

/// The canonical key of `s` and its captured value: the first bracket pair,
/// brackets included, becomes the marker `{}`, and the text between the
/// brackets is the value. Without a bracket pair, `s` itself and no value.
pub open spec fn extracted(s: Seq<char>) -> (Seq<char>, Option<Seq<char>>) {
    match bracket_span(s) {
        Some((i, j)) => (
            s.subrange(0, i) + marker() + s.subrange(j + 1, s.len() as int),
            Some(s.subrange(i + 1, j)),
        ),
        None => (s, None),
    }
}

proof fn lemma_first_index_found(s: Seq<char>, c: char, from: int)
    requires
        first_index(s, c, from) is Some,
    ensures
        from <= first_index(s, c, from)->0 < s.len(),
        s[first_index(s, c, from)->0] == c,
        forall|m: int| from <= m < first_index(s, c, from)->0 ==> s[m] != c,
    decreases s.len() - from,
{
    if s[from] != c {
        lemma_first_index_found(s, c, from + 1);
    }
}

proof fn lemma_first_index_absent(s: Seq<char>, c: char, from: int)
    requires
        0 <= from,
        forall|m: int| from <= m < s.len() ==> s[m] != c,
    ensures
        first_index(s, c, from) is None,
    decreases s.len() - from,
{
    if from < s.len() {
        lemma_first_index_absent(s, c, from + 1);
    }
}

proof fn lemma_first_index_at(s: Seq<char>, c: char, from: int, k: int)
    requires
        0 <= from <= k < s.len(),
        s[k] == c,
        forall|m: int| from <= m < k ==> s[m] != c,
    ensures
        first_index(s, c, from) == Some(k),
    decreases k - from,
{
    if from < k {
        lemma_first_index_at(s, c, from + 1, k);
    }
}

/// The first position at or after `from` where `v` holds `c`.
fn find_char(v: &Vec<char>, c: char, from: usize) -> (r: Option<usize>)
    ensures
        match r {
            Some(k) => first_index(v@, c, from as int) == Some(k as int),
            None => first_index(v@, c, from as int) is None,
        },
{
    let mut i: usize = from;
    while i < v.len()
        invariant
            from <= i,
            first_index(v@, c, from as int) == first_index(v@, c, i as int),
        decreases v@.len() - i,
    {
        if v[i] == c {
            return Some(i);
        }
        i = i + 1;
    }
    None
}

/// Splits `input` into its canonical key and the value captured by its first
/// bracket pair (the empty string for `{}`), or returns `input` itself and no
/// value where it holds no `}` after its first `{`.
pub fn extract_placeholder(input: &str) -> (r: (String, Option<String>))
    ensures
        r.0@ == extracted(input@).0,
        match r.1 {
            Some(v) => extracted(input@).1 == Some(v@),
            None => extracted(input@).1 is None,
        },
{
    let v = chars_of(input);
    let n = v.len();
    match find_char(&v, '{', 0) {
        Some(i) => {
            proof {
                lemma_first_index_found(input@, '{', 0);
            }
            let after: usize = i + 1;
            match find_char(&v, '}', after) {
                Some(j) => {
                    proof {
                        lemma_first_index_found(input@, '}', after as int);
                        reveal_strlit("{}");
                    }
                    let mut name = input.substring_char(0, i).to_owned();
                    name.append("{}");
                    name.append(input.substring_char(j + 1, n));
                    assert("{}"@ =~= marker());
                    let value = input.substring_char(after, j).to_owned();
                    (name, Some(value))
                },
                None => (input.to_owned(), None),
            }
        },
        None => (input.to_owned(), None),
    }
}

/// A key in which no `{` is followed, anywhere later, by a `}` is its own
/// canonical key and captures no value.
pub proof fn lemma_no_bracket_pair(s: Seq<char>)
    requires
        forall|i: int, j: int| 0 <= i < j < s.len() && s[i] == '{' ==> s[j] != '}',
    ensures
        extracted(s) == (s, None::<Seq<char>>),
{
    if first_index(s, '{', 0) is Some {
        let i = first_index(s, '{', 0)->0;
        lemma_first_index_found(s, '{', 0);
        lemma_first_index_absent(s, '}', i + 1);
    }
}

/// Where the text before the first `{` holds no `{` and the text between it
/// and the next `}` holds no `}`, that pair alone is replaced by the marker
/// and its inner text captured, whatever brackets follow.
pub proof fn lemma_first_bracket_pair(a: Seq<char>, v: Seq<char>, b: Seq<char>)
    requires
        forall|k: int| 0 <= k < a.len() ==> a[k] != '{',
        forall|k: int| 0 <= k < v.len() ==> v[k] != '}',
    ensures
        extracted(a + seq!['{'] + v + seq!['}'] + b) == (a + marker() + b, Some(v)),
{
    let s = a + seq!['{'] + v + seq!['}'] + b;
    let i = a.len() as int;
    let j = i + 1 + v.len();
    assert(s[i] == '{');
    assert forall|m: int| 0 <= m < i implies s[m] != '{' by {
        assert(s[m] == a[m]);
    }
    lemma_first_index_at(s, '{', 0, i);
    assert(s[j] == '}');
    assert forall|m: int| i + 1 <= m < j implies s[m] != '}' by {
        assert(s[m] == v[m - i - 1]);
    }
    lemma_first_index_at(s, '}', i + 1, j);
    assert(s.subrange(0, i) =~= a);
    assert(s.subrange(j + 1, s.len() as int) =~= b);
    assert(s.subrange(i + 1, j) =~= v);
}

} // verus!
