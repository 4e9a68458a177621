//! Finding the payload that a page embeds, and undoing the escaping that
//! the page applied to it.

use vstd::prelude::*;
use crate::error::Error;
use crate::mapping::modeled;
use crate::text::{chars_of, find_char, first_index, word_at};

verus! {

/// Whether `pattern` stands in `s` at the index `at`.
pub open spec fn occurs_at(s: Seq<char>, pattern: Seq<char>, at: int) -> bool {
    0 <= at && at + pattern.len() <= s.len() && s.subrange(at, at + pattern.len()) == pattern
}

/// The least index from `from` on at which `pattern` stands in `s`.
pub open spec fn find_from(s: Seq<char>, pattern: Seq<char>, from: int) -> Option<int>
    decreases s.len() - from + 1,
{
    if from < 0 || from + pattern.len() > s.len() {
        None
    } else if occurs_at(s, pattern, from) {
        Some(from)
    } else {
        find_from(s, pattern, from + 1)
    }
}

/// The least index at which `pattern` stands in `s`.
pub open spec fn find(s: Seq<char>, pattern: Seq<char>) -> Option<int> {
    find_from(s, pattern, 0)
}

/// `find_from` gives an index at which the pattern stands and before
/// which, from `from` on, it does not; it gives none only where the
/// pattern stands nowhere from `from` on.
pub proof fn find_from_is_least(s: Seq<char>, pattern: Seq<char>, from: int)
    requires
        0 <= from,
    ensures
        match find_from(s, pattern, from) {
            Some(at) => from <= at && occurs_at(s, pattern, at) && forall|j: int|
                from <= j < at ==> !occurs_at(s, pattern, j),
            None => forall|j: int| from <= j ==> !occurs_at(s, pattern, j),
        },
    decreases s.len() - from + 1,
{
    if from + pattern.len() <= s.len() && !occurs_at(s, pattern, from) {
        find_from_is_least(s, pattern, from + 1);
    }
}

/// Whether `pattern` stands in `v` at `at`.
pub fn stands_at(v: &Vec<char>, pattern: &Vec<char>, at: usize) -> (r: bool)
    ensures
        r == occurs_at(v@, pattern@, at as int),
{
    let n = pattern.len();
    if at > v.len() || n > v.len() - at {
        return false;
    }
    let mut i: usize = 0;
    while i < n
        invariant
            i <= n,
            n == pattern.len(),
            at + n <= v.len(),
            forall|j: int| 0 <= j < i ==> v@[at + j] == pattern@[j],
        decreases n - i,
    {
        if v[at + i] != pattern[i] {
            return false;
        }
        i += 1;
    }
    assert(v@.subrange(at as int, at + n) =~= pattern@);
    true
}

/// Where `pattern` first stands in `v`.
pub fn find_in(v: &Vec<char>, pattern: &Vec<char>) -> (r: Option<usize>)
    ensures
        match r {
            Some(at) => find(v@, pattern@) == Some(at as int) && at + pattern.len() <= v.len(),
            None => find(v@, pattern@) is None,
        },
{
    let n = pattern.len();
    if n > v.len() {
        return None;
    }
    let last = v.len() - n;
    let mut i: usize = 0;
    loop
        invariant
            i <= last,
            n == pattern.len(),
            last + n == v.len(),
            find(v@, pattern@) == find_from(v@, pattern@, i as int),
        decreases last - i,
    {
        if stands_at(v, pattern, i) {
            return Some(i);
        }
        if i == last {
            assert(find_from(v@, pattern@, i + 1) is None);
            return None;
        }
        i += 1;
    }
}

/// The text that introduces the embedded payload: the attribute
/// `data-blob`, up to and with its opening quote.
pub open spec fn marker() -> Seq<char> {
    seq!['d', 'a', 't', 'a', '-', 'b', 'l', 'o', 'b', '=', '"']
}

/// The marker, as characters.
fn marker_chars() -> (r: Vec<char>)
    ensures
        r@ == marker(),
{
    let r = vec!['d', 'a', 't', 'a', '-', 'b', 'l', 'o', 'b', '=', '"'];
    r
}

/// The character that an entity at the start of `s` stands for, with the
/// entity's length: `&quot;`, `&amp;`, `&lt;`, `&gt;` and `&#39;` are the
/// entities that pages escape a payload with.
pub open spec fn entity_at(s: Seq<char>) -> Option<(char, int)> {
    if seq!['&', 'q', 'u', 'o', 't', ';'].is_prefix_of(s) {
        Some(('"', 6))
    } else if seq!['&', 'a', 'm', 'p', ';'].is_prefix_of(s) {
        Some(('&', 5))
    } else if seq!['&', 'l', 't', ';'].is_prefix_of(s) {
        Some(('<', 4))
    } else if seq!['&', 'g', 't', ';'].is_prefix_of(s) {
        Some(('>', 4))
    } else if seq!['&', '#', '3', '9', ';'].is_prefix_of(s) {
        Some(('\'', 5))
    } else {
        None
    }
}

/// `s` with every entity replaced by the character it stands for, read
/// from the left.
pub open spec fn unescaped(s: Seq<char>) -> Seq<char>
    decreases s.len(),
{
    if s.len() == 0 {
        Seq::empty()
    } else {
        match entity_at(s) {
            Some((c, n)) => seq![c] + unescaped(s.skip(n)),
            None => seq![s[0]] + unescaped(s.skip(1)),
        }
    }
}

/// A word that stands at the start of a text begins as the text does.
proof fn prefix_begins_alike(word: Seq<char>, s: Seq<char>)
    requires
        word.len() > 0,
        word.is_prefix_of(s),
    ensures
        s.len() > 0,
        s[0] == word[0],
{
    assert(s.subrange(0, word.len() as int)[0] == word[0]);
}

/// Every entity begins with an ampersand.
pub proof fn entity_begins_with_ampersand(s: Seq<char>)
    requires
        entity_at(s) is Some,
    ensures
        s.len() > 0,
        s[0] == '&',
{
    if seq!['&', 'q', 'u', 'o', 't', ';'].is_prefix_of(s) {
        prefix_begins_alike(seq!['&', 'q', 'u', 'o', 't', ';'], s);
    } else if seq!['&', 'a', 'm', 'p', ';'].is_prefix_of(s) {
        prefix_begins_alike(seq!['&', 'a', 'm', 'p', ';'], s);
    } else if seq!['&', 'l', 't', ';'].is_prefix_of(s) {
        prefix_begins_alike(seq!['&', 'l', 't', ';'], s);
    } else if seq!['&', 'g', 't', ';'].is_prefix_of(s) {
        prefix_begins_alike(seq!['&', 'g', 't', ';'], s);
    } else {
        prefix_begins_alike(seq!['&', '#', '3', '9', ';'], s);
    }
}

/// A text without an ampersand holds no entity and stays as it is.
pub proof fn unescaped_plain_text(s: Seq<char>)
    requires
        forall|i: int| 0 <= i < s.len() ==> s[i] != '&',
    ensures
        unescaped(s) == s,
    decreases s.len(),
{
    if s.len() > 0 {
        if entity_at(s) is Some {
            entity_begins_with_ampersand(s);
        }
        unescaped_plain_text(s.skip(1));
    }
}

/// Replacing entities never makes a text longer.
pub proof fn unescaped_is_no_longer(s: Seq<char>)
    ensures
        unescaped(s).len() <= s.len(),
    decreases s.len(),
{
    if s.len() > 0 {
        match entity_at(s) {
            Some((c, n)) => {
                unescaped_is_no_longer(s.skip(n));
            },
            None => {
                unescaped_is_no_longer(s.skip(1));
            },
        }
    }
}

/// The entity at the start of `v[at..end]`, if one stands there.
fn entity_in(v: &Vec<char>, at: usize, end: usize) -> (r: Option<(char, usize)>)
    requires
        at < end <= v.len(),
    ensures
        match r {
            Some((c, n)) => {
                &&& entity_at(v@.subrange(at as int, end as int)) == Some((c, n as int))
                &&& 0 < n
                &&& at + n <= end
            },
            None => entity_at(v@.subrange(at as int, end as int)) is None,
        },
{
    if v[at] != '&' {
        proof {
            if entity_at(v@.subrange(at as int, end as int)) is Some {
                entity_begins_with_ampersand(v@.subrange(at as int, end as int));
            }
        }
        return None;
    }
    let quot = vec!['&', 'q', 'u', 'o', 't', ';'];
    if word_at(v, at, end, &quot) {
        return Some(('"', 6));
    }
    let amp = vec!['&', 'a', 'm', 'p', ';'];
    if word_at(v, at, end, &amp) {
        return Some(('&', 5));
    }
    let lt = vec!['&', 'l', 't', ';'];
    if word_at(v, at, end, &lt) {
        return Some(('<', 4));
    }
    let gt = vec!['&', 'g', 't', ';'];
    if word_at(v, at, end, &gt) {
        return Some(('>', 4));
    }
    let apostrophe = vec!['&', '#', '3', '9', ';'];
    if word_at(v, at, end, &apostrophe) {
        return Some(('\'', 5));
    }
    None
}

/// Writes `v[start..end]` with its entities replaced.
fn unescape_in(v: &Vec<char>, start: usize, end: usize) -> (r: String)
    requires
        start <= end <= v.len(),
    ensures
        r@ == unescaped(v@.subrange(start as int, end as int)),
{
    let mut out = String::new();
    let mut i: usize = start;
    while i < end
        invariant
            start <= i <= end <= v.len(),
            out@ + unescaped(v@.subrange(i as int, end as int)) == unescaped(
                v@.subrange(start as int, end as int),
            ),
        decreases end - i,
    {
        let ghost rest = v@.subrange(i as int, end as int);
        match entity_in(v, i, end) {
            Some((c, n)) => {
                out.push(c);
                assert(rest.skip(n as int) == v@.subrange(i + n, end as int));
                i += n;
            },
            None => {
                out.push(v[i]);
                assert(rest.skip(1) == v@.subrange(i + 1, end as int));
                i += 1;
            },
        }
    }
    out
}

/// Writes `text` with its entities replaced.
pub fn unescape(text: &str) -> (r: String)
    ensures
        r@ == unescaped(text@),
{
    let v = chars_of(text);
    assert(v@.subrange(0, v@.len() as int) == v@);
    unescape_in(&v, 0, v.len())
}

/// The payload that the page `body` embeds: what stands between the first
/// marker and the next quote, with its entities replaced. A page without
/// the marker embeds nothing, which is `PayloadNotFound`; a marker that no
/// quote follows is `PayloadDecodeError`.
pub open spec fn embedded(body: Seq<char>) -> Result<Seq<char>, Error> {
    match find(body, marker()) {
        None => Err(Error::PayloadNotFound),
        Some(at) => {
            let rest = body.skip(at + marker().len());
            let end = first_index(rest, '"');
            if end == rest.len() {
                Err(Error::PayloadDecodeError)
            } else {
                Ok(unescaped(rest.take(end)))
            }
        },
    }
}

/// Finds the payload that a page embeds and undoes its escaping.
pub fn payload_text(body: &str) -> (r: Result<String, Error>)
    ensures
        modeled(r) == embedded(body@),
{
    let v = chars_of(body);
    let pattern = marker_chars();
    match find_in(&v, &pattern) {
        None => Err(Error::PayloadNotFound),
        Some(at) => {
            let start = at + pattern.len();
            let n = v.len();
            let close = find_char(&v, start, n, '"');
            if close == n - start {
                Err(Error::PayloadDecodeError)
            } else {
                assert(v@.skip(start as int).take(close as int) == v@.subrange(
                    start as int,
                    start + close,
                ));
                Ok(unescape_in(&v, start, start + close))
            }
        },
    }
}

} // verus!
