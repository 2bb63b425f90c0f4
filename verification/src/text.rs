//! Text as sequences of characters: literal search, splitting at a literal
//! and removal of a literal.

use vstd::prelude::*;
use vstd::string::StringExecFns;

verus! {

/// The literal `needle` stands in `hay` at position `i`.
pub open spec fn occurs_at(hay: Seq<char>, needle: Seq<char>, i: int) -> bool {
    &&& 0 <= i
    &&& i + needle.len() <= hay.len()
    &&& hay.subrange(i, i + needle.len()) == needle
}

/// `hay` contains `needle` as a literal substring. The comparison is by
/// character, so it is case-sensitive; the empty text is contained in every
/// text.
pub open spec fn contains_literal(hay: Seq<char>, needle: Seq<char>) -> bool {
    exists|i: int| occurs_at(hay, needle, i)
}

/// `i` is the leftmost position at or after `from` where `needle` stands in
/// `hay`.
pub open spec fn is_first_occurrence_from(
    hay: Seq<char>,
    needle: Seq<char>,
    from: int,
    i: int,
) -> bool {
    &&& from <= i
    &&& occurs_at(hay, needle, i)
    &&& forall|j: int| from <= j < i ==> !occurs_at(hay, needle, j)
}

/// The characters of a text, in order.
pub fn chars_of(s: &str) -> (v: Vec<char>)
    ensures
        v@ == s@,
{
    let mut v: Vec<char> = Vec::new();
    for c in it: s.chars()
        invariant
            v@ == it.seq().take(it.index() as int),
            it.seq() == s@,
    {
        v.push(c);
    }
    v
}

/// Whether `needle` stands in `hay` at position `start`.
pub fn occurs_at_index(hay: &Vec<char>, needle: &Vec<char>, start: usize) -> (b: bool)
    ensures
        b == occurs_at(hay@, needle@, start as int),
{
    if needle.len() > hay.len() || start > hay.len() - needle.len() {
        return false;
    }
    let ghost window = hay@.subrange(start as int, start + needle@.len());
    let mut k: usize = 0;
    while k < needle.len()
        invariant
            k <= needle.len(),
            start + needle.len() <= hay.len(),
            window == hay@.subrange(start as int, start + needle@.len()),
            forall|j: int| 0 <= j < k ==> hay@[start + j] == needle@[j],
        decreases needle.len() - k,
    {
        if hay[start + k] != needle[k] {
            assert(window[k as int] == hay@[start + k]);
            return false;
        }
        k += 1;
    }
    assert(window =~= needle@);
    true
}

/// The leftmost position at or after `from` where `needle` stands in `hay`,
/// or `None` where it stands at no such position.
pub fn find_literal_from(hay: &Vec<char>, needle: &Vec<char>, from: usize) -> (r: Option<usize>)
    ensures
        match r {
            Some(i) => is_first_occurrence_from(hay@, needle@, from as int, i as int),
            None => forall|j: int| from <= j ==> !occurs_at(hay@, needle@, j),
        },
{
    if needle.len() > hay.len() {
        return None;
    }
    let last: usize = hay.len() - needle.len();
    if from > last {
        return None;
    }
    let mut i: usize = from;
    loop
        invariant
            from <= i <= last,
            last == hay.len() - needle.len(),
            needle.len() <= hay.len(),
            forall|j: int| from <= j < i ==> !occurs_at(hay@, needle@, j),
        decreases last - i,
    {
        if occurs_at_index(hay, needle, i) {
            return Some(i);
        }
        if i == last {
            return None;
        }
        i += 1;
    }
}

/// Whether `hay` contains the characters of `needle` as a literal substring.
pub fn contains_chars(hay: &str, needle: &Vec<char>) -> (b: bool)
    ensures
        b == contains_literal(hay@, needle@),
{
    let h = chars_of(hay);
    match find_literal_from(&h, needle, 0) {
        Some(i) => {
            assert(occurs_at(hay@, needle@, i as int));
            true
        },
        None => {
            assert forall|j: int| !occurs_at(hay@, needle@, j) by {
                if 0 <= j {
                    assert(!occurs_at(h@, needle@, j));
                }
            }
            false
        },
    }
}

/// Whether `hay` contains `needle` as a literal substring.
pub fn contains(hay: &str, needle: &str) -> (b: bool)
    ensures
        b == contains_literal(hay@, needle@),
{
    let n = chars_of(needle);
    contains_chars(hay, &n)
}

/// The leftmost position at or after `from` where `needle` stands in `hay`.
pub open spec fn index_of_first(hay: Seq<char>, needle: Seq<char>, from: int) -> Option<int>
    decreases hay.len() - from,
{
    if from < 0 || from + needle.len() > hay.len() {
        None
    } else if occurs_at(hay, needle, from) {
        Some(from)
    } else if from >= hay.len() {
        None
    } else {
        index_of_first(hay, needle, from + 1)
    }
}

/// The text before the first occurrence of `delimiter` and the text after
/// it; `None` where the delimiter does not occur.
pub open spec fn split_at_first(s: Seq<char>, delimiter: Seq<char>) -> Option<
    (Seq<char>, Seq<char>),
> {
    match index_of_first(s, delimiter, 0) {
        Some(i) => Some((s.take(i), s.skip(i + delimiter.len()))),
        None => None,
    }
}

/// The text without the occurrences of `pattern`, which are found from left
/// to right and do not overlap. The empty pattern removes nothing.
pub open spec fn without_literal(s: Seq<char>, pattern: Seq<char>) -> Seq<char>
    decreases s.len(),
{
    if pattern.len() == 0 || s.len() == 0 {
        s
    } else if occurs_at(s, pattern, 0) {
        without_literal(s.skip(pattern.len() as int), pattern)
    } else {
        seq![s[0]] + without_literal(s.skip(1), pattern)
    }
}

/// An occurrence in the text from `from` on is an occurrence in the text.
pub proof fn lemma_occurs_in_rest(hay: Seq<char>, needle: Seq<char>, from: int, i: int)
    requires
        0 <= from <= hay.len(),
        0 <= i,
    ensures
        occurs_at(hay.skip(from), needle, i) == occurs_at(hay, needle, from + i),
{
    if from + i + needle.len() <= hay.len() {
        assert(hay.skip(from).subrange(i, i + needle.len()) =~= hay.subrange(
            from + i,
            from + i + needle.len(),
        ));
    }
}

/// The leftmost occurrence from `from` on is what `index_of_first` gives.
pub proof fn lemma_first_occurrence_is_index(
    hay: Seq<char>,
    needle: Seq<char>,
    from: int,
    i: int,
)
    requires
        0 <= from,
        is_first_occurrence_from(hay, needle, from, i),
    ensures
        index_of_first(hay, needle, from) == Some(i),
    decreases i - from,
{
    if from < i {
        assert(!occurs_at(hay, needle, from));
        lemma_first_occurrence_is_index(hay, needle, from + 1, i);
    }
}

/// Where the literal stands nowhere from `from` on, `index_of_first` gives
/// nothing.
pub proof fn lemma_no_occurrence_is_none(hay: Seq<char>, needle: Seq<char>, from: int)
    requires
        0 <= from,
        forall|j: int| from <= j ==> !occurs_at(hay, needle, j),
    ensures
        index_of_first(hay, needle, from) is None,
    decreases hay.len() - from,
{
    if from + needle.len() <= hay.len() && from < hay.len() {
        lemma_no_occurrence_is_none(hay, needle, from + 1);
    }
}

/// Up to the next occurrence of the pattern nothing is removed.
pub proof fn lemma_without_literal_keeps_gap(
    s: Seq<char>,
    pattern: Seq<char>,
    from: int,
    to: int,
)
    requires
        pattern.len() > 0,
        0 <= from <= to <= s.len(),
        forall|j: int| from <= j < to ==> !occurs_at(s, pattern, j),
    ensures
        without_literal(s.skip(from), pattern) == s.subrange(from, to) + without_literal(
            s.skip(to),
            pattern,
        ),
    decreases to - from,
{
    if from == to {
        assert(s.subrange(from, to) + without_literal(s.skip(to), pattern) =~= without_literal(
            s.skip(to),
            pattern,
        ));
    } else {
        let rest = s.skip(from);
        lemma_occurs_in_rest(s, pattern, from, 0);
        assert(!occurs_at(rest, pattern, 0));
        assert(rest.skip(1) =~= s.skip(from + 1));
        lemma_without_literal_keeps_gap(s, pattern, from + 1, to);
        assert(seq![rest[0]] + s.subrange(from + 1, to) =~= s.subrange(from, to));
        assert(seq![rest[0]] + (s.subrange(from + 1, to) + without_literal(s.skip(to), pattern))
            =~= s.subrange(from, to) + without_literal(s.skip(to), pattern));
    }
}

/// An occurrence of the pattern is removed whole.
pub proof fn lemma_without_literal_drops_match(s: Seq<char>, pattern: Seq<char>, at: int)
    requires
        pattern.len() > 0,
        occurs_at(s, pattern, at),
    ensures
        without_literal(s.skip(at), pattern) == without_literal(
            s.skip(at + pattern.len()),
            pattern,
        ),
{
    lemma_occurs_in_rest(s, pattern, at, 0);
    assert(s.skip(at).skip(pattern.len() as int) =~= s.skip(at + pattern.len()));
}

/// Splits a text at the first occurrence of a delimiter into what stands
/// before it and what stands after it.
pub fn split_once(s: &str, delimiter: &str) -> (r: Option<(String, String)>)
    ensures
        match split_at_first(s@, delimiter@) {
            Some((before, after)) => r matches Some((a, b)) && a@ == before && b@ == after,
            None => r is None,
        },
{
    let h = chars_of(s);
    let d = chars_of(delimiter);
    match find_literal_from(&h, &d, 0) {
        Some(i) => {
            let total: usize = h.len();
            assert(i + d@.len() <= total) by {
                assert(occurs_at(h@, d@, i as int));
            }
            proof {
                lemma_first_occurrence_is_index(s@, delimiter@, 0, i as int);
            }
            let resume: usize = i + d.len();
            let before = s.substring_char(0, i);
            let after = s.substring_char(resume, total);
            Some((String::from_str(before), String::from_str(after)))
        },
        None => {
            proof {
                lemma_no_occurrence_is_none(s@, delimiter@, 0);
            }
            None
        },
    }
}

/// Removes every occurrence of a pattern from a text.
pub fn remove_literal(s: &str, pattern: &str) -> (out: String)
    ensures
        out@ == without_literal(s@, pattern@),
{
    let h = chars_of(s);
    let p = chars_of(pattern);
    if p.len() == 0 {
        return String::from_str(s);
    }
    let mut out = String::new();
    let mut pos: usize = 0;
    let total: usize = h.len();
    assert(s@.skip(0) =~= s@);
    loop
        invariant
            h@ == s@,
            total == h@.len(),
            p@ == pattern@,
            p@.len() > 0,
            pos <= h@.len(),
            out@ + without_literal(s@.skip(pos as int), pattern@) == without_literal(
                s@,
                pattern@,
            ),
        decreases h@.len() - pos,
    {
        match find_literal_from(&h, &p, pos) {
            Some(i) => {
                proof {
                    lemma_without_literal_keeps_gap(s@, pattern@, pos as int, i as int);
                    lemma_without_literal_drops_match(s@, pattern@, i as int);
                    assert((out@ + s@.subrange(pos as int, i as int)) + without_literal(
                        s@.skip(i + p@.len()),
                        pattern@,
                    ) =~= out@ + (s@.subrange(pos as int, i as int) + without_literal(
                        s@.skip(i + p@.len()),
                        pattern@,
                    )));
                }
                assert(i + p@.len() <= total);
                out.append(s.substring_char(pos, i));
                pos = i + p.len();
            },
            None => {
                proof {
                    lemma_without_literal_keeps_gap(s@, pattern@, pos as int, s@.len() as int);
                    assert(s@.skip(s@.len() as int) =~= Seq::<char>::empty());
                    assert(out@ + s@.subrange(pos as int, s@.len() as int) =~= out@ + (s@.subrange(
                        pos as int,
                        s@.len() as int,
                    ) + without_literal(s@.skip(s@.len() as int), pattern@)));
                }
                out.append(s.substring_char(pos, total));
                return out;
            },
        }
    }
}

} // verus!
