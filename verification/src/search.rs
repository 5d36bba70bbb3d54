//! Finding, splitting and replacing parts of a text.

use vstd::prelude::*;

use crate::text::{chars_of, string_range};

verus! {

/// Whether `pat` stands in `s` at position `i`.
pub open spec fn occurs_at(s: Seq<char>, pat: Seq<char>, i: int) -> bool {
    0 <= i && i + pat.len() <= s.len() && s.subrange(i, i + pat.len()) == pat
}

/// Whether `s` begins with `pat`.
pub open spec fn starts(s: Seq<char>, pat: Seq<char>) -> bool {
    pat.len() <= s.len() && s.take(pat.len() as int) == pat
}

/// Whether `s` ends with `pat`.
pub open spec fn ends(s: Seq<char>, pat: Seq<char>) -> bool {
    pat.len() <= s.len() && s.skip(s.len() - pat.len()) == pat
}

/// Where `pat` first stands in `s`.
pub open spec fn find(s: Seq<char>, pat: Seq<char>) -> Option<int>
    decreases s.len(),
{
    if s.len() < pat.len() {
        None
    } else if starts(s, pat) {
        Some(0)
    } else if s.len() == 0 {
        None
    } else {
        match find(s.drop_first(), pat) {
            Some(i) => Some(i + 1),
            None => None,
        }
    }
}

/// Whether `pat` stands anywhere in `s`.
pub open spec fn contains(s: Seq<char>, pat: Seq<char>) -> bool {
    find(s, pat) is Some
}

/// The parts of `s` before and after the first `pat`.
pub open spec fn split_at_first(s: Seq<char>, pat: Seq<char>) -> Option<(Seq<char>, Seq<char>)> {
    match find(s, pat) {
        Some(i) => Some((s.take(i), s.skip(i + pat.len()))),
        None => None,
    }
}

/// `s` with every `pat` replaced, from the left and without overlap.
pub open spec fn replaced(s: Seq<char>, pat: Seq<char>, with: Seq<char>) -> Seq<char>
    decreases s.len(),
{
    match find(s, pat) {
        Some(i) => if pat.len() > 0 && 0 <= i && i + pat.len() <= s.len() {
            s.take(i) + with + replaced(s.skip(i + pat.len()), pat, with)
        } else {
            s
        },
        None => s,
    }
}

/// `s` with the first `pat` replaced.
pub open spec fn replaced_once(s: Seq<char>, pat: Seq<char>, with: Seq<char>) -> Seq<char> {
    match find(s, pat) {
        Some(i) => s.take(i) + with + s.skip(i + pat.len()),
        None => s,
    }
}

/// How many times `pat` stands in `s`, counted from the left and without overlap.
pub open spec fn occurrences(s: Seq<char>, pat: Seq<char>) -> nat
    decreases s.len(),
{
    match find(s, pat) {
        Some(i) => if pat.len() > 0 && 0 <= i && i + pat.len() <= s.len() {
            1 + occurrences(s.skip(i + pat.len()), pat)
        } else {
            0
        },
        None => 0,
    }
}

/// The one character `c` as a text.
pub open spec fn one(c: char) -> Seq<char> {
    seq![c]
}

/// What `find` returns: the first position at which the pattern stands, if any.
pub proof fn lemma_find(s: Seq<char>, pat: Seq<char>)
    ensures
        find(s, pat) matches Some(i) ==> occurs_at(s, pat, i) && 0 <= i && i + pat.len() <= s.len(),
        find(s, pat) matches Some(i) ==> forall|j: int| 0 <= j < i ==> !occurs_at(s, pat, j),
        find(s, pat) is None ==> forall|j: int| !occurs_at(s, pat, j),
    decreases s.len(),
{
    if s.len() < pat.len() {
    } else if starts(s, pat) {
        assert(s.subrange(0, pat.len() as int) =~= s.take(pat.len() as int));
    } else if s.len() > 0 {
        let rest = s.drop_first();
        lemma_find(rest, pat);
        assert forall|j: int| 0 < j implies occurs_at(s, pat, j) == occurs_at(rest, pat, j - 1) by {
            if j + pat.len() <= s.len() {
                assert(s.subrange(j, j + pat.len()) =~= rest.subrange(j - 1, j - 1 + pat.len()));
            }
        }
        assert(s.subrange(0, pat.len() as int) =~= s.take(pat.len() as int));
        assert(!occurs_at(s, pat, 0));
    } else {
        assert(s.take(0) =~= pat);
    }
}

/// A position that is first among those where the pattern stands is the one found.
pub proof fn lemma_find_at(s: Seq<char>, pat: Seq<char>, i: int)
    requires
        occurs_at(s, pat, i),
        forall|j: int| 0 <= j < i ==> !occurs_at(s, pat, j),
    ensures
        find(s, pat) == Some(i),
{
    lemma_find(s, pat);
    match find(s, pat) {
        Some(k) => {
            if k < i {
                assert(!occurs_at(s, pat, k));
            } else if i < k {
                assert(!occurs_at(s, pat, i));
            }
        },
        None => {
            assert(!occurs_at(s, pat, i));
        },
    }
}

/// A pattern that stands nowhere is not found.
pub proof fn lemma_find_none(s: Seq<char>, pat: Seq<char>)
    requires
        forall|j: int| !occurs_at(s, pat, j),
    ensures
        find(s, pat) is None,
{
    lemma_find(s, pat);
}

/// Whether `pat` stands at position `at`.
pub fn stands_at(s: &Vec<char>, pat: &Vec<char>, at: usize) -> (r: bool)
    requires
        at <= s@.len(),
    ensures
        r == occurs_at(s@, pat@, at as int),
        r == starts(s@.skip(at as int), pat@),
{
    proof {
        let rest = s@.skip(at as int);
        if pat@.len() <= rest.len() {
            assert(s@.subrange(at as int, at + pat@.len()) =~= rest.take(pat@.len() as int));
        }
    }
    if s.len() - at < pat.len() {
        return false;
    }
    let n: usize = s.len();
    let mut k: usize = 0;
    while k < pat.len()
        invariant
            k <= pat@.len(),
            n == s@.len(),
            at + pat@.len() <= s@.len(),
            forall|j: int| 0 <= j < k ==> s@[at + j] == pat@[j],
        decreases pat@.len() - k,
    {
        if s[at + k] != pat[k] {
            assert(s@.subrange(at as int, at + pat@.len())[k as int] != pat@[k as int]);
            return false;
        }
        k += 1;
    }
    assert(s@.subrange(at as int, at + pat@.len()) =~= pat@);
    true
}

/// The position of the first `pat` at or after `from`.
pub fn find_from(s: &Vec<char>, pat: &Vec<char>, from: usize) -> (r: Option<usize>)
    requires
        from <= s@.len(),
    ensures
        match (r, find(s@.skip(from as int), pat@)) {
            (Some(i), Some(k)) => i == from + k,
            (None, None) => true,
            _ => false,
        },
        r matches Some(i) ==> from <= i && i + pat@.len() <= s@.len() <= usize::MAX,
{
    let mut i: usize = from;
    let n: usize = s.len();
    proof {
        lemma_find(s@.skip(from as int), pat@);
    }
    while i < n
        invariant
            from <= i <= s@.len(),
            n == s@.len(),
            match (find(s@.skip(from as int), pat@), find(s@.skip(i as int), pat@)) {
                (Some(a), Some(b)) => from + a == i + b,
                (None, None) => true,
                _ => false,
            },
        decreases s@.len() - i,
    {
        if stands_at(s, pat, i) {
            assert(find(s@.skip(i as int), pat@) == Some(0int));
            return Some(i);
        }
        assert(s@.skip(i as int).drop_first() =~= s@.skip(i + 1));
        i += 1;
    }
    assert(s@.skip(s@.len() as int).len() == 0);
    if pat.len() == 0 {
        assert(s@.skip(i as int).take(0) =~= pat@);
        Some(i)
    } else {
        None
    }
}

/// Whether `s` begins with `pat`.
pub fn starts_with(s: &str, pat: &str) -> (r: bool)
    ensures
        r == starts(s@, pat@),
{
    let chars: Vec<char> = chars_of(s);
    let p: Vec<char> = chars_of(pat);
    assert(chars@.skip(0) =~= chars@);
    stands_at(&chars, &p, 0)
}

/// Whether `pat` stands anywhere in `s`.
pub fn has(s: &str, pat: &str) -> (r: bool)
    ensures
        r == contains(s@, pat@),
{
    let chars: Vec<char> = chars_of(s);
    let p: Vec<char> = chars_of(pat);
    assert(chars@.skip(0) =~= chars@);
    find_from(&chars, &p, 0).is_some()
}

/// `s` without the leading `pat`, where it begins with it.
pub fn strip_prefix<'a>(s: &'a str, pat: &str) -> (r: Option<&'a str>)
    ensures
        starts(s@, pat@) ==> (r matches Some(t) && t@ == s@.skip(pat@.len() as int)),
        !starts(s@, pat@) ==> r is None,
{
    let chars: Vec<char> = chars_of(s);
    let p: Vec<char> = chars_of(pat);
    assert(chars@.skip(0) =~= chars@);
    if stands_at(&chars, &p, 0) {
        Some(s.substring_char(p.len(), chars.len()))
    } else {
        None
    }
}

/// `s` without the trailing `pat`, where it ends with it.
pub fn strip_suffix<'a>(s: &'a str, pat: &str) -> (r: Option<&'a str>)
    ensures
        ends(s@, pat@) ==> (r matches Some(t) && t@ == s@.take(s@.len() - pat@.len())),
        !ends(s@, pat@) ==> r is None,
{
    let chars: Vec<char> = chars_of(s);
    let p: Vec<char> = chars_of(pat);
    if p.len() > chars.len() {
        return None;
    }
    let at: usize = chars.len() - p.len();
    assert(chars@.skip(at as int).take(p@.len() as int) =~= chars@.skip(at as int));
    if stands_at(&chars, &p, at) {
        Some(s.substring_char(0, at))
    } else {
        None
    }
}

/// The parts of `s` before and after the first `pat`.
pub fn split_once<'a>(s: &'a str, pat: &str) -> (r: Option<(&'a str, &'a str)>)
    ensures
        match (r, split_at_first(s@, pat@)) {
            (Some(got), Some(want)) => got.0@ == want.0 && got.1@ == want.1,
            (None, None) => true,
            _ => false,
        },
{
    let chars: Vec<char> = chars_of(s);
    let p: Vec<char> = chars_of(pat);
    assert(chars@.skip(0) =~= chars@);
    match find_from(&chars, &p, 0) {
        Some(i) => {
            Some((s.substring_char(0, i), s.substring_char(i + p.len(), chars.len())))
        },
        None => None,
    }
}

/// `s` with every `pat` replaced by `with`, from the left and without overlap.
pub fn replace(s: &str, pat: &str, with: &str) -> (r: String)
    requires
        pat@.len() > 0,
    ensures
        r@ == replaced(s@, pat@, with@),
{
    let chars: Vec<char> = chars_of(s);
    let p: Vec<char> = chars_of(pat);
    let total: usize = chars.len();
    let mut out: String = String::new();
    let mut cursor: usize = 0;
    assert(chars@.skip(0) =~= chars@);
    loop
        invariant
            cursor <= chars@.len() == total,
            p@ == pat@,
            chars@ == s@,
            pat@.len() > 0,
            replaced(s@, pat@, with@) =~= out@ + replaced(
                chars@.skip(cursor as int),
                pat@,
                with@,
            ),
        decreases chars@.len() - cursor,
    {
        let ghost rest = chars@.skip(cursor as int);
        match find_from(&chars, &p, cursor) {
            Some(i) => {
                let piece: String = string_range(&chars, cursor, i);
                let ghost before = out@;
                out.append(piece.as_str());
                out.append(with);
                proof {
                    let k = find(rest, pat@).unwrap();
                    lemma_find(rest, pat@);
                    assert(piece@ =~= rest.take(k));
                    assert(rest.skip(k + pat@.len()) =~= chars@.skip(i + p@.len()));
                }
                cursor = i + p.len();
            },
            None => {
                let piece: String = string_range(&chars, cursor, chars.len());
                assert(piece@ =~= rest);
                out.append(piece.as_str());
                return out;
            },
        }
    }
}

/// `s` with the first `pat` replaced by `with`.
pub fn replace_once(s: &str, pat: &str, with: &str) -> (r: String)
    ensures
        r@ == replaced_once(s@, pat@, with@),
{
    match split_once(s, pat) {
        Some((a, b)) => crate::text::cat3(a, with, b),
        None => s.to_owned(),
    }
}

/// How many times `pat` stands in `s`, counted from the left and without overlap.
pub fn count(s: &str, pat: &str) -> (r: usize)
    requires
        pat@.len() > 0,
    ensures
        r == occurrences(s@, pat@),
{
    let chars: Vec<char> = chars_of(s);
    let p: Vec<char> = chars_of(pat);
    let total: usize = chars.len();
    let mut n: usize = 0;
    let mut cursor: usize = 0;
    assert(chars@.skip(0) =~= chars@);
    loop
        invariant
            n <= cursor <= chars@.len() == total,
            p@ == pat@,
            chars@ == s@,
            pat@.len() > 0,
            occurrences(s@, pat@) == n + occurrences(chars@.skip(cursor as int), pat@),
        decreases chars@.len() - cursor,
    {
        let ghost rest = chars@.skip(cursor as int);
        match find_from(&chars, &p, cursor) {
            Some(i) => {
                proof {
                    let k = find(rest, pat@).unwrap();
                    lemma_find(rest, pat@);
                    assert(rest.skip(k + pat@.len()) =~= chars@.skip(i + p@.len()));
                }
                n += 1;
                cursor = i + p.len();
            },
            None => {
                return n;
            },
        }
    }
}

} // verus!
