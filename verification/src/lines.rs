//! Lines, words and lists of texts.

use vstd::prelude::*;

use crate::search::{find, find_from, lemma_find, one};
use crate::text::{chars_of, is_space, space, string_range, trimmed_start, views};

verus! {

/// A text without one trailing carriage return.
pub open spec fn without_cr(s: Seq<char>) -> Seq<char> {
    if s.len() > 0 && s.last() == '\r' {
        s.drop_last()
    } else {
        s
    }
}

/// The lines of a text: what ends in a newline, or in a carriage return and a newline, and what is
/// left after the last newline unless that is nothing.
pub open spec fn lines_of(s: Seq<char>) -> Seq<Seq<char>>
    decreases s.len(),
{
    if s.len() == 0 {
        Seq::empty()
    } else {
        match find(s, one('\n')) {
            Some(i) => if 0 <= i < s.len() {
                seq![without_cr(s.take(i))] + lines_of(s.skip(i + 1))
            } else {
                Seq::empty()
            },
            None => seq![s],
        }
    }
}

/// The pieces of a text between the characters `c`; one more than there are of them.
pub open spec fn pieces(s: Seq<char>, c: char) -> Seq<Seq<char>>
    decreases s.len(),
{
    match find(s, one(c)) {
        Some(i) => if 0 <= i < s.len() {
            seq![s.take(i)] + pieces(s.skip(i + 1), c)
        } else {
            seq![s]
        },
        None => seq![s],
    }
}

/// The leading characters that are no white space.
pub open spec fn leading_word(s: Seq<char>) -> Seq<char>
    decreases s.len(),
{
    if s.len() == 0 || space(s[0]) {
        Seq::empty()
    } else {
        seq![s[0]] + leading_word(s.drop_first())
    }
}

/// The first word of a text.
pub open spec fn first_word(s: Seq<char>) -> Seq<char> {
    leading_word(trimmed_start(s))
}

/// A list of texts with `sep` between them.
pub open spec fn joined(parts: Seq<Seq<char>>, sep: Seq<char>) -> Seq<char>
    decreases parts.len(),
{
    if parts.len() == 0 {
        Seq::empty()
    } else if parts.len() == 1 {
        parts[0]
    } else {
        joined(parts.drop_last(), sep) + sep + parts.last()
    }
}

/// `n` times the character `c`.
pub open spec fn repeated(c: char, n: nat) -> Seq<char> {
    Seq::new(n, |i: int| c)
}

/// The lines of a text.
pub fn lines(s: &str) -> (r: Vec<String>)
    ensures
        views(r@) == lines_of(s@),
{
    let chars: Vec<char> = chars_of(s);
    let mut newline: Vec<char> = Vec::new();
    newline.push('\n');
    assert(newline@ =~= one('\n'));
    let total: usize = chars.len();
    let mut out: Vec<String> = Vec::new();
    let mut cursor: usize = 0;
    assert(chars@.skip(0) =~= chars@);
    assert(views(out@) =~= Seq::<Seq<char>>::empty());
    while cursor < total
        invariant
            cursor <= chars@.len() == total,
            newline@ == one('\n'),
            lines_of(chars@) =~= views(out@) + lines_of(chars@.skip(cursor as int)),
        decreases total - cursor,
    {
        let ghost rest = chars@.skip(cursor as int);
        let ghost before = out@;
        proof {
            lemma_find(rest, one('\n'));
        }
        match find_from(&chars, &newline, cursor) {
            Some(i) => {
                let end: usize = if i > cursor && chars[i - 1] == '\r' {
                    i - 1
                } else {
                    i
                };
                let line: String = string_range(&chars, cursor, end);
                assert(line@ =~= without_cr(rest.take(i - cursor)));
                out.push(line);
                assert(views(out@) =~= views(before).push(line@));
                assert(rest.skip(i - cursor + 1) =~= chars@.skip(i + 1));
                cursor = i + 1;
            },
            None => {
                let line: String = string_range(&chars, cursor, total);
                assert(line@ =~= rest);
                out.push(line);
                assert(views(out@) =~= views(before).push(line@));
                assert(chars@.skip(total as int) =~= Seq::<char>::empty());
                cursor = total;
            },
        }
    }
    assert(chars@.skip(cursor as int) =~= Seq::<char>::empty());
    out
}

/// The pieces of a text between the characters `c`.
pub fn split_on(s: &str, c: char) -> (r: Vec<String>)
    ensures
        views(r@) == pieces(s@, c),
{
    let chars: Vec<char> = chars_of(s);
    let mut mark: Vec<char> = Vec::new();
    mark.push(c);
    assert(mark@ =~= one(c));
    let total: usize = chars.len();
    let mut out: Vec<String> = Vec::new();
    let mut cursor: usize = 0;
    assert(chars@.skip(0) =~= chars@);
    assert(views(out@) =~= Seq::<Seq<char>>::empty());
    loop
        invariant
            cursor <= chars@.len() == total,
            mark@ == one(c),
            chars@ == s@,
            pieces(s@, c) =~= views(out@) + pieces(chars@.skip(cursor as int), c),
        decreases total - cursor,
    {
        let ghost rest = chars@.skip(cursor as int);
        let ghost before = out@;
        proof {
            lemma_find(rest, one(c));
        }
        match find_from(&chars, &mark, cursor) {
            Some(i) => {
                let piece: String = string_range(&chars, cursor, i);
                assert(piece@ =~= rest.take(i - cursor));
                out.push(piece);
                assert(views(out@) =~= views(before).push(piece@));
                assert(rest.skip(i - cursor + 1) =~= chars@.skip(i + 1));
                cursor = i + 1;
            },
            None => {
                let piece: String = string_range(&chars, cursor, total);
                assert(piece@ =~= rest);
                out.push(piece);
                assert(views(out@) =~= views(before).push(piece@));
                return out;
            },
        }
    }
}

/// The first word of a text.
pub fn take_word(s: &str) -> (r: &str)
    ensures
        r@ == first_word(s@),
{
    let body: &str = crate::text::trim_start(s);
    let chars: Vec<char> = chars_of(body);
    let mut i: usize = 0;
    assert(chars@.skip(0) =~= chars@);
    assert(chars@.take(0) + leading_word(chars@) =~= leading_word(chars@));
    while i < chars.len() && !is_space(chars[i])
        invariant
            i <= chars@.len(),
            leading_word(chars@) == chars@.take(i as int) + leading_word(chars@.skip(i as int)),
        decreases chars@.len() - i,
    {
        let ghost rest = chars@.skip(i as int);
        assert(rest.drop_first() =~= chars@.skip(i + 1));
        assert(chars@.take(i as int) + (seq![rest[0]] + leading_word(rest.drop_first()))
            =~= chars@.take(i + 1) + leading_word(chars@.skip(i + 1)));
        i += 1;
    }
    assert(leading_word(chars@) =~= chars@.take(i as int));
    assert(chars@.take(i as int) =~= chars@.subrange(0, i as int));
    body.substring_char(0, i)
}

/// Joins texts with `sep` between them.
pub fn join(parts: &Vec<String>, sep: &str) -> (r: String)
    ensures
        r@ == joined(views(parts@), sep@),
{
    let mut out: String = String::new();
    let mut i: usize = 0;
    let ghost all = views(parts@);
    while i < parts.len()
        invariant
            i <= parts@.len(),
            all == views(parts@),
            out@ == joined(all.take(i as int), sep@),
        decreases parts@.len() - i,
    {
        assert(all.take(i + 1).drop_last() =~= all.take(i as int));
        if i > 0 {
            out.append(sep);
            out.append(parts[i].as_str());
        } else {
            out = parts[i].clone();
        }
        i += 1;
    }
    assert(all.take(i as int) =~= all);
    out
}

/// `n` times the character `c`.
pub fn repeat(c: char, n: usize) -> (r: String)
    ensures
        r@ == repeated(c, n as nat),
{
    let mut out: String = String::new();
    let mut i: usize = 0;
    while i < n
        invariant
            i <= n,
            out@ =~= repeated(c, i as nat),
        decreases n - i,
    {
        out.push(c);
        i += 1;
    }
    out
}

} // verus!
