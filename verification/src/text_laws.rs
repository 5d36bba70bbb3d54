//! What cutting, joining and counting come to.

use vstd::prelude::*;

use crate::lines::{joined, leading_word, lines_of, pieces, without_cr};
use crate::number::{decimal, digits_value, is_digit, parsed_unsigned, signed_decimal};
use crate::order::text_order;
use crate::search::{
    contains, ends, find, lemma_find, lemma_find_at, occurrences, occurs_at, one, replaced,
    replaced_once, split_at_first, starts,
};
use crate::text::{space, trimmed, trimmed_end, trimmed_start};

verus! {

// ---------------------------------------------------------------------------
// Trimming
// ---------------------------------------------------------------------------

/// White space and nothing else.
pub open spec fn is_all_space(s: Seq<char>) -> bool {
    forall|i: int| 0 <= i < s.len() ==> space(#[trigger] s[i])
}

proof fn lemma_front_goes(front: Seq<char>, s: Seq<char>)
    requires
        is_all_space(front),
    ensures
        trimmed_start(front + s) == trimmed_start(s),
    decreases front.len(),
{
    if front.len() == 0 {
        assert(front + s =~= s);
    } else {
        let rest = front.drop_first();
        assert forall|i: int| 0 <= i < rest.len() implies space(#[trigger] rest[i]) by {
            assert(rest[i] == front[i + 1]);
        }
        assert(space(front[0]));
        assert((front + s)[0] == front[0]);
        assert((front + s).drop_first() =~= rest + s);
        lemma_front_goes(rest, s);
    }
}

proof fn lemma_back_goes(s: Seq<char>, back: Seq<char>)
    requires
        is_all_space(back),
    ensures
        trimmed_end(s + back) == trimmed_end(s),
    decreases back.len(),
{
    if back.len() == 0 {
        assert(s + back =~= s);
    } else {
        let rest = back.drop_last();
        assert forall|i: int| 0 <= i < rest.len() implies space(#[trigger] rest[i]) by {
            assert(rest[i] == back[i]);
        }
        assert(space(back[back.len() - 1]));
        assert((s + back).last() == back.last());
        assert((s + back).drop_last() =~= s + rest);
        lemma_back_goes(s, rest);
    }
}

/// Trimming takes the white space in front and behind, and nothing else.
pub proof fn law_trimming_takes_the_margins(front: Seq<char>, s: Seq<char>, back: Seq<char>)
    requires
        is_all_space(front),
        is_all_space(back),
        s.len() > 0,
        !space(s[0]),
        !space(s.last()),
    ensures
        trimmed(front + s + back) == s,
        trimmed_start(front + s + back) == s + back,
        trimmed_end(front + s + back) == front + s,
        trimmed(front).len() == 0,
{
    assert(front + s + back =~= front + (s + back));
    lemma_front_goes(front, s + back);
    assert((s + back)[0] == s[0]);
    assert(trimmed_start(s + back) == s + back);
    lemma_back_goes(s, back);
    lemma_back_goes(front + s, back);
    assert((front + s).last() == s.last());
    let none = Seq::<char>::empty();
    assert(front + none =~= front);
    lemma_front_goes(front, none);
}

/// What begins with something else than white space begins so when it is trimmed.
pub proof fn law_trimming_keeps_the_first(s: Seq<char>)
    requires
        s.len() > 0,
        !space(s[0]),
    ensures
        trimmed(s).len() > 0,
        trimmed(s)[0] == s[0],
    decreases s.len(),
{
    assert(trimmed_start(s) == s);
    if space(s.last()) {
        let rest = s.drop_last();
        assert(s.len() > 1);
        assert(rest[0] == s[0]);
        assert(trimmed_start(rest) == rest);
        law_trimming_keeps_the_first(rest);
    }
}

// ---------------------------------------------------------------------------
// Finding and replacing
// ---------------------------------------------------------------------------

/// No `pat` begins before the end of `before`, where that and `pat` stand in front of a text.
pub open spec fn is_first_at(s: Seq<char>, pat: Seq<char>, n: int) -> bool {
    forall|j: int| 0 <= j < n ==> !occurs_at(s, pat, j)
}

/// A text is cut at the first place where the separator stands; where it does not stand, it is not
/// cut.
pub proof fn law_split_is_at_the_first(before: Seq<char>, pat: Seq<char>, behind: Seq<char>)
    requires
        is_first_at(before + pat + behind, pat, before.len() as int),
    ensures
        split_at_first(before + pat + behind, pat) == Some((before, behind)),
{
    let s = before + pat + behind;
    let n = before.len() as int;
    assert(s.subrange(n, n + pat.len()) =~= pat);
    lemma_find_at(s, pat, n);
    assert(s.take(n) =~= before);
    assert(s.skip(n + pat.len()) =~= behind);
}

/// What is replaced once is the first place; what is replaced everywhere is that one and those behind
/// it. A text in which it does not stand stays.
pub proof fn law_replacing(before: Seq<char>, pat: Seq<char>, behind: Seq<char>, with: Seq<char>)
    requires
        pat.len() > 0,
        is_first_at(before + pat + behind, pat, before.len() as int),
    ensures
        replaced_once(before + pat + behind, pat, with) == before + with + behind,
        replaced(before + pat + behind, pat, with) == before + with + replaced(behind, pat, with),
        occurrences(before + pat + behind, pat) == 1 + occurrences(behind, pat),
        !contains(behind, pat) ==> replaced(behind, pat, with) == behind && replaced_once(
            behind,
            pat,
            with,
        ) == behind && occurrences(behind, pat) == 0,
{
    let s = before + pat + behind;
    let n = before.len() as int;
    assert(s.subrange(n, n + pat.len()) =~= pat);
    lemma_find_at(s, pat, n);
    assert(s.take(n) =~= before);
    assert(s.skip(n + pat.len()) =~= behind);
}

/// A text is found wherever it stands, and what is found stands there.
pub proof fn law_finding(before: Seq<char>, pat: Seq<char>, behind: Seq<char>)
    ensures
        contains(before + pat + behind, pat),
        contains(before, pat) <==> exists|i: int| occurs_at(before, pat, i),
        starts(pat + behind, pat),
        ends(before + pat, pat),
{
    let s = before + pat + behind;
    let n = before.len() as int;
    assert(s.subrange(n, n + pat.len()) =~= pat);
    assert(occurs_at(s, pat, n));
    lemma_find(s, pat);
    lemma_find(before, pat);
    assert((pat + behind).take(pat.len() as int) =~= pat);
    assert((before + pat).skip(n) =~= pat);
}

// ---------------------------------------------------------------------------
// Order
// ---------------------------------------------------------------------------

/// Texts are ordered by their first different character, and a shorter text goes first.
pub proof fn law_texts_are_ordered(common: Seq<char>, a: Seq<char>, b: Seq<char>)
    ensures
        a.len() > 0 && b.len() > 0 && a[0] < b[0] ==> text_order()(common + a, common + b)
            && !text_order()(common + b, common + a),
        a.len() > 0 ==> text_order()(common, common + a) && !text_order()(common + a, common),
        text_order()(common, common),
    decreases common.len(),
{
    if common.len() > 0 {
        let rest = common.drop_first();
        law_texts_are_ordered(rest, a, b);
        assert((common + a).drop_first() =~= rest + a);
        assert((common + b).drop_first() =~= rest + b);
    } else {
        assert(common + a =~= a);
        assert(common + b =~= b);
    }
}

// ---------------------------------------------------------------------------
// Lines
// ---------------------------------------------------------------------------

/// A text in which a character does not stand.
pub open spec fn is_free_of(s: Seq<char>, c: char) -> bool {
    forall|i: int| 0 <= i < s.len() ==> #[trigger] s[i] != c
}

proof fn lemma_first_of(s: Seq<char>, c: char, rest: Seq<char>)
    requires
        is_free_of(s, c),
    ensures
        find(s + seq![c] + rest, one(c)) == Some(s.len() as int),
{
    let t = s + seq![c] + rest;
    let n = s.len() as int;
    assert(t.subrange(n, n + 1) =~= one(c));
    assert forall|j: int| 0 <= j < n implies !occurs_at(t, one(c), j) by {
        assert(t[j] == s[j]);
        if occurs_at(t, one(c), j) {
            assert(t.subrange(j, j + 1)[0] == one(c)[0]);
        }
    }
    lemma_find_at(t, one(c), n);
}

proof fn lemma_none_of(s: Seq<char>, c: char)
    requires
        is_free_of(s, c),
    ensures
        find(s, one(c)) is None,
{
    lemma_find(s, one(c));
    if let Some(i) = find(s, one(c)) {
        assert(s.subrange(i, i + 1)[0] == one(c)[0]);
        assert(s[i] == c);
    }
}

/// The first line ends at the first line break, and the other lines are those of the text behind it. A
/// text without a line break is one line, and nothing is no line.
pub proof fn law_lines_end_at_breaks(first: Seq<char>, rest: Seq<char>)
    requires
        is_free_of(first, '\n'),
    ensures
        lines_of(first + seq!['\n'] + rest).len() == 1 + lines_of(rest).len(),
        first.len() == 0 || first.last() != '\r' ==> lines_of(first + seq!['\n'] + rest)[0] == first,
        lines_of(first + seq!['\n'] + rest).skip(1) == lines_of(rest),
        first.len() > 0 ==> lines_of(first) == seq![first],
        lines_of(Seq::empty()).len() == 0,
{
    let s = first + seq!['\n'] + rest;
    lemma_first_of(first, '\n', rest);
    assert(s.take(first.len() as int) =~= first);
    assert(s.skip(first.len() as int + 1) =~= rest);
    assert(lines_of(s) == seq![without_cr(first)] + lines_of(rest));
    assert(lines_of(s).skip(1) =~= lines_of(rest));
    if first.len() > 0 {
        lemma_none_of(first, '\n');
    }
}

/// The first piece ends at the first separator, and the others are those of the text behind it; a text
/// without a separator is one piece.
pub proof fn law_pieces_end_at_separators(first: Seq<char>, c: char, rest: Seq<char>)
    requires
        is_free_of(first, c),
    ensures
        pieces(first + seq![c] + rest, c) == seq![first] + pieces(rest, c),
        pieces(first, c) == seq![first],
{
    let s = first + seq![c] + rest;
    lemma_first_of(first, c, rest);
    assert(s.take(first.len() as int) =~= first);
    assert(s.skip(first.len() as int + 1) =~= rest);
    lemma_none_of(first, c);
}

/// Texts are joined in order, with the separator between each two of them.
pub proof fn law_joining(parts: Seq<Seq<char>>, last: Seq<char>, sep: Seq<char>)
    ensures
        joined(Seq::empty(), sep).len() == 0,
        joined(seq![last], sep) == last,
        parts.len() > 0 ==> joined(parts.push(last), sep) == joined(parts, sep) + sep + last,
{
    assert(parts.push(last).drop_last() =~= parts);
}

/// The first word of a text goes up to the first white space.
pub proof fn law_words_end_at_spaces(word: Seq<char>, rest: Seq<char>)
    requires
        forall|i: int| 0 <= i < word.len() ==> !space(#[trigger] word[i]),
        rest.len() > 0 ==> space(rest[0]),
    ensures
        leading_word(word + rest) == word,
    decreases word.len(),
{
    let s = word + rest;
    if word.len() == 0 {
        assert(s =~= rest);
        assert(leading_word(s) =~= word);
    } else {
        let tail = word.drop_first();
        assert forall|i: int| 0 <= i < tail.len() implies !space(#[trigger] tail[i]) by {
            assert(tail[i] == word[i + 1]);
        }
        assert(!space(word[0]));
        assert(s[0] == word[0]);
        assert(s.drop_first() =~= tail + rest);
        law_words_end_at_spaces(tail, rest);
        assert(seq![word[0]] + tail =~= word);
    }
}

// ---------------------------------------------------------------------------
// Numbers
// ---------------------------------------------------------------------------

/// A number is written to base ten: its last digit is what is left over by ten, and the digits before
/// it are those of a tenth.
pub proof fn law_numbers_are_to_base_ten(n: nat)
    ensures
        decimal(n).len() > 0,
        n < 10 ==> decimal(n).len() == 1,
        n >= 10 ==> decimal(n).drop_last() == decimal(n / 10),
        n % 10 == 0 ==> decimal(n).last() == '0',
        n % 10 == 1 ==> decimal(n).last() == '1',
        n % 10 == 2 ==> decimal(n).last() == '2',
        n % 10 == 3 ==> decimal(n).last() == '3',
        n % 10 == 4 ==> decimal(n).last() == '4',
        n % 10 == 5 ==> decimal(n).last() == '5',
        n % 10 == 6 ==> decimal(n).last() == '6',
        n % 10 == 7 ==> decimal(n).last() == '7',
        n % 10 == 8 ==> decimal(n).last() == '8',
        n % 10 == 9 ==> decimal(n).last() == '9',
        n > 0 ==> signed_decimal(-n) == seq!['-'] + decimal(n),
        signed_decimal(n as int) == decimal(n),
{
    if n >= 10 {
        assert(decimal(n).drop_last() =~= decimal(n / 10));
    }
}

/// Reading goes digit by digit, from the left.
pub proof fn law_digits_are_read_in_order(front: Seq<char>, d: char)
    requires
        is_digit(d),
    ensures
        digits_value(front.push(d)) == 10 * digits_value(front) + (d as int - '0' as int),
        digits_value(Seq::empty()) == 0,
{
    assert(front.push(d).drop_last() =~= front);
}

/// Only digits are read as a number, behind one `+` or none, and only up to what it may be.
pub proof fn law_what_is_a_number(s: Seq<char>, max: nat, i: int)
    ensures
        s.len() == 0 ==> parsed_unsigned(s, max) is None,
        1 <= i < s.len() && !is_digit(s[i]) ==> parsed_unsigned(s, max) is None,
        s.len() > 0 && !is_digit(s[0]) && s[0] != '+' ==> parsed_unsigned(s, max) is None,
        parsed_unsigned(s, max) matches Some(n) ==> n <= max,
{
    if 1 <= i < s.len() && s[0] == '+' {
        assert(s.drop_first()[i - 1] == s[i]);
    }
}

} // verus!
