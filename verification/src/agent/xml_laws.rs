//! What holds of the agent's markup as a whole.

use vstd::prelude::*;

use crate::agent::xml::{cdata_escaped, escaped, is_cdata, tag_raw, tag_value, unescaped};
use crate::search::{
    contains, find, lemma_find, lemma_find_at, occurs_at, one, replaced, split_at_first, starts,
};
use crate::text::{lemma_trimmed_is_same, space, trimmed, trimmed_end, trimmed_start};

verus! {

/// Each character of a text written in its own way, one behind the other.
pub open spec fn spelled(s: Seq<char>, f: spec_fn(char) -> Seq<char>) -> Seq<char>
    decreases s.len(),
{
    if s.len() == 0 {
        Seq::empty()
    } else {
        f(s[0]) + spelled(s.drop_first(), f)
    }
}

/// The entity that stands for a character, or the character itself.
pub open spec fn entity(c: char) -> Seq<char> {
    if c == '&' {
        seq!['&', 'a', 'm', 'p', ';']
    } else if c == '<' {
        seq!['&', 'l', 't', ';']
    } else if c == '>' {
        seq!['&', 'g', 't', ';']
    } else if c == '"' {
        seq!['&', 'q', 'u', 'o', 't', ';']
    } else if c == '\'' {
        seq!['&', 'a', 'p', 'o', 's', ';']
    } else {
        seq![c]
    }
}

/// The character that is read back as number `k`.
spec fn nth(k: int) -> char {
    if k == 0 {
        '<'
    } else if k == 1 {
        '>'
    } else if k == 2 {
        '"'
    } else if k == 3 {
        '\''
    } else {
        '&'
    }
}

/// How a character is written once the first `k` entities were read back.
spec fn after_reading(k: int) -> spec_fn(char) -> Seq<char> {
    |c: char|
        if exists|i: int| 0 <= i < k && i < 5 && c == #[trigger] nth(i) {
            one(c)
        } else {
            entity(c)
        }
}

proof fn lemma_entities()
    ensures
        "&amp;"@ == entity('&'),
        "&lt;"@ == entity('<'),
        "&gt;"@ == entity('>'),
        "&quot;"@ == entity('"'),
        "&apos;"@ == entity('\''),
        "&"@ == one('&'),
        "<"@ == one('<'),
        ">"@ == one('>'),
        "\""@ == one('"'),
        "'"@ == one('\''),
{
    reveal_strlit("&amp;");
    reveal_strlit("&lt;");
    reveal_strlit("&gt;");
    reveal_strlit("&quot;");
    reveal_strlit("&apos;");
    reveal_strlit("&");
    reveal_strlit("<");
    reveal_strlit(">");
    reveal_strlit("\"");
    reveal_strlit("'");
    assert("&amp;"@ =~= entity('&'));
    assert("&lt;"@ =~= entity('<'));
    assert("&gt;"@ =~= entity('>'));
    assert("&quot;"@ =~= entity('"'));
    assert("&apos;"@ =~= entity('\''));
    assert("&"@ =~= one('&'));
    assert("<"@ =~= one('<'));
    assert(">"@ =~= one('>'));
    assert("\""@ =~= one('"'));
    assert("'"@ =~= one('\''));
}

/// Where the pattern does not stand in front, the first character stays and the rest is replaced.
pub proof fn lemma_replaced_skip(s: Seq<char>, pat: Seq<char>, with: Seq<char>)
    requires
        s.len() > 0,
        pat.len() > 0,
        !occurs_at(s, pat, 0),
    ensures
        replaced(s, pat, with) == seq![s[0]] + replaced(s.drop_first(), pat, with),
{
    let rest = s.drop_first();
    lemma_find(s, pat);
    lemma_find(rest, pat);
    if s.len() >= pat.len() {
        assert(s.subrange(0, pat.len() as int) =~= s.take(pat.len() as int));
        assert(!starts(s, pat));
    }
    match find(rest, pat) {
        Some(i) => {
            assert(find(s, pat) == Some(i + 1));
            assert(s.take(i + 1) =~= seq![s[0]] + rest.take(i));
            assert(s.skip(i + 1 + pat.len()) =~= rest.skip(i + pat.len()));
            assert(s.take(i + 1) + with + replaced(s.skip(i + 1 + pat.len()), pat, with) =~= seq![
                s[0],
            ] + (rest.take(i) + with + replaced(rest.skip(i + pat.len()), pat, with)));
        },
        None => {
            assert(find(s, pat) is None);
            assert(s =~= seq![s[0]] + rest);
        },
    }
}

/// Where the pattern stands in front, it is replaced and so is the rest.
pub proof fn lemma_replaced_front(pat: Seq<char>, u: Seq<char>, with: Seq<char>)
    requires
        pat.len() > 0,
    ensures
        replaced(pat + u, pat, with) == with + replaced(u, pat, with),
{
    let s = pat + u;
    assert(s.subrange(0, pat.len() as int) =~= pat);
    lemma_find_at(s, pat, 0);
    assert(s.skip(pat.len() as int) =~= u);
    assert(s.take(0) + with + replaced(u, pat, with) =~= with + replaced(u, pat, with));
}

/// Where the pattern begins nowhere in `t`, `t` stays and the rest is replaced.
pub proof fn lemma_replaced_past(t: Seq<char>, u: Seq<char>, pat: Seq<char>, with: Seq<char>)
    requires
        pat.len() > 0,
        forall|j: int| 0 <= j < t.len() ==> !occurs_at(t + u, pat, j),
    ensures
        replaced(t + u, pat, with) == t + replaced(u, pat, with),
    decreases t.len(),
{
    if t.len() == 0 {
        assert(t + u =~= u);
        assert(t + replaced(u, pat, with) =~= replaced(u, pat, with));
    } else {
        let s = t + u;
        let rest = t.drop_first();
        assert(!occurs_at(s, pat, 0));
        lemma_replaced_skip(s, pat, with);
        assert(s.drop_first() =~= rest + u);
        assert forall|j: int| 0 <= j < rest.len() implies !occurs_at(rest + u, pat, j) by {
            assert(!occurs_at(s, pat, j + 1));
            if occurs_at(rest + u, pat, j) {
                assert(s.subrange(j + 1, j + 1 + pat.len()) =~= (rest + u).subrange(
                    j,
                    j + pat.len(),
                ));
            }
        }
        lemma_replaced_past(rest, u, pat, with);
        assert(seq![s[0]] + (rest + replaced(u, pat, with)) =~= t + replaced(u, pat, with));
    }
}

/// One character replaced in a text that is spelled: replaced in the spelling of each character.
proof fn lemma_replaced_spelled(
    s: Seq<char>,
    f: spec_fn(char) -> Seq<char>,
    g: spec_fn(char) -> Seq<char>,
    d: char,
)
    requires
        forall|c: char| #[trigger] f(c) == one(d) ==> g(c) == entity(d),
        forall|c: char| #[trigger] f(c) != one(d) ==> g(c) == f(c) && !f(c).contains(d),
    ensures
        replaced(spelled(s, f), one(d), entity(d)) == spelled(s, g),
    decreases s.len(),
{
    if s.len() == 0 {
        lemma_find(spelled(s, f), one(d));
    } else {
        let t = f(s[0]);
        let u = spelled(s.drop_first(), f);
        lemma_replaced_spelled(s.drop_first(), f, g, d);
        if t == one(d) {
            lemma_replaced_front(t, u, entity(d));
        } else {
            assert forall|j: int| 0 <= j < t.len() implies !occurs_at(t + u, one(d), j) by {
                if occurs_at(t + u, one(d), j) {
                    assert((t + u).subrange(j, j + 1)[0] == t[j]);
                    assert(one(d)[0] == d);
                    assert(t.contains(t[j]));
                }
            }
            lemma_replaced_past(t, u, one(d), entity(d));
        }
    }
}

/// How a character is written once the first `k` of the five were made entities.
spec fn after_writing(k: int) -> spec_fn(char) -> Seq<char> {
    |c: char|
        if (k > 0 && c == '&') || (k > 1 && c == '<') || (k > 2 && c == '>') || (k > 3
            && c == '"') || (k
            > 4 && c == '\'') {
            entity(c)
        } else {
            one(c)
        }
}

proof fn lemma_spelled_plain(s: Seq<char>)
    ensures
        spelled(s, after_writing(0)) == s,
    decreases s.len(),
{
    if s.len() > 0 {
        lemma_spelled_plain(s.drop_first());
        assert(after_writing(0)(s[0]) == one(s[0]));
        assert(one(s[0]) + s.drop_first() =~= s);
    } else {
        assert(spelled(s, after_writing(0)) =~= s);
    }
}

proof fn lemma_write_step(s: Seq<char>, k: int, d: char)
    requires
        (k == 0 && d == '&') || (k == 1 && d == '<') || (k == 2 && d == '>') || (k == 3
            && d == '"') || (k
            == 4 && d == '\''),
    ensures
        replaced(spelled(s, after_writing(k)), one(d), entity(d)) == spelled(s, after_writing(k + 1)),
{
    let f = after_writing(k);
    let g = after_writing(k + 1);
    assert forall|c: char| #[trigger] f(c) == one(d) implies g(c) == entity(d) by {
        assert(one(d)[0] == d);
        if f(c) == entity(c) && entity(c).len() > 1 {
            assert(one(d).len() == 1);
        } else {
            assert(f(c)[0] == c);
        }
    }
    assert forall|c: char| #[trigger] f(c) != one(d) implies g(c) == f(c) && !f(c).contains(d) by {
        assert(c != d);
        let t = f(c);
        assert forall|j: int| 0 <= j < t.len() implies t[j] != d by {
            if k > 0 && c == '&' {
                assert(t == entity('&'));
            }
        }
    }
    lemma_replaced_spelled(s, f, g, d);
}

/// What escaping writes, character by character.
pub proof fn law_escaping_goes_by_character(s: Seq<char>)
    ensures
        escaped(s) == spelled(s, |c: char| entity(c)),
{
    lemma_entities();
    lemma_spelled_plain(s);
    lemma_write_step(s, 0, '&');
    lemma_write_step(s, 1, '<');
    lemma_write_step(s, 2, '>');
    lemma_write_step(s, 3, '"');
    lemma_write_step(s, 4, '\'');
    lemma_spelled_same(s, after_writing(5), |c: char| entity(c));
}

proof fn lemma_spelled_same(
    s: Seq<char>,
    f: spec_fn(char) -> Seq<char>,
    g: spec_fn(char) -> Seq<char>,
)
    requires
        forall|c: char| #[trigger] f(c) == g(c),
    ensures
        spelled(s, f) == spelled(s, g),
    decreases s.len(),
{
    if s.len() > 0 {
        lemma_spelled_same(s.drop_first(), f, g);
    }
}

proof fn lemma_read_step(s: Seq<char>, k: int)
    requires
        0 <= k < 5,
    ensures
        replaced(spelled(s, after_reading(k)), entity(nth(k)), one(nth(k))) == spelled(
            s,
            after_reading(k + 1),
        ),
    decreases s.len(),
{
    let f = after_reading(k);
    let g = after_reading(k + 1);
    let d = nth(k);
    let p = entity(d);
    if s.len() == 0 {
        lemma_find(spelled(s, f), p);
    } else {
        let c = s[0];
        let t = f(c);
        let u = spelled(s.drop_first(), f);
        lemma_read_step(s.drop_first(), k);
        if c == d {
            assert(t == p) by {
                assert forall|i: int| 0 <= i < k && i < 5 implies c != #[trigger] nth(i) by {}
            }
            lemma_replaced_front(t, u, one(d));
            assert(g(c) == one(c)) by {
                assert(c == nth(k));
            }
        } else {
            assert(g(c) == t) by {
                if exists|i: int| 0 <= i < k + 1 && i < 5 && c == #[trigger] nth(i) {
                    let i = choose|i: int| 0 <= i < k + 1 && i < 5 && c == #[trigger] nth(i);
                    assert(i < k);
                    assert(0 <= i < k && i < 5 && c == nth(i));
                } else {
                    assert forall|i: int| 0 <= i < k && i < 5 implies c != #[trigger] nth(i) by {
                        if c == nth(i) {
                            assert(0 <= i < k + 1 && i < 5 && c == nth(i));
                        }
                    }
                }
            }
            assert(t == one(c) || t == entity(c));
            assert(t == one(c) ==> c != '&') by {
                if t == one(c) && c == '&' {
                    assert(entity('&').len() == 5);
                    assert(one(c).len() == 1);
                    let i = choose|i: int| 0 <= i < k && i < 5 && c == #[trigger] nth(i);
                    assert(i < 4);
                }
            }
            assert forall|j: int| 0 <= j < t.len() implies !occurs_at(t + u, p, j) by {
                if occurs_at(t + u, p, j) {
                    let part = (t + u).subrange(j, j + p.len());
                    assert(p.len() >= 4);
                    assert(part[0] == '&' && part[1] == p[1] && part[2] == p[2]);
                    assert(part[0] == t[j]);
                    if j == 0 && t.len() > 1 {
                        assert(part[1] == t[1] && part[2] == t[2]);
                    }
                }
            }
            lemma_replaced_past(t, u, p, one(d));
        }
    }
}

/// What was escaped reads back as it was.
pub proof fn law_unescape_undoes_escape(s: Seq<char>)
    ensures
        unescaped(escaped(s)) == s,
{
    lemma_entities();
    law_escaping_goes_by_character(s);
    assert forall|c: char| #[trigger] after_reading(0)(c) == (|c: char| entity(c))(c) by {}
    lemma_spelled_same(s, after_reading(0), |c: char| entity(c));
    lemma_read_step(s, 0);
    lemma_read_step(s, 1);
    lemma_read_step(s, 2);
    lemma_read_step(s, 3);
    lemma_read_step(s, 4);
    assert forall|c: char| #[trigger] after_reading(5)(c) == after_writing(0)(c) by {
        if c == '<' {
            assert(c == nth(0));
        } else if c == '>' {
            assert(c == nth(1));
        } else if c == '"' {
            assert(c == nth(2));
        } else if c == '\'' {
            assert(c == nth(3));
        } else if c == '&' {
            assert(c == nth(4));
        }
        assert(entity(c) == one(c) || exists|i: int| 0 <= i < 5 && i < 5 && c == #[trigger] nth(i));
    }
    lemma_spelled_same(s, after_reading(5), after_writing(0));
    lemma_spelled_plain(s);
}

proof fn lemma_escaped_has_no_angle(s: Seq<char>)
    ensures
        !escaped(s).contains('<'),
    decreases s.len(),
{
    law_escaping_goes_by_character(s);
    lemma_spelled_no_angle(s);
}

proof fn lemma_spelled_no_angle(s: Seq<char>)
    ensures
        !spelled(s, |c: char| entity(c)).contains('<'),
    decreases s.len(),
{
    let f = |c: char| entity(c);
    if s.len() > 0 {
        lemma_spelled_no_angle(s.drop_first());
        let t = f(s[0]);
        let u = spelled(s.drop_first(), f);
        assert forall|i: int| 0 <= i < (t + u).len() implies (t + u)[i] != '<' by {
            if i < t.len() {
                assert((t + u)[i] == t[i]);
            } else {
                assert((t + u)[i] == u[i - t.len()]);
                assert(u.contains(u[i - t.len()]));
            }
        }
    }
}

proof fn lemma_spelled_ends(s: Seq<char>)
    requires
        s.len() > 0,
    ensures
        spelled(s, |c: char| entity(c)).len() > 0,
        spelled(s, |c: char| entity(c))[0] == entity(s[0])[0],
        spelled(s, |c: char| entity(c)).last() == entity(s.last()).last(),
    decreases s.len(),
{
    let f = |c: char| entity(c);
    let rest = s.drop_first();
    if rest.len() > 0 {
        lemma_spelled_ends(rest);
        assert(rest.last() == s.last());
    } else {
        assert(spelled(rest, f) =~= Seq::empty());
        assert(f(s[0]) + spelled(rest, f) =~= f(s[0]));
        assert(s.last() == s[0]);
    }
}

proof fn lemma_spelled_last(s: Seq<char>)
    requires
        s.len() > 0,
    ensures
        spelled(s, |c: char| entity(c)) == spelled(s.drop_last(), |c: char| entity(c)) + entity(
            s.last(),
        ),
    decreases s.len(),
{
    let f = |c: char| entity(c);
    let rest = s.drop_first();
    let front = s.drop_last();
    if rest.len() > 0 {
        lemma_spelled_last(rest);
        assert(front.drop_first() =~= rest.drop_last());
        assert(f(s[0]) + (spelled(rest.drop_last(), f) + entity(s.last())) =~= (f(s[0]) + spelled(
            rest.drop_last(),
            f,
        )) + entity(s.last()));
    } else {
        assert(spelled(rest, f) =~= Seq::empty());
        assert(spelled(front, f) =~= Seq::empty());
        assert(f(s[0]) + spelled(rest, f) =~= spelled(front, f) + entity(s.last()));
    }
}

proof fn lemma_spelled_trims_start(s: Seq<char>)
    ensures
        trimmed_start(spelled(s, |c: char| entity(c))) == spelled(
            trimmed_start(s),
            |c: char| entity(c),
        ),
    decreases s.len(),
{
    let f = |c: char| entity(c);
    if s.len() > 0 {
        lemma_spelled_ends(s);
        if space(s[0]) {
            lemma_spelled_trims_start(s.drop_first());
            assert(spelled(s, f).drop_first() =~= spelled(s.drop_first(), f));
        }
    }
}

proof fn lemma_spelled_trims_end(s: Seq<char>)
    ensures
        trimmed_end(spelled(s, |c: char| entity(c))) == spelled(
            trimmed_end(s),
            |c: char| entity(c),
        ),
    decreases s.len(),
{
    let f = |c: char| entity(c);
    if s.len() > 0 {
        lemma_spelled_ends(s);
        if space(s.last()) {
            lemma_spelled_trims_end(s.drop_last());
            lemma_spelled_last(s);
            assert(spelled(s, f).drop_last() =~= spelled(s.drop_last(), f));
        }
    }
}

/// Escaping and trimming can be done in either order.
pub proof fn law_escaping_keeps_the_margins(s: Seq<char>)
    ensures
        trimmed(escaped(s)) == escaped(trimmed(s)),
{
    law_escaping_goes_by_character(s);
    law_escaping_goes_by_character(trimmed(s));
    lemma_spelled_trims_start(s);
    lemma_spelled_trims_end(trimmed_start(s));
}

/// A block that holds one tag.
pub open spec fn tagged(tag: Seq<char>, inner: Seq<char>) -> Seq<char> {
    ("<"@ + tag + ">"@) + inner + ("</"@ + tag + ">"@)
}

/// What stands between the tags of a block, where it does not hold the closing tag itself.
proof fn lemma_tag_raw(tag: Seq<char>, inner: Seq<char>)
    requires
        forall|j: int| 0 <= j < inner.len() ==> !occurs_at(
            inner + ("</"@ + tag + ">"@),
            "</"@ + tag + ">"@,
            j,
        ),
    ensures
        tag_raw(tagged(tag, inner), tag) == Some(inner),
{
    let open = "<"@ + tag + ">"@;
    let close = "</"@ + tag + ">"@;
    let s = tagged(tag, inner);
    assert(s.subrange(0, open.len() as int) =~= open);
    lemma_find_at(s, open, 0);
    let rest = s.skip(open.len() as int);
    assert(rest =~= inner + close);
    assert(rest.subrange(inner.len() as int, inner.len() as int + close.len()) =~= close);
    lemma_find_at(rest, close, inner.len() as int);
    assert(rest.take(inner.len() as int) =~= inner);
}

/// A value that was escaped and put between tags reads back, without the spaces around it.
pub proof fn law_escaped_value_reads_back(tag: Seq<char>, value: Seq<char>)
    ensures
        tag_value(tagged(tag, escaped(value)), tag) == Some(trimmed(value)),
        trimmed(value) == value ==> tag_value(tagged(tag, escaped(value)), tag) == Some(value),
{
    reveal(tag_value);
    law_escaping_keeps_the_margins(value);
    let inner = escaped(value);
    let kept = escaped(trimmed(value));
    let close = "</"@ + tag + ">"@;
    lemma_escaped_has_no_angle(value);
    lemma_escaped_has_no_angle(trimmed(value));
    reveal_strlit("</");
    reveal_strlit("<![CDATA[");
    assert forall|j: int| 0 <= j < inner.len() implies !occurs_at(inner + close, close, j) by {
        if occurs_at(inner + close, close, j) {
            assert((inner + close).subrange(j, j + close.len())[0] == inner[j]);
            assert(close[0] == '<');
            assert(inner.contains(inner[j]));
        }
    }
    lemma_tag_raw(tag, inner);
    if is_cdata(kept) {
        assert(kept.take("<![CDATA["@.len() as int)[0] == kept[0]);
        assert("<![CDATA["@[0] == '<');
        assert(kept.contains(kept[0]));
    }
    law_unescape_undoes_escape(trimmed(value));
}

/// A text in a CDATA section.
pub open spec fn in_cdata(value: Seq<char>) -> Seq<char> {
    "<![CDATA["@ + value + "]]>"@
}

/// A value in a CDATA section between tags reads back untouched, where it does not hold the closing
/// tag, and the tag does not hold a closing bracket.
pub proof fn law_cdata_value_reads_back(tag: Seq<char>, value: Seq<char>)
    requires
        !tag.contains(']'),
        !contains(value, "</"@ + tag + ">"@),
    ensures
        tag_value(tagged(tag, in_cdata(value)), tag) == Some(value),
{
    reveal(tag_value);
    reveal_strlit("</");
    reveal_strlit(">");
    reveal_strlit("]]>");
    reveal_strlit("<![CDATA[");
    let inner = in_cdata(value);
    let close = "</"@ + tag + ">"@;
    let all = inner + close;
    let n = value.len();
    assert forall|j: int| 0 <= j < inner.len() implies !occurs_at(all, close, j) by {
        if occurs_at(all, close, j) {
            let there = all.subrange(j, j + close.len());
            assert(there[0] == all[j] && there[1] == all[j + 1]);
            assert(close[0] == '<' && close[1] == '/');
            if j < 9 {
                assert(all[j] == "<![CDATA["@[j]);
                assert(all[1] == '!');
            } else if j >= 9 + n {
                assert(all[j] == "]]>"@[j - 9 - n]);
            } else if j + close.len() <= 9 + n {
                assert(value.subrange(j - 9, j - 9 + close.len()) =~= there);
                assert(occurs_at(value, close, j - 9));
                lemma_find(value, close);
            } else {
                let k = 9 + n - j;
                assert(there[k] == all[9 + n as int]);
                assert(all[9 + n as int] == ']');
                assert(close[k] == ']');
                if 2 <= k < 2 + tag.len() {
                    assert(tag[k - 2] == ']');
                }
            }
        }
    }
    lemma_tag_raw(tag, inner);
    assert(inner[0] == '<' && inner.last() == '>');
    lemma_trimmed_is_same(inner);
    let rest = inner.skip(9);
    assert(rest =~= value + "]]>"@);
    assert(inner.take(9) =~= "<![CDATA["@);
    assert(rest.skip(n as int) =~= "]]>"@);
    assert(rest.take(n as int) =~= value);
}

/// What CDATA sections hold that stand one behind the other; nothing where anything else is there.
pub open spec fn sections_read(s: Seq<char>) -> Option<Seq<char>>
    decreases s.len(),
{
    if s.len() == 0 {
        Some(Seq::empty())
    } else if !starts(s, "<![CDATA["@) {
        None
    } else {
        match split_at_first(s.skip("<![CDATA["@.len() as int), "]]>"@) {
            None => None,
            Some((text, rest)) => {
                proof {
                    reveal_strlit("<![CDATA[");
                    lemma_find(s.skip("<![CDATA["@.len() as int), "]]>"@);
                }
                match sections_read(rest) {
                    None => None,
                    Some(more) => Some(text + more),
                }
            },
        }
    }
}

/// A section that ends where its text ends is read, and so are those behind it.
proof fn lemma_section_is_read(text: Seq<char>, rest: Seq<char>)
    requires
        forall|j: int| 0 <= j < text.len() ==> !occurs_at(text + "]]>"@ + rest, "]]>"@, j),
        sections_read(rest) is Some,
    ensures
        sections_read("<![CDATA["@ + text + "]]>"@ + rest) == Some(
            text + sections_read(rest).unwrap(),
        ),
{
    reveal_strlit("<![CDATA[");
    reveal_strlit("]]>");
    let s = "<![CDATA["@ + text + "]]>"@ + rest;
    let n = text.len() as int;
    let inner = s.skip(9);
    assert(s.take(9) =~= "<![CDATA["@);
    assert(inner =~= text + "]]>"@ + rest);
    assert(inner.subrange(n, n + 3) =~= "]]>"@);
    lemma_find_at(inner, "]]>"@, n);
    assert(inner.take(n) =~= text);
    assert(inner.skip(n + 3) =~= rest);
}

/// What was made fit for a CDATA section reads back as it was, from sections that stand one behind the
/// other.
pub proof fn law_escaped_cdata_reads_back(s: Seq<char>)
    ensures
        sections_read(in_cdata(cdata_escaped(s))) == Some(s),
    decreases s.len(),
{
    reveal_strlit("<![CDATA[");
    reveal_strlit("]]>");
    reveal_strlit("]]]]><![CDATA[>");
    let end = "]]>"@;
    let none = Seq::<char>::empty();
    lemma_find(s, end);
    match find(s, end) {
        None => {
            let all = s + end + none;
            assert forall|j: int| 0 <= j < s.len() implies !occurs_at(all, end, j) by {
                if occurs_at(all, end, j) {
                    assert(all.subrange(j, j + 3)[2] == all[j + 2] && end[2] == '>');
                    if j + 3 <= s.len() {
                        assert(s.subrange(j, j + 3) =~= all.subrange(j, j + 3));
                        assert(occurs_at(s, end, j));
                    }
                }
            }
            lemma_section_is_read(s, none);
            assert("<![CDATA["@ + s + end + none =~= in_cdata(s));
            assert(s + none =~= s);
        },
        Some(i) => {
            let t = s.take(i);
            let u = s.skip(i + 3);
            let head = t + seq![']', ']'];
            let next = seq!['>'] + u;
            assert(s.subrange(i, i + 3) =~= end);
            assert(s =~= head + next) by {
                assert forall|j: int| i <= j < i + 3 implies s[j] == end[j - i] by {
                    assert(s.subrange(i, i + 3)[j - i] == s[j]);
                }
            }
            if occurs_at(next, end, 0) {
                assert(next.subrange(0, 3)[0] == '>' && end[0] == ']');
            }
            lemma_replaced_skip(next, end, "]]]]><![CDATA[>"@);
            assert(next.drop_first() =~= u);
            assert(cdata_escaped(next) == seq!['>'] + cdata_escaped(u));
            law_escaped_cdata_reads_back(next);
            let rest = in_cdata(cdata_escaped(next));
            let all = head + end + rest;
            assert forall|j: int| 0 <= j < head.len() implies !occurs_at(all, end, j) by {
                if occurs_at(all, end, j) {
                    assert(all.subrange(j, j + 3)[2] == all[j + 2] && end[2] == '>');
                    if j + 2 < i {
                        assert(s.subrange(j, j + 3) =~= all.subrange(j, j + 3));
                        assert(occurs_at(s, end, j));
                    }
                }
            }
            lemma_section_is_read(head, rest);
            assert("<![CDATA["@ + head + end + rest =~= in_cdata(cdata_escaped(s)));
        },
    }
}

} // verus!
