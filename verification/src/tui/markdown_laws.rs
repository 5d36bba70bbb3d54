//! How markdown is drawn.

use vstd::prelude::*;

use crate::lines::{pieces, repeated};
use crate::number::is_digit;
use crate::search::{lemma_find_at, occurs_at, one, starts};
use crate::text::{space, trimmed, trimmed_start};
use crate::tui::markdown;
use crate::tui::markdown::{
    block_after, block_lines, block_step, bullet_split, compacted, hashes, heading_split,
    inline_rest, is_rule, leading_digits, link_split, marked_style, no_marks, number_split,
    quote_split, text_line, without_fences, BlockState, Marks,
};
use crate::tui::style::{LineView, SpanView, Style, Tone};

verus! {

// ---------------------------------------------------------------------------
// Marks in a text
// ---------------------------------------------------------------------------

/// No character that a mark begins with.
pub open spec fn is_unmarked(s: Seq<char>) -> bool {
    forall|i: int|
        0 <= i < s.len() ==> #[trigger] s[i] != '*' && s[i] != '~' && s[i] != '`' && s[i] != '['
}

/// A text in one piece; nothing where it is empty.
pub open spec fn drawn(text: Seq<char>, style: Style) -> LineView {
    if text.len() == 0 {
        Seq::empty()
    } else {
        seq![SpanView { text, style }]
    }
}

/// No style at all, but for a colour.
pub open spec fn coloured(fg: Tone) -> Style {
    Style {
        fg: Some(fg),
        bg: None,
        bold: false,
        italic: false,
        crossed_out: false,
        underlined: false,
    }
}

/// Bold, in a colour.
pub open spec fn bold_coloured(fg: Tone) -> Style {
    Style { bold: true, ..coloured(fg) }
}

proof fn lemma_gathers(
    s: Seq<char>,
    rest: Seq<char>,
    spans: LineView,
    buffer: Seq<char>,
    marks: Marks,
    base: Style,
)
    requires
        marks.code || is_unmarked(s),
        forall|i: int| 0 <= i < s.len() ==> #[trigger] s[i] != '`',
    ensures
        inline_rest(s + rest, spans, buffer, marks, base) == inline_rest(
            rest,
            spans,
            buffer + s,
            marks,
            base,
        ),
    decreases s.len(),
{
    if s.len() == 0 {
        assert(s + rest =~= rest);
        assert(buffer + s =~= buffer);
    } else {
        let tail = s.drop_first();
        assert forall|i: int| 0 <= i < tail.len() implies #[trigger] tail[i] != '`' by {
            assert(tail[i] == s[i + 1]);
        }
        if !marks.code {
            assert(s[0] != '*' && s[0] != '~' && s[0] != '`' && s[0] != '[');
            assert forall|i: int| 0 <= i < tail.len() implies #[trigger] tail[i] != '*'
                && tail[i] != '~'
                && tail[i] != '`' && tail[i] != '[' by {
                assert(tail[i] == s[i + 1]);
            }
        }
        assert(s[0] != '`');
        assert((s + rest)[0] == s[0]);
        assert((s + rest).skip(1) =~= tail + rest);
        lemma_gathers(tail, rest, spans, buffer.push(s[0]), marks, base);
        assert(buffer.push(s[0]) + tail =~= buffer + s);
    }
}

proof fn lemma_unmarked_has_no_code(s: Seq<char>)
    requires
        is_unmarked(s),
    ensures
        forall|i: int| 0 <= i < s.len() ==> #[trigger] s[i] != '`',
{
}

proof fn lemma_ends(s: Seq<char>, spans: LineView, marks: Marks, base: Style)
    requires
        is_unmarked(s),
    ensures
        inline_rest(s, spans, Seq::empty(), marks, base) == spans + drawn(
            s,
            marked_style(base, marks, false),
        ),
{
    lemma_gathers(s, Seq::empty(), spans, Seq::empty(), marks, base);
    assert(s + Seq::<char>::empty() =~= s);
    assert(Seq::<char>::empty() + s =~= s);
    let style = marked_style(base, marks, false);
    if s.len() > 0 {
        assert(spans.push(SpanView { text: s, style }) =~= spans + drawn(s, style));
    } else {
        assert(spans + drawn(s, style) =~= spans);
    }
}

proof fn lemma_begins(s: Seq<char>, rest: Seq<char>, spans: LineView, marks: Marks, base: Style)
    requires
        marks.code || is_unmarked(s),
        forall|i: int| 0 <= i < s.len() ==> #[trigger] s[i] != '`',
    ensures
        inline_rest(s + rest, spans, Seq::empty(), marks, base) == inline_rest(
            rest,
            spans,
            s,
            marks,
            base,
        ),
{
    lemma_gathers(s, rest, spans, Seq::empty(), marks, base);
    assert(Seq::<char>::empty() + s =~= s);
}

proof fn lemma_flushes(spans: LineView, buffer: Seq<char>, style: Style)
    ensures
        markdown::flushed(spans, buffer, style) == spans + drawn(buffer, style),
{
    if buffer.len() > 0 {
        assert(spans.push(SpanView { text: buffer, style }) =~= spans + drawn(buffer, style));
    } else {
        assert(spans + drawn(buffer, style) =~= spans);
    }
}

/// A text without marks is drawn as it is, in one piece and in the style that it is to have.
pub proof fn law_unmarked_text_is_drawn(text: Seq<char>, base: Style)
    requires
        is_unmarked(text),
    ensures
        markdown::inline(text, base) == drawn(text, base),
{
    lemma_ends(text, Seq::empty(), no_marks(), base);
    assert(marked_style(base, no_marks(), false) == base);
    assert(Seq::<SpanView>::empty() + drawn(text, base) =~= drawn(text, base));
}

/// Text between two pairs of `*` is bold, and the marks do not show; what stands before and behind it
/// stays as it is.
pub proof fn law_strong_text_is_bold(
    before: Seq<char>,
    text: Seq<char>,
    after: Seq<char>,
    base: Style,
)
    requires
        is_unmarked(before),
        is_unmarked(text),
        is_unmarked(after),
    ensures
        markdown::inline(before + seq!['*', '*'] + text + seq!['*', '*'] + after, base) == drawn(before, base)
            + drawn(text, Style { bold: true, ..base }) + drawn(after, base),
{
    let mark = seq!['*', '*'];
    let all = before + mark + text + mark + after;
    let strong = Marks { strong: true, ..no_marks() };
    lemma_two_marks(before, mark, text, after, strong, base);
    assert(marked_style(base, strong, false) == Style { bold: true, ..base });
}

/// Text between two pairs of `~` is crossed out, and the marks do not show.
pub proof fn law_struck_text_is_crossed_out(
    before: Seq<char>,
    text: Seq<char>,
    after: Seq<char>,
    base: Style,
)
    requires
        is_unmarked(before),
        is_unmarked(text),
        is_unmarked(after),
    ensures
        markdown::inline(before + seq!['~', '~'] + text + seq!['~', '~'] + after, base) == drawn(before, base)
            + drawn(text, Style { crossed_out: true, ..base }) + drawn(after, base),
{
    let strike = Marks { strike: true, ..no_marks() };
    lemma_two_marks(before, seq!['~', '~'], text, after, strike, base);
    assert(marked_style(base, strike, false) == Style { crossed_out: true, ..base });
}

proof fn lemma_two_marks(
    before: Seq<char>,
    mark: Seq<char>,
    text: Seq<char>,
    after: Seq<char>,
    marks: Marks,
    base: Style,
)
    requires
        is_unmarked(before),
        is_unmarked(text),
        is_unmarked(after),
        (mark == seq!['*', '*'] && marks == (Marks { strong: true, ..no_marks() })) || (mark == seq![
            '~',
            '~',
        ] && marks == (Marks { strike: true, ..no_marks() })),
    ensures
        markdown::inline(before + mark + text + mark + after, base) == drawn(before, base) + drawn(
            text,
            marked_style(base, marks, false),
        ) + drawn(after, base),
{
    let none = no_marks();
    let all = before + mark + text + mark + after;
    let s1 = mark + text + mark + after;
    let s2 = text + (mark + after);
    let s3 = mark + after;
    assert(marked_style(base, none, false) == base);
    assert(all =~= before + s1);
    lemma_begins(before, s1, Seq::empty(), none, base);
    let d1 = markdown::flushed(Seq::empty(), before, base);
    lemma_flushes(Seq::empty(), before, base);
    assert(d1 =~= drawn(before, base));
    assert(s1[0] == mark[0] && s1[1] == mark[1]);
    assert(s1.skip(2) =~= s2);
    assert(inline_rest(s1, Seq::empty(), before, none, base) == inline_rest(
        s2,
        d1,
        Seq::empty(),
        marks,
        base,
    ));
    lemma_begins(text, s3, d1, marks, base);
    let style = marked_style(base, marks, false);
    let d2 = markdown::flushed(d1, text, style);
    lemma_flushes(d1, text, style);
    assert(s3[0] == mark[0] && s3[1] == mark[1]);
    assert(s3.skip(2) =~= after);
    assert(inline_rest(s3, d1, text, marks, base) == inline_rest(after, d2, Seq::empty(), none, base));
    lemma_ends(after, d2, none, base);
}

/// Text between two `*` is in italics, and the marks do not show.
pub proof fn law_emphasised_text_is_italic(
    before: Seq<char>,
    text: Seq<char>,
    after: Seq<char>,
    base: Style,
)
    requires
        is_unmarked(before),
        is_unmarked(text),
        text.len() > 0,
        is_unmarked(after),
    ensures
        markdown::inline(before + seq!['*'] + text + seq!['*'] + after, base) == drawn(before, base) + drawn(
            text,
            Style { italic: true, ..base },
        ) + drawn(after, base),
{
    let mark = seq!['*'];
    let none = no_marks();
    let marks = Marks { emphasis: true, ..none };
    let s1 = mark + text + mark + after;
    let s2 = text + (mark + after);
    let s3 = mark + after;
    assert(marked_style(base, none, false) == base);
    assert(before + mark + text + mark + after =~= before + s1);
    lemma_begins(before, s1, Seq::empty(), none, base);
    let d1 = markdown::flushed(Seq::empty(), before, base);
    lemma_flushes(Seq::empty(), before, base);
    assert(d1 =~= drawn(before, base));
    assert(s1[0] == '*');
    assert(s1[1] == text[0]);
    assert(s1.skip(1) =~= s2);
    assert(inline_rest(s1, Seq::empty(), before, none, base) == inline_rest(
        s2,
        d1,
        Seq::empty(),
        marks,
        base,
    ));
    lemma_begins(text, s3, d1, marks, base);
    let style = Style { italic: true, ..base };
    assert(marked_style(base, marks, false) == style);
    let d2 = markdown::flushed(d1, text, style);
    lemma_flushes(d1, text, style);
    assert(s3[0] == '*');
    if s3.len() > 1 {
        assert(s3[1] == after[0]);
    }
    assert(s3.skip(1) =~= after);
    assert(inline_rest(s3, d1, text, marks, base) == inline_rest(after, d2, Seq::empty(), none, base));
    lemma_ends(after, d2, none, base);
}

/// Text between two backticks is drawn as code, whatever other marks it holds: they show.
pub proof fn law_code_is_drawn_as_it_is(
    before: Seq<char>,
    text: Seq<char>,
    after: Seq<char>,
    base: Style,
)
    requires
        is_unmarked(before),
        forall|i: int| 0 <= i < text.len() ==> #[trigger] text[i] != '`',
        is_unmarked(after),
    ensures
        markdown::inline(before + seq!['`'] + text + seq!['`'] + after, base) == drawn(before, base) + drawn(
            text,
            Style { fg: Some(Tone::Accent2), bg: Some(Tone::PanelAlt), ..base },
        ) + drawn(after, base),
{
    let mark = seq!['`'];
    let none = no_marks();
    let marks = Marks { code: true, ..none };
    let s1 = mark + text + mark + after;
    let s2 = text + (mark + after);
    let s3 = mark + after;
    assert(marked_style(base, none, false) == base);
    assert(before + mark + text + mark + after =~= before + s1);
    lemma_begins(before, s1, Seq::empty(), none, base);
    let d1 = markdown::flushed(Seq::empty(), before, base);
    lemma_flushes(Seq::empty(), before, base);
    assert(d1 =~= drawn(before, base));
    assert(s1[0] == '`');
    assert(s1.skip(1) =~= s2);
    assert(inline_rest(s1, Seq::empty(), before, none, base) == inline_rest(
        s2,
        d1,
        Seq::empty(),
        marks,
        base,
    ));
    lemma_begins(text, s3, d1, marks, base);
    let style = Style { fg: Some(Tone::Accent2), bg: Some(Tone::PanelAlt), ..base };
    assert(marked_style(base, marks, false) == style);
    let d2 = markdown::flushed(d1, text, style);
    lemma_flushes(d1, text, style);
    assert(s3[0] == '`');
    assert(s3.skip(1) =~= after);
    assert(inline_rest(s3, d1, text, marks, base) == inline_rest(after, d2, Seq::empty(), none, base));
    lemma_ends(after, d2, none, base);
}

/// What a link is written as.
pub open spec fn link_of(label: Seq<char>, url: Seq<char>) -> Seq<char> {
    seq!['['] + label + seq![']', '('] + url + seq![')']
}

proof fn lemma_link_is_read(label: Seq<char>, url: Seq<char>, rest: Seq<char>)
    requires
        forall|i: int| 0 <= i < label.len() ==> #[trigger] label[i] != ']',
        forall|i: int| 0 <= i < url.len() ==> #[trigger] url[i] != ')',
    ensures
        link_split(link_of(label, url) + rest) == Some(
            (label, url, link_of(label, url).len() as int),
        ),
{
    let s = link_of(label, url) + rest;
    let t = s.drop_first();
    let n = label.len() as int;
    assert(s[0] == '[');
    assert forall|j: int| 0 <= j < n implies !occurs_at(t, one(']'), j) by {
        assert(t[j] == label[j]);
        if occurs_at(t, one(']'), j) {
            assert(t.subrange(j, j + 1)[0] == one(']')[0]);
        }
    }
    assert(t[n] == ']');
    assert(t.subrange(n, n + 1) =~= one(']'));
    lemma_find_at(t, one(']'), n);
    let after = s.skip(n + 2);
    assert(after[0] == '(');
    let u = after.drop_first();
    let m = url.len() as int;
    assert(u =~= url + seq![')'] + rest);
    assert forall|j: int| 0 <= j < m implies !occurs_at(u, one(')'), j) by {
        assert(u[j] == url[j]);
        if occurs_at(u, one(')'), j) {
            assert(u.subrange(j, j + 1)[0] == one(')')[0]);
        }
    }
    assert(u[m] == ')');
    assert(u.subrange(m, m + 1) =~= one(')'));
    lemma_find_at(u, one(')'), m);
    assert(s.subrange(1, n + 1) =~= label);
    assert(after.subrange(1, m + 1) =~= url);
}

/// A link is drawn by its label, bold and underlined, with its address in brackets behind it where
/// there is one.
pub proof fn law_link_is_drawn(
    before: Seq<char>,
    label: Seq<char>,
    url: Seq<char>,
    after: Seq<char>,
    base: Style,
)
    requires
        is_unmarked(before),
        forall|i: int| 0 <= i < label.len() ==> #[trigger] label[i] != ']',
        forall|i: int| 0 <= i < url.len() ==> #[trigger] url[i] != ')',
        is_unmarked(after),
    ensures
        markdown::inline(before + link_of(label, url) + after, base) == drawn(before, base) + seq![
            SpanView {
                text: label,
                style: Style { fg: Some(Tone::Accent), bold: true, underlined: true, ..base },
            },
        ] + (if url.len() == 0 {
            Seq::empty()
        } else {
            drawn(" ("@ + url + ")"@, coloured(Tone::Muted))
        }) + drawn(after, base),
{
    reveal_strlit(" (");
    let none = no_marks();
    let s1 = link_of(label, url) + after;
    assert(marked_style(base, none, false) == base);
    assert(before + link_of(label, url) + after =~= before + s1);
    lemma_begins(before, s1, Seq::empty(), none, base);
    let d1 = markdown::flushed(Seq::empty(), before, base);
    lemma_flushes(Seq::empty(), before, base);
    assert(d1 =~= drawn(before, base));
    lemma_link_is_read(label, url, after);
    let style = Style { fg: Some(Tone::Accent), bold: true, underlined: true, ..base };
    assert(marked_style(base, none, true) == style);
    let d2 = markdown::with_link(d1, label, url, style);
    assert(s1.skip(link_of(label, url).len() as int) =~= after);
    assert(inline_rest(s1, Seq::empty(), before, none, base) == inline_rest(
        after,
        d2,
        Seq::empty(),
        none,
        base,
    ));
    lemma_ends(after, d2, none, base);
    let tail = if url.len() == 0 {
        Seq::empty()
    } else {
        drawn(" ("@ + url + ")"@, coloured(Tone::Muted))
    };
    assert(d2 =~= d1 + seq![SpanView { text: label, style }] + tail);
}

// ---------------------------------------------------------------------------
// Lines
// ---------------------------------------------------------------------------

proof fn lemma_compacted_keeps_first(s: Seq<char>)
    requires
        s.len() > 0,
        !space(s[0]),
    ensures
        compacted(s).len() > 0,
        compacted(s)[0] == s[0],
    decreases s.len(),
{
    if s.len() > 1 {
        assert(s.drop_last()[0] == s[0]);
        lemma_compacted_keeps_first(s.drop_last());
    } else {
        assert(s.drop_last() =~= Seq::empty());
        assert(compacted(s.drop_last()) =~= Seq::empty());
    }
}

proof fn lemma_compacted_holds(s: Seq<char>, i: int)
    requires
        0 <= i < s.len(),
        !space(s[i]),
    ensures
        exists|k: int| 0 <= k < compacted(s).len() && #[trigger] compacted(s)[k] == s[i],
    decreases s.len(),
{
    if i == s.len() - 1 {
        assert(compacted(s)[compacted(s).len() - 1] == s[i]);
    } else {
        assert(s.drop_last()[i] == s[i]);
        lemma_compacted_holds(s.drop_last(), i);
        let k = choose|k: int|
            0 <= k < compacted(s.drop_last()).len() && #[trigger] compacted(s.drop_last())[k] == s[i];
        assert(compacted(s)[k] == s[i]);
    }
}

proof fn lemma_compacted_comes_from(s: Seq<char>, k: int)
    requires
        0 <= k < compacted(s).len(),
    ensures
        exists|i: int| 0 <= i < s.len() && #[trigger] s[i] == compacted(s)[k] && !space(s[i]),
    decreases s.len(),
{
    if space(s.last()) || k < compacted(s).len() - 1 {
        lemma_compacted_comes_from(s.drop_last(), k);
        let i = choose|i: int|
            0 <= i < s.drop_last().len() && #[trigger] s.drop_last()[i] == compacted(s.drop_last())[k]
                && !space(s.drop_last()[i]);
        assert(s[i] == compacted(s)[k]);
    } else {
        assert(s[s.len() - 1] == compacted(s)[k]);
    }
}

/// A text that holds anything but spaces and one of `-`, `*` and `_` is no rule.
pub proof fn law_text_is_no_rule(s: Seq<char>, i: int, j: int)
    requires
        0 <= i < s.len(),
        0 <= j < s.len(),
        !space(s[i]),
        !space(s[j]),
        s[i] != s[j] || (s[i] != '-' && s[i] != '*' && s[i] != '_'),
    ensures
        !is_rule(s),
{
    lemma_compacted_holds(s, i);
    lemma_compacted_holds(s, j);
    let c = compacted(s);
    let k = choose|k: int| 0 <= k < c.len() && #[trigger] c[k] == s[i];
    let l = choose|l: int| 0 <= l < c.len() && #[trigger] c[l] == s[j];
    assert(c[k] == s[i] && c[l] == s[j]);
}

proof fn lemma_repeated(c: char, n: nat)
    ensures
        repeated(c, n).len() == n,
        forall|i: int| 0 <= i < n ==> #[trigger] repeated(c, n)[i] == c,
{
}

proof fn lemma_nothing_to_compact(s: Seq<char>)
    requires
        forall|i: int| 0 <= i < s.len() ==> !space(#[trigger] s[i]),
    ensures
        compacted(s) == s,
    decreases s.len(),
{
    if s.len() > 0 {
        let front = s.drop_last();
        assert forall|i: int| 0 <= i < front.len() implies !space(#[trigger] front[i]) by {
            assert(front[i] == s[i]);
        }
        lemma_nothing_to_compact(front);
        assert(!space(s[s.len() - 1]));
        assert(front.push(s.last()) =~= s);
    }
}

/// Three or more of `-`, `*` or `_` are a rule, and are drawn as one; fewer are none.
pub proof fn law_rules_are_drawn(front: LineView, c: char, n: nat, base: Style)
    requires
        c == '-' || c == '*' || c == '_',
    ensures
        is_rule(repeated(c, n)) <==> n >= 3,
        n >= 3 ==> text_line(front, repeated(c, n), base) == front + drawn(
            "--------------------"@,
            coloured(Tone::Muted),
        ),
{
    reveal_strlit("--------------------");
    let s = repeated(c, n);
    lemma_repeated(c, n);
    assert forall|i: int| 0 <= i < s.len() implies !space(#[trigger] s[i]) by {
        assert(s[i] == c);
    }
    lemma_nothing_to_compact(s);
    if n >= 3 {
        assert(s[0] == c);
        assert(front.push(
            SpanView { text: "--------------------"@, style: coloured(Tone::Muted) },
        ) =~= front + drawn("--------------------"@, coloured(Tone::Muted)));
    }
}

proof fn lemma_no_heading(s: Seq<char>)
    requires
        s.len() > 0,
        s[0] != '#',
    ensures
        heading_split(s) is None,
{
    assert(hashes(s, 6) == 0);
}

proof fn lemma_no_number(s: Seq<char>)
    requires
        s.len() > 0,
        !is_digit(s[0]),
    ensures
        number_split(s) is None,
{
    assert(leading_digits(s) == 0);
}

/// No mark of a rule, a heading or a list item stands in front of a text.
pub open spec fn is_plain_line(s: Seq<char>) -> bool {
    &&& s.len() > 0
    &&& !space(s[0])
    &&& s[0] != '#'
    &&& s[0] != '-'
    &&& s[0] != '*'
    &&& s[0] != '_'
    &&& s[0] != '+'
    &&& !is_digit(s[0])
}

proof fn lemma_plain_line(s: Seq<char>)
    requires
        is_plain_line(s),
    ensures
        !is_rule(s),
        heading_split(s) is None,
        number_split(s) is None,
        bullet_split(s) is None,
{
    lemma_no_heading(s);
    lemma_no_number(s);
    lemma_compacted_keeps_first(s);
    reveal_strlit("- ");
    reveal_strlit("* ");
    reveal_strlit("+ ");
    if starts(s, "- "@) {
        assert(s.take(2)[0] == "- "@[0]);
    }
    if starts(s, "* "@) {
        assert(s.take(2)[0] == "* "@[0]);
    }
    if starts(s, "+ "@) {
        assert(s.take(2)[0] == "+ "@[0]);
    }
}

/// A plain line is drawn behind what stands in front of it, with its marks read as styles.
pub proof fn law_plain_lines_are_drawn(front: LineView, text: Seq<char>, base: Style)
    requires
        is_plain_line(text),
    ensures
        text_line(front, text, base) == front + markdown::inline(text, base),
        is_unmarked(text) ==> text_line(front, text, base) == front + drawn(text, base),
{
    lemma_plain_line(text);
    if is_unmarked(text) {
        law_unmarked_text_is_drawn(text, base);
    }
}

/// A list item without a number is drawn as `- ` with its text behind it, and the text as it is drawn
/// by itself: its marks are read as styles and do not show. A rule is no list item.
pub proof fn law_list_items_are_drawn(
    front: LineView,
    mark: char,
    text: Seq<char>,
    base: Style,
)
    requires
        mark == '-' || mark == '*' || mark == '+',
        !is_rule(seq![mark, ' '] + text),
    ensures
        text_line(front, seq![mark, ' '] + text, base) == front + drawn(
            "- "@,
            bold_coloured(Tone::Accent),
        ) + markdown::inline(text, base),
        is_plain_line(text) ==> text_line(front, seq![mark, ' '] + text, base).skip(front.len() as int + 1)
            == text_line(Seq::empty(), text, base),
        is_plain_line(text) && is_unmarked(text) ==> text_line(front, seq![mark, ' '] + text, base)
            == front + drawn("- "@, bold_coloured(Tone::Accent)) + drawn(text, base),
{
    let s = seq![mark, ' '] + text;
    assert(s[0] == mark);
    lemma_no_heading(s);
    lemma_no_number(s);
    reveal_strlit("- ");
    reveal_strlit("* ");
    reveal_strlit("+ ");
    assert(s.take(2) =~= seq![mark, ' ']);
    assert("- "@ =~= seq!['-', ' ']);
    assert("* "@ =~= seq!['*', ' ']);
    assert("+ "@ =~= seq!['+', ' ']);
    assert(s.skip(2) =~= text);
    if starts(s, "- "@) {
        assert(s.take(2)[0] == '-');
    }
    if starts(s, "* "@) {
        assert(s.take(2)[0] == '*');
    }
    assert(bullet_split(s) == Some(text));
    let head = SpanView { text: "- "@, style: bold_coloured(Tone::Accent) };
    assert(front.push(head) =~= front + drawn("- "@, bold_coloured(Tone::Accent)));
    if is_plain_line(text) {
        lemma_plain_line(text);
        assert(text_line(Seq::empty(), text, base) =~= markdown::inline(text, base));
        assert((front.push(head) + markdown::inline(text, base)).skip(front.len() as int + 1) =~= markdown::inline(
            text,
            base,
        ));
        if is_unmarked(text) {
            law_unmarked_text_is_drawn(text, base);
        }
    }
}

/// In a list item, bold text is bold, and its marks do not show.
pub proof fn law_marks_are_read_in_list_items(
    front: LineView,
    mark: char,
    before: Seq<char>,
    text: Seq<char>,
    after: Seq<char>,
    base: Style,
)
    requires
        mark == '-' || mark == '*' || mark == '+',
        is_plain_line(before),
        is_unmarked(before),
        is_unmarked(text),
        is_unmarked(after),
    ensures
        text_line(
            front,
            seq![mark, ' '] + (before + seq!['*', '*'] + text + seq!['*', '*'] + after),
            base,
        ) == front + drawn("- "@, bold_coloured(Tone::Accent)) + (drawn(before, base) + drawn(
            text,
            Style { bold: true, ..base },
        ) + drawn(after, base)),
{
    let body = before + seq!['*', '*'] + text + seq!['*', '*'] + after;
    let s = seq![mark, ' '] + body;
    assert(s[0] == mark);
    assert(s[2] == before[0]);
    law_text_is_no_rule(s, 2, 2);
    law_list_items_are_drawn(front, mark, body, base);
    law_strong_text_is_bold(before, text, after, base);
}

proof fn lemma_digits_lead(digits: Seq<char>, rest: Seq<char>)
    requires
        forall|i: int| 0 <= i < digits.len() ==> is_digit(#[trigger] digits[i]),
        rest.len() > 0,
        !is_digit(rest[0]),
    ensures
        leading_digits(digits + rest) == digits.len(),
    decreases digits.len(),
{
    let s = digits + rest;
    if digits.len() == 0 {
        assert(s =~= rest);
    } else {
        let tail = digits.drop_first();
        assert forall|i: int| 0 <= i < tail.len() implies is_digit(#[trigger] tail[i]) by {
            assert(tail[i] == digits[i + 1]);
        }
        lemma_digits_lead(tail, rest);
        assert(s.drop_first() =~= tail + rest);
        assert(is_digit(digits[0]));
        assert(s[0] == digits[0]);
    }
}

/// A list item with a number keeps it, and its text is drawn behind it as it is drawn by itself.
pub proof fn law_numbered_items_are_drawn(
    front: LineView,
    digits: Seq<char>,
    text: Seq<char>,
    base: Style,
)
    requires
        digits.len() > 0,
        forall|i: int| 0 <= i < digits.len() ==> is_digit(#[trigger] digits[i]),
    ensures
        text_line(front, digits + seq!['.', ' '] + text, base) == front + drawn(
            digits + seq!['.', ' '],
            bold_coloured(Tone::Accent),
        ) + markdown::inline(text, base),
{
    let rest = seq!['.', ' '] + text;
    let s = digits + rest;
    assert(digits + seq!['.', ' '] + text =~= s);
    lemma_digits_lead(digits, rest);
    assert(is_digit(digits[0]));
    assert(s[0] == digits[0]);
    lemma_no_heading(s);
    lemma_compacted_keeps_first(s);
    reveal_strlit(". ");
    reveal_strlit(".");
    reveal_strlit(" ");
    assert(". "@ =~= seq!['.', ' ']);
    let n = digits.len() as int;
    assert(s.skip(n) =~= rest);
    assert(rest.take(2) =~= ". "@);
    assert(s.take(n) =~= digits);
    assert(s.skip(n + 2) =~= text);
    assert(digits + "."@ + " "@ =~= digits + seq!['.', ' ']);
    let head = SpanView { text: digits + seq!['.', ' '], style: bold_coloured(Tone::Accent) };
    assert(front.push(head) =~= front + drawn(
        digits + seq!['.', ' '],
        bold_coloured(Tone::Accent),
    ));
}

proof fn lemma_hashes_lead(n: nat, max: nat, rest: Seq<char>)
    requires
        n <= max,
        rest.len() > 0,
        rest[0] != '#',
    ensures
        hashes(repeated('#', n) + rest, max) == n,
    decreases n,
{
    let s = repeated('#', n) + rest;
    lemma_repeated('#', n);
    if n == 0 {
        assert(s =~= rest);
    } else {
        let fewer = (n - 1) as nat;
        lemma_repeated('#', fewer);
        assert(s[0] == repeated('#', n)[0]);
        assert(s.drop_first() =~= repeated('#', fewer) + rest);
        lemma_hashes_lead(fewer, (max - 1) as nat, rest);
    }
}

/// A heading keeps its marks, and is bold with all its text; its marks are read as styles.
pub proof fn law_headings_are_drawn(front: LineView, level: nat, text: Seq<char>, base: Style)
    requires
        1 <= level <= 6,
    ensures
        text_line(front, repeated('#', level) + seq![' '] + text, base) == front + drawn(
            repeated('#', level) + seq![' '],
            bold_coloured(Tone::Warning),
        ) + markdown::inline(text, bold_coloured(Tone::Warning)),
{
    let rest = seq![' '] + text;
    let s = repeated('#', level) + rest;
    assert(repeated('#', level) + seq![' '] + text =~= s);
    lemma_repeated('#', level);
    lemma_hashes_lead(level, 6, rest);
    assert(s[0] == repeated('#', level)[0]);
    lemma_compacted_keeps_first(s);
    assert(s[level as int] == ' ');
    assert(s.skip(level as int + 1) =~= text);
    reveal_strlit(" ");
    assert(repeated('#', level) + " "@ =~= repeated('#', level) + seq![' ']);
    let head = SpanView {
        text: repeated('#', level) + seq![' '],
        style: bold_coloured(Tone::Warning),
    };
    assert(front.push(head) =~= front + drawn(
        repeated('#', level) + seq![' '],
        bold_coloured(Tone::Warning),
    ));
}

/// What stands in front of a line changes nothing behind it.
pub proof fn law_front_is_kept(front: LineView, text: Seq<char>, base: Style)
    ensures
        text_line(front, text, base) == front + text_line(Seq::empty(), text, base),
{
    let e = Seq::<SpanView>::empty();
    let line = text_line(e, text, base);
    assert(text_line(front, text, base) =~= front + line);
}

// ---------------------------------------------------------------------------
// Blocks
// ---------------------------------------------------------------------------

proof fn lemma_quotes(n: nat, text: Seq<char>)
    requires
        text.len() > 0,
        !space(text[0]),
        text[0] != '>',
    ensures
        quote_split(repeated('>', n) + seq![' '] + text) == (n, text),
    decreases n,
{
    let s = repeated('>', n) + seq![' '] + text;
    lemma_repeated('>', n);
    assert(trimmed_start(text) == text);
    if n == 0 {
        assert(s[0] == ' ');
        assert(s.drop_first() =~= text);
        assert(trimmed_start(s) == text);
    } else {
        let fewer = (n - 1) as nat;
        lemma_repeated('>', fewer);
        assert(s[0] == repeated('>', n)[0]);
        assert(trimmed_start(s) == s);
        assert(s.drop_first() =~= repeated('>', fewer) + seq![' '] + text);
        lemma_quotes(fewer, text);
    }
}

/// A line of a blockquote is drawn with its marks in front, and its text as it is drawn outside of
/// one.
pub proof fn law_quotes_are_drawn(state: BlockState, depth: nat, text: Seq<char>, base: Style)
    requires
        !state.in_code,
        depth > 0,
        text.len() > 0,
        !space(text[0]),
        text[0] != '>',
        text[0] != '`',
    ensures
        block_step(state, repeated('>', depth) + seq![' '] + text, base).lines == state.lines.push(
            drawn(repeated('>', depth) + seq![' '], coloured(Tone::Muted)) + text_line(
                Seq::empty(),
                text,
                base,
            ),
        ),
        block_step(state, text, base).lines == state.lines.push(text_line(Seq::empty(), text, base)),
        !block_step(state, repeated('>', depth) + seq![' '] + text, base).in_code,
        !block_step(state, text, base).in_code,
{
    let s = repeated('>', depth) + seq![' '] + text;
    lemma_repeated('>', depth);
    assert(s[0] == repeated('>', depth)[0]);
    assert(trimmed_start(s) == s);
    lemma_quotes(depth, text);
    reveal_strlit(" ");
    assert(repeated('>', depth) + " "@ =~= repeated('>', depth) + seq![' ']);
    let front = drawn(repeated('>', depth) + seq![' '], coloured(Tone::Muted));
    assert(Seq::<SpanView>::empty().push(front[0]) =~= front);
    law_front_is_kept(front, text, base);
    assert(trimmed_start(text) == text);
    assert(quote_split(text) == (0nat, text));
}

/// In a code block every line is drawn as it stands, behind a bar: nothing in it is read as a mark.
pub proof fn law_code_lines_are_drawn(state: BlockState, raw: Seq<char>, base: Style)
    requires
        state.in_code,
        trimmed_start(raw).len() == 0 || trimmed_start(raw)[0] != '`',
    ensures
        block_step(state, raw, base).lines == state.lines.push(
            seq![
                SpanView { text: "│ "@, style: coloured(Tone::Muted) },
                SpanView {
                    text: raw,
                    style: Style { bg: Some(Tone::PanelAlt), ..coloured(Tone::Accent2) },
                },
            ],
        ),
        block_step(state, raw, base).in_code,
{
    let line = seq![
        SpanView { text: "│ "@, style: coloured(Tone::Muted) },
        SpanView { text: raw, style: Style { bg: Some(Tone::PanelAlt), ..coloured(Tone::Accent2) } },
    ];
    assert(block_step(state, raw, base).lines =~= state.lines.push(line)) by {
        assert(block_step(state, raw, base).lines.last() =~= line);
    }
}

/// A fence opens a code block and closes it. Where it opens one, the language that it names is shown;
/// the fence itself never is.
pub proof fn law_fences_open_and_close(state: BlockState, language: Seq<char>, base: Style)
    requires
        language.len() > 0 ==> language[0] != '`',
    ensures
        block_step(state, seq!['`', '`', '`'] + language, base).in_code == !state.in_code,
        state.in_code || trimmed(language).len() == 0 ==> block_step(
            state,
            seq!['`', '`', '`'] + language,
            base,
        ).lines == state.lines,
        !state.in_code && trimmed(language).len() > 0 ==> block_step(
            state,
            seq!['`', '`', '`'] + language,
            base,
        ).lines == state.lines.push(
            seq![
                SpanView {
                    text: "[code: "@ + trimmed(language) + "]"@,
                    style: Style { italic: true, ..coloured(Tone::Muted) },
                },
            ],
        ),
{
    let s = seq!['`', '`', '`'] + language;
    assert(s[0] == '`');
    assert(trimmed_start(s) == s);
    assert(s.skip(3) =~= language);
    assert(without_fences(language) == language);
    assert(without_fences(s) == language);
    if !state.in_code && trimmed(language).len() > 0 {
        let line = seq![
            SpanView {
                text: "[code: "@ + trimmed(language) + "]"@,
                style: Style { italic: true, ..coloured(Tone::Muted) },
            },
        ];
        assert(block_step(state, s, base).lines.last() =~= line);
        assert(block_step(state, s, base).lines =~= state.lines.push(line));
    }
}

/// A line of spaces stays an empty line.
pub proof fn law_blank_lines_stay(state: BlockState, raw: Seq<char>, base: Style)
    requires
        !state.in_code,
        trimmed_start(raw).len() == 0,
    ensures
        block_step(state, raw, base).lines == state.lines.push(Seq::empty()),
        !block_step(state, raw, base).in_code,
{
}

/// Lines are drawn one behind the other: what was drawn before stays, and every line but a fence draws
/// one more.
pub proof fn law_lines_are_drawn_in_order(lines: Seq<Seq<char>>, raw: Seq<char>, base: Style)
    ensures
        block_after(Seq::empty(), base).lines.len() == 0,
        !block_after(Seq::empty(), base).in_code,
        block_after(lines.push(raw), base) == block_step(block_after(lines, base), raw, base),
        block_after(lines.push(raw), base).lines.take(block_after(lines, base).lines.len() as int)
            == block_after(lines, base).lines,
        trimmed_start(raw).len() == 0 || trimmed_start(raw)[0] != '`' ==> block_after(
            lines.push(raw),
            base,
        ).lines.len() == block_after(lines, base).lines.len() + 1,
{
    assert(lines.push(raw).drop_last() =~= lines);
    assert(lines.push(raw).last() == raw);
    let before = block_after(lines, base).lines;
    assert(block_after(lines.push(raw), base).lines.take(before.len() as int) =~= before);
}

/// Markdown is drawn line by line; nothing is drawn for nothing.
pub proof fn law_markdown_is_drawn(content: Seq<char>, base: Style)
    ensures
        content.len() == 0 ==> block_lines(content, base).len() == 0,
        content.len() > 0 ==> block_lines(content, base) == block_after(pieces(content, '\n'), base).lines,
{
}

/// Marks add up: each sets its own part of the style and leaves the others as they are. Code has its
/// own colours, and a link its own colour where it is no code.
pub proof fn law_marks_add_up(base: Style, marks: Marks, link: bool)
    ensures
        marked_style(base, marks, link).bold == (base.bold || marks.strong || link),
        marked_style(base, marks, link).italic == (base.italic || marks.emphasis),
        marked_style(base, marks, link).crossed_out == (base.crossed_out || marks.strike),
        marked_style(base, marks, link).underlined == (base.underlined || link),
        marks.code ==> marked_style(base, marks, link).fg == Some(Tone::Accent2) && marked_style(
            base,
            marks,
            link,
        ).bg == Some(Tone::PanelAlt),
        !marks.code && link ==> marked_style(base, marks, link).fg == Some(Tone::Accent),
        !marks.code && !link ==> marked_style(base, marks, link).fg == base.fg,
        !marks.code ==> marked_style(base, marks, link).bg == base.bg,
{
}

/// A mark ends what was read so far, in its style, and changes its own part of the style from there
/// on, whatever other marks are open; within code only the mark of code counts.
pub proof fn law_marks_open_and_close(
    rest: Seq<char>,
    spans: LineView,
    before: Seq<char>,
    marks: Marks,
    base: Style,
)
    ensures
        !marks.code ==> inline_rest(seq!['*', '*'] + rest, spans, before, marks, base) == inline_rest(
            rest,
            spans + drawn(before, marked_style(base, marks, false)),
            Seq::empty(),
            Marks { strong: !marks.strong, ..marks },
            base,
        ),
        !marks.code ==> inline_rest(seq!['~', '~'] + rest, spans, before, marks, base) == inline_rest(
            rest,
            spans + drawn(before, marked_style(base, marks, false)),
            Seq::empty(),
            Marks { strike: !marks.strike, ..marks },
            base,
        ),
        !marks.code && (rest.len() == 0 || rest[0] != '*') ==> inline_rest(
            seq!['*'] + rest,
            spans,
            before,
            marks,
            base,
        ) == inline_rest(
            rest,
            spans + drawn(before, marked_style(base, marks, false)),
            Seq::empty(),
            Marks { emphasis: !marks.emphasis, ..marks },
            base,
        ),
        inline_rest(seq!['`'] + rest, spans, before, marks, base) == inline_rest(
            rest,
            spans + drawn(before, marked_style(base, marks, false)),
            Seq::empty(),
            Marks { code: !marks.code, ..marks },
            base,
        ),
        marks.code ==> inline_rest(seq!['*'] + rest, spans, before, marks, base) == inline_rest(
            rest,
            spans,
            before.push('*'),
            marks,
            base,
        ),
{
    lemma_flushes(spans, before, marked_style(base, marks, false));
    let a = seq!['*', '*'] + rest;
    assert(a[0] == '*' && a[1] == '*');
    assert(a.skip(2) =~= rest);
    let b = seq!['~', '~'] + rest;
    assert(b[0] == '~' && b[1] == '~');
    assert(b.skip(2) =~= rest);
    let c = seq!['*'] + rest;
    assert(c[0] == '*');
    if rest.len() > 0 {
        assert(c[1] == rest[0]);
    }
    assert(c.skip(1) =~= rest);
    let d = seq!['`'] + rest;
    assert(d[0] == '`');
    assert(d.skip(1) =~= rest);
}

} // verus!
