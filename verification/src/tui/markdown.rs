//! Markdown as styled lines.

use vstd::prelude::*;

use crate::lines::{pieces, repeat, repeated, split_on};
use crate::search::{find, find_from, lemma_find, one, starts, strip_prefix};
use crate::text::{
    cat2, cat3, chars_of, is_space, space, string_of, string_range, trim, trim_start, trimmed,
    trimmed_start, views,
};
use crate::tui::style::{
    add_line, bold_ink, ink, ink_on, line_views, new_lines, no_lines, no_spans, plain, span, Line,
    LineView, Style, Tone,
};

verus! {

/// A text without the marks of a blockquote in front, and how many there were.
pub open spec fn quote_split(s: Seq<char>) -> (nat, Seq<char>)
    decreases trimmed_start(s).len(),
    via quote_split_goes_on
{
    let t = trimmed_start(s);
    if t.len() > 0 && t[0] == '>' {
        let rest = quote_split(t.drop_first());
        (rest.0 + 1, rest.1)
    } else {
        (0, t)
    }
}

#[via_fn]
proof fn quote_split_goes_on(s: Seq<char>) {
    lemma_trimmed_start_shrinks(trimmed_start(s).drop_first());
}

proof fn lemma_trimmed_start_shrinks(s: Seq<char>)
    ensures
        trimmed_start(s).len() <= s.len(),
    decreases s.len(),
{
    if s.len() > 0 && space(s[0]) {
        lemma_trimmed_start_shrinks(s.drop_first());
    }
}

/// Splits the marks of a blockquote off the front of a text.
pub fn split_blockquote_prefix(input: &str) -> (r: (usize, &str))
    ensures
        (r.0 as nat, r.1@) == quote_split(input@),
{
    let mut depth: usize = 0;
    let mut rest: &str = trim_start(input);
    let total: usize = input.unicode_len();
    proof {
        lemma_trimmed_start_shrinks(input@);
        lemma_trimmed_start_twice(input@);
    }
    loop
        invariant
            depth + rest@.len() <= total == input@.len(),
            trimmed_start(rest@) == rest@,
            quote_split(input@).0 == depth + quote_split(rest@).0,
            quote_split(input@).1 == quote_split(rest@).1,
        ensures
            (depth as nat, rest@) == quote_split(input@),
        decreases rest@.len(),
    {
        proof {
            lemma_starts_with_one(rest@, '>');
        }
        match strip_prefix(rest, ">") {
            Some(next) => {
                proof {
                    reveal_strlit(">");
                    assert(next@ =~= rest@.drop_first());
                    lemma_trimmed_start_shrinks(next@);
                    lemma_trimmed_start_twice(next@);
                    lemma_quote_of_trimmed(next@);
                }
                depth += 1;
                rest = trim_start(next);
            },
            None => {
                break ;
            },
        }
    }
    (depth, rest)
}

proof fn lemma_trimmed_start_twice(s: Seq<char>)
    ensures
        trimmed_start(trimmed_start(s)) == trimmed_start(s),
    decreases s.len(),
{
    if s.len() > 0 && space(s[0]) {
        lemma_trimmed_start_twice(s.drop_first());
    }
}

proof fn lemma_quote_of_trimmed(s: Seq<char>)
    ensures
        quote_split(trimmed_start(s)) == quote_split(s),
{
    lemma_trimmed_start_twice(s);
}

proof fn lemma_starts_with_one(s: Seq<char>, c: char)
    ensures
        c == '>' ==> (starts(s, ">"@) <==> s.len() > 0 && s[0] == '>'),
{
    reveal_strlit(">");
    if s.len() > 0 {
        assert(s.take(1) =~= seq![s[0]]);
        assert(">"@ =~= seq!['>']);
        if s[0] == '>' {
            assert(s.take(1) =~= ">"@);
        }
        if starts(s, ">"@) {
            assert(s.take(1)[0] == ">"@[0]);
        }
    }
}

/// How many `#` stand in front of a text, counted up to `max`.
pub open spec fn hashes(s: Seq<char>, max: nat) -> nat
    decreases max,
{
    if max > 0 && s.len() > 0 && s[0] == '#' {
        1 + hashes(s.drop_first(), (max - 1) as nat)
    } else {
        0
    }
}

/// The level and the text of a heading: one to six `#` and a space stand in front of it.
pub open spec fn heading_split(s: Seq<char>) -> Option<(nat, Seq<char>)> {
    let level = hashes(s, 6);
    if level > 0 && level < s.len() && s[level as int] == ' ' {
        Some((level, s.skip(level as int + 1)))
    } else {
        None
    }
}

/// Splits the mark of a heading off the front of a text.
pub fn split_heading_marker(input: &str) -> (r: Option<(usize, &str)>)
    ensures
        match (r, heading_split(input@)) {
            (Some(got), Some(want)) => got.0 == want.0 && got.1@ == want.1,
            (None, None) => true,
            _ => false,
        },
{
    let chars: Vec<char> = chars_of(input);
    let mut level: usize = 0;
    assert(input@.skip(0) =~= input@);
    while level < chars.len() && chars[level] == '#' && level < 6
        invariant
            chars@ == input@,
            level <= chars@.len(),
            level <= 6,
            hashes(input@, 6) == level + hashes(input@.skip(level as int), (6 - level) as nat),
        decreases 6 - level,
    {
        assert(input@.skip(level as int).drop_first() =~= input@.skip(level + 1));
        level += 1;
    }
    if level == 0 || level >= chars.len() || chars[level] != ' ' {
        return None;
    }
    let text: &str = input.substring_char(level + 1, chars.len());
    assert(text@ =~= input@.skip(level + 1));
    Some((level, text))
}

/// The text of a list item without a number.
pub open spec fn bullet_split(s: Seq<char>) -> Option<Seq<char>> {
    if starts(s, "- "@) {
        Some(s.skip("- "@.len() as int))
    } else if starts(s, "* "@) {
        Some(s.skip("* "@.len() as int))
    } else if starts(s, "+ "@) {
        Some(s.skip("+ "@.len() as int))
    } else {
        None
    }
}

/// Splits the mark of a list item off the front of a text.
pub fn split_unordered_list_marker(input: &str) -> (r: Option<&str>)
    ensures
        crate::text::opt_str_view(r) == bullet_split(input@),
{
    match strip_prefix(input, "- ") {
        Some(text) => return Some(text),
        None => {},
    }
    match strip_prefix(input, "* ") {
        Some(text) => return Some(text),
        None => {},
    }
    strip_prefix(input, "+ ")
}

/// How many digits stand in front of a text.
pub open spec fn leading_digits(s: Seq<char>) -> nat
    decreases s.len(),
{
    if s.len() > 0 && crate::number::is_digit(s[0]) {
        1 + leading_digits(s.drop_first())
    } else {
        0
    }
}

/// The number, with its dot, and the text of a list item that has one.
pub open spec fn number_split(s: Seq<char>) -> Option<(Seq<char>, Seq<char>)> {
    let n = leading_digits(s);
    if n > 0 && starts(s.skip(n as int), ". "@) {
        Some((s.take(n as int) + "."@, s.skip(n as int + 2)))
    } else {
        None
    }
}

/// Splits the number of a list item off the front of a text.
pub fn split_ordered_list_marker(input: &str) -> (r: Option<(String, &str)>)
    ensures
        match (r, number_split(input@)) {
            (Some(got), Some(want)) => got.0@ == want.0 && got.1@ == want.1,
            (None, None) => true,
            _ => false,
        },
{
    let chars: Vec<char> = chars_of(input);
    let mut n: usize = 0;
    assert(input@.skip(0) =~= input@);
    while n < chars.len() && '0' <= chars[n] && chars[n] <= '9'
        invariant
            chars@ == input@,
            n <= chars@.len(),
            leading_digits(input@) == n + leading_digits(input@.skip(n as int)),
        decreases chars@.len() - n,
    {
        assert(input@.skip(n as int).drop_first() =~= input@.skip(n + 1));
        n += 1;
    }
    let rest: &str = input.substring_char(n, chars.len());
    assert(rest@ =~= input@.skip(n as int));
    if n == 0 {
        return None;
    }
    match strip_prefix(rest, ". ") {
        Some(text) => {
            proof {
                reveal_strlit(". ");
                assert(text@ =~= input@.skip(n + 2));
            }
            let number: String = string_range(&chars, 0, n);
            assert(number@ =~= input@.take(n as int));
            Some((cat2(number.as_str(), "."), text))
        },
        None => None,
    }
}

/// A text without its white space.
pub open spec fn compacted(s: Seq<char>) -> Seq<char>
    decreases s.len(),
{
    if s.len() == 0 {
        Seq::empty()
    } else if space(s.last()) {
        compacted(s.drop_last())
    } else {
        compacted(s.drop_last()).push(s.last())
    }
}

/// Whether a text is a rule: three or more of one of `-`, `*` and `_`, with spaces between them or
/// not.
pub open spec fn is_rule(s: Seq<char>) -> bool {
    let c = compacted(s);
    c.len() >= 3 && (c[0] == '-' || c[0] == '*' || c[0] == '_') && forall|i: int|
        0 <= i < c.len() ==> (#[trigger] c[i]) == c[0]
}

/// Whether a text is a rule.
pub fn is_markdown_rule(input: &str) -> (r: bool)
    ensures
        r == is_rule(input@),
{
    let chars: Vec<char> = chars_of(input);
    let mut kept: Vec<char> = Vec::new();
    let mut i: usize = 0;
    assert(kept@ =~= compacted(chars@.take(0)));
    while i < chars.len()
        invariant
            i <= chars@.len(),
            chars@ == input@,
            kept@ == compacted(chars@.take(i as int)),
        decreases chars@.len() - i,
    {
        assert(chars@.take(i + 1).drop_last() =~= chars@.take(i as int));
        if !is_space(chars[i]) {
            kept.push(chars[i]);
        }
        i += 1;
    }
    assert(chars@.take(i as int) =~= chars@);
    if kept.len() == 0 {
        return false;
    }
    let first: char = kept[0];
    if first != '-' && first != '*' && first != '_' {
        return false;
    }
    if kept.len() < 3 {
        return false;
    }
    let mut k: usize = 0;
    while k < kept.len()
        invariant
            k <= kept@.len(),
            kept@.len() >= 3,
            first == kept@[0],
            kept@ == compacted(input@),
            forall|j: int| 0 <= j < k ==> (#[trigger] kept@[j]) == first,
        decreases kept@.len() - k,
    {
        if kept[k] != first {
            return false;
        }
        k += 1;
    }
    true
}

/// The label, the address and the length of a link in front of a text.
pub open spec fn link_split(s: Seq<char>) -> Option<(Seq<char>, Seq<char>, int)> {
    if s.len() == 0 || s[0] != '[' {
        None
    } else {
        match find(s.drop_first(), one(']')) {
            None => None,
            Some(n) => {
                let after = s.skip(n + 2);
                if after.len() == 0 || after[0] != '(' {
                    None
                } else {
                    match find(after.drop_first(), one(')')) {
                        None => None,
                        Some(m) => Some(
                            (s.subrange(1, n + 1), after.subrange(1, m + 1), n + 2 + m + 2),
                        ),
                    }
                }
            },
        }
    }
}

/// A link in front of a text.
pub struct Link {
    pub label: String,
    pub url: String,
    /// How many characters of the text it takes up.
    pub consumed: usize,
}

proof fn lemma_link_fits(s: Seq<char>)
    ensures
        link_split(s) matches Some(link) ==> 0 < link.2 <= s.len(),
{
    if s.len() > 0 && s[0] == '[' {
        let rest = s.drop_first();
        lemma_find(rest, one(']'));
        if let Some(n) = find(rest, one(']')) {
            let after = s.skip(n + 2);
            if after.len() > 0 {
                lemma_find(after.drop_first(), one(')'));
            }
        }
    }
}

/// Reads the link at a place of a text.
pub fn parse_markdown_link(chars: &Vec<char>, at: usize) -> (r: Option<Link>)
    requires
        at <= chars@.len(),
    ensures
        match link_split(chars@.skip(at as int)) {
            Some((label, url, consumed)) => r matches Some(link) && link.label@ == label
                && link.url@ == url && link.consumed == consumed && at + consumed <= chars@.len(),
            None => r is None,
        },
{
    let ghost tail = chars@.skip(at as int);
    let total: usize = chars.len();
    if at >= total || chars[at] != '[' {
        return None;
    }
    let mut close: Vec<char> = Vec::new();
    close.push(']');
    assert(close@ =~= one(']'));
    let mut end: Vec<char> = Vec::new();
    end.push(')');
    assert(end@ =~= one(')'));
    assert(chars@.skip(at + 1) =~= tail.drop_first());
    match find_from(chars, &close, at + 1) {
        None => None,
        Some(i) => {
            proof {
                lemma_find(tail.drop_first(), one(']'));
            }
            let ghost n = i - (at + 1);
            let ghost after = tail.skip(n + 2);
            assert(after =~= chars@.skip(i + 1));
            if i + 1 >= total || chars[i + 1] != '(' {
                return None;
            }
            assert(after[0] == '(');
            assert(chars@.skip(i + 2) =~= after.drop_first());
            match find_from(chars, &end, i + 2) {
                None => None,
                Some(j) => {
                    proof {
                        lemma_find(after.drop_first(), one(')'));
                    }
                    let label: String = string_range(chars, at + 1, i);
                    let url: String = string_range(chars, i + 2, j);
                    assert(label@ =~= tail.subrange(1, n + 1));
                    assert(url@ =~= after.subrange(1, j - (i + 2) + 1));
                    Some(Link { label, url, consumed: j + 1 - at })
                },
            }
        },
    }
}

/// Which marks are open at a place of a text.
#[derive(Debug, Clone, Copy, PartialEq, Eq, Structural)]
pub struct Marks {
    pub strong: bool,
    pub emphasis: bool,
    pub strike: bool,
    pub code: bool,
}

/// No mark is open.
pub open spec fn no_marks() -> Marks {
    Marks { strong: false, emphasis: false, strike: false, code: false }
}

/// The style of text with open marks.
pub open spec fn marked_style(base: Style, marks: Marks, link: bool) -> Style {
    let style = Style {
        bold: base.bold || marks.strong || link,
        italic: base.italic || marks.emphasis,
        crossed_out: base.crossed_out || marks.strike,
        underlined: base.underlined || link,
        ..base
    };
    let style = if link {
        Style { fg: Some(Tone::Accent), ..style }
    } else {
        style
    };
    if marks.code {
        Style { fg: Some(Tone::Accent2), bg: Some(Tone::PanelAlt), ..style }
    } else {
        style
    }
}

/// The style of text with open marks.
pub fn markdown_inline_style(base: Style, marks: Marks, link: bool) -> (r: Style)
    ensures
        r == marked_style(base, marks, link),
{
    let mut style: Style = base;
    if marks.strong {
        style.bold = true;
    }
    if marks.emphasis {
        style.italic = true;
    }
    if marks.strike {
        style.crossed_out = true;
    }
    if link {
        style.fg = Some(Tone::Accent);
        style.underlined = true;
        style.bold = true;
    }
    if marks.code {
        style.fg = Some(Tone::Accent2);
        style.bg = Some(Tone::PanelAlt);
    }
    style
}

/// A line with the text that was gathered behind it, where there is any.
pub open spec fn flushed(spans: LineView, buffer: Seq<char>, style: Style) -> LineView {
    if buffer.len() == 0 {
        spans
    } else {
        spans.push(span(buffer, style))
    }
}

/// A line with a link behind it; the address is shown where there is one.
pub open spec fn with_link(spans: LineView, label: Seq<char>, url: Seq<char>, style: Style) -> LineView {
    if url.len() == 0 {
        spans.push(span(label, style))
    } else {
        spans.push(span(label, style)).push(span(" ("@ + url + ")"@, ink(Tone::Muted)))
    }
}

/// What a text becomes behind what was already read: the spans so far, the text that was gathered,
/// and the marks that are open.
pub open spec fn inline_rest(
    s: Seq<char>,
    spans: LineView,
    buffer: Seq<char>,
    marks: Marks,
    base: Style,
) -> LineView
    decreases s.len(),
{
    let done = flushed(spans, buffer, marked_style(base, marks, false));
    if s.len() == 0 {
        done
    } else if !marks.code && link_split(s) is Some && link_split(s).unwrap().2 <= s.len() && link_split(
        s,
    ).unwrap().2 > 0 {
        let link = link_split(s).unwrap();
        inline_rest(
            s.skip(link.2),
            with_link(
                done,
                link.0,
                link.1,
                marked_style(base, Marks { code: false, ..marks }, true),
            ),
            Seq::empty(),
            marks,
            base,
        )
    } else if !marks.code && s.len() >= 2 && s[0] == '*' && s[1] == '*' {
        inline_rest(s.skip(2), done, Seq::empty(), Marks { strong: !marks.strong, ..marks }, base)
    } else if !marks.code && s.len() >= 2 && s[0] == '~' && s[1] == '~' {
        inline_rest(s.skip(2), done, Seq::empty(), Marks { strike: !marks.strike, ..marks }, base)
    } else if !marks.code && s[0] == '*' {
        inline_rest(
            s.skip(1),
            done,
            Seq::empty(),
            Marks { emphasis: !marks.emphasis, ..marks },
            base,
        )
    } else if s[0] == '`' {
        inline_rest(s.skip(1), done, Seq::empty(), Marks { code: !marks.code, ..marks }, base)
    } else {
        inline_rest(s.skip(1), spans, buffer.push(s[0]), marks, base)
    }
}

/// A text with its marks read as styles.
pub open spec fn inline(s: Seq<char>, base: Style) -> LineView {
    inline_rest(s, no_spans(), Seq::empty(), no_marks(), base)
}

fn flush(line: &mut Line, buffer: &mut Vec<char>, base: Style, marks: Marks)
    ensures
        final(line)@ == flushed(old(line)@, old(buffer)@, marked_style(base, marks, false)),
        final(buffer)@ == Seq::<char>::empty(),
{
    if buffer.len() > 0 {
        let text: String = string_of(buffer);
        line.add_span(text.as_str(), markdown_inline_style(base, marks, false));
        buffer.clear();
    }
    assert(buffer@ =~= Seq::<char>::empty());
}

/// Reads the marks in a text as styles.
pub fn parse_inline_markdown(text: &str, base: Style) -> (r: Line)
    ensures
        r@ == inline(text@, base),
{
    let chars: Vec<char> = chars_of(text);
    let total: usize = chars.len();
    let mut line: Line = Line::new();
    let mut buffer: Vec<char> = Vec::new();
    let mut marks: Marks = Marks { strong: false, emphasis: false, strike: false, code: false };
    let mut i: usize = 0;
    assert(text@.skip(0) =~= text@);
    assert(buffer@ =~= Seq::<char>::empty());
    while i < total
        invariant
            chars@ == text@,
            i <= total == chars@.len(),
            inline(text@, base) == inline_rest(text@.skip(i as int), line@, buffer@, marks, base),
        decreases total - i,
    {
        let ghost s = text@.skip(i as int);
        proof {
            lemma_link_fits(s);
            assert(s[0] == text@[i as int]);
            if s.len() >= 2 {
                assert(s[1] == text@[i + 1]);
            }
        }
        if !marks.code {
            if let Some(link) = parse_markdown_link(&chars, i) {
                flush(&mut line, &mut buffer, base, marks);
                let plain_marks: Marks = Marks {
                    strong: marks.strong,
                    emphasis: marks.emphasis,
                    strike: marks.strike,
                    code: false,
                };
                line.add_span(link.label.as_str(), markdown_inline_style(base, plain_marks, true));
                if !link.url.as_str().is_empty() {
                    let shown: String = cat3(" (", link.url.as_str(), ")");
                    line.add_span(shown.as_str(), Style::ink(Tone::Muted));
                }
                assert(s.skip(link.consumed as int) =~= text@.skip(i + link.consumed));
                i = i + link.consumed;
                continue ;
            }
            if i + 1 < total && chars[i] == '*' && chars[i + 1] == '*' {
                flush(&mut line, &mut buffer, base, marks);
                marks.strong = !marks.strong;
                assert(s.skip(2) =~= text@.skip(i + 2));
                i = i + 2;
                continue ;
            }
            if i + 1 < total && chars[i] == '~' && chars[i + 1] == '~' {
                flush(&mut line, &mut buffer, base, marks);
                marks.strike = !marks.strike;
                assert(s.skip(2) =~= text@.skip(i + 2));
                i = i + 2;
                continue ;
            }
            if chars[i] == '*' {
                flush(&mut line, &mut buffer, base, marks);
                marks.emphasis = !marks.emphasis;
                assert(s.skip(1) =~= text@.skip(i + 1));
                i = i + 1;
                continue ;
            }
        }
        assert(s.skip(1) =~= text@.skip(i + 1));
        if chars[i] == '`' {
            flush(&mut line, &mut buffer, base, marks);
            marks.code = !marks.code;
            i = i + 1;
            continue ;
        }
        buffer.push(chars[i]);
        i = i + 1;
    }
    assert(text@.skip(i as int).len() == 0);
    flush(&mut line, &mut buffer, base, marks);
    line
}

/// A text without the code fences in front of it.
pub open spec fn without_fences(s: Seq<char>) -> Seq<char>
    decreases s.len(),
{
    if s.len() >= 3 && s[0] == '`' && s[1] == '`' && s[2] == '`' {
        without_fences(s.skip(3))
    } else {
        s
    }
}

/// Whether a line is a code fence.
pub open spec fn is_fence(line: Seq<char>) -> bool {
    let t = trimmed_start(line);
    t.len() >= 3 && t[0] == '`' && t[1] == '`' && t[2] == '`'
}

/// The language that a code fence names.
pub open spec fn fence_language(line: Seq<char>) -> Seq<char> {
    trimmed(without_fences(trimmed_start(line)))
}

/// Muted text in italics.
pub open spec fn italic_muted() -> Style {
    Style { fg: Some(Tone::Muted), italic: true, ..plain() }
}

/// What stands in front of a line in a blockquote.
pub open spec fn quote_mark(depth: nat) -> LineView {
    if depth > 0 {
        no_spans().push(span(repeated('>', depth) + " "@, ink(Tone::Muted)))
    } else {
        no_spans()
    }
}

/// A line of text behind what stands in front of it: a rule, a heading, an item of a list, or a
/// plain line.
pub open spec fn text_line(front: LineView, body: Seq<char>, base: Style) -> LineView {
    if is_rule(body) {
        front.push(span("--------------------"@, ink(Tone::Muted)))
    } else {
        match heading_split(body) {
            Some((level, text)) => front.push(
                span(repeated('#', level) + " "@, bold_ink(Tone::Warning)),
            ) + inline(text, bold_ink(Tone::Warning)),
            None => match number_split(body) {
                Some((number, text)) => front.push(span(number + " "@, bold_ink(Tone::Accent)))
                    + inline(text, base),
                None => match bullet_split(body) {
                    Some(text) => front.push(span("- "@, bold_ink(Tone::Accent))) + inline(
                        text,
                        base,
                    ),
                    None => front + inline(body, base),
                },
            },
        }
    }
}

/// Markdown as far as it was read: the lines so far, and whether a code block is open.
pub struct BlockState {
    pub lines: Seq<LineView>,
    pub in_code: bool,
}

/// Markdown after one more line.
pub open spec fn block_step(state: BlockState, raw: Seq<char>, base: Style) -> BlockState {
    if is_fence(raw) {
        BlockState {
            lines: if !state.in_code && fence_language(raw).len() > 0 {
                state.lines.push(
                    no_spans().push(span("[code: "@ + fence_language(raw) + "]"@, italic_muted())),
                )
            } else {
                state.lines
            },
            in_code: !state.in_code,
        }
    } else if state.in_code {
        BlockState {
            lines: state.lines.push(
                no_spans().push(span("│ "@, ink(Tone::Muted))).push(
                    span(raw, ink_on(Tone::Accent2, Tone::PanelAlt)),
                ),
            ),
            ..state
        }
    } else if trimmed_start(raw).len() == 0 {
        BlockState { lines: state.lines.push(no_spans()), ..state }
    } else {
        let (depth, body) = quote_split(trimmed_start(raw));
        BlockState { lines: state.lines.push(text_line(quote_mark(depth), body, base)), ..state }
    }
}

/// Markdown after some lines.
pub open spec fn block_after(lines: Seq<Seq<char>>, base: Style) -> BlockState
    decreases lines.len(),
{
    if lines.len() == 0 {
        BlockState { lines: no_lines(), in_code: false }
    } else {
        block_step(block_after(lines.drop_last(), base), lines.last(), base)
    }
}

/// Markdown as styled lines.
pub open spec fn block_lines(content: Seq<char>, base: Style) -> Seq<LineView> {
    if content.len() == 0 {
        no_lines()
    } else {
        block_after(pieces(content, '\n'), base).lines
    }
}

fn at_fence(chars: &Vec<char>, i: usize) -> (r: bool)
    requires
        i <= chars@.len(),
    ensures
        r == (chars@.len() - i >= 3 && chars@[i as int] == '`' && chars@[i + 1] == '`' && chars@[i + 2]
            == '`'),
{
    chars.len() - i >= 3 && chars[i] == '`' && chars[i + 1] == '`' && chars[i + 2] == '`'
}

fn skip_fences(s: &str) -> (r: &str)
    ensures
        r@ == without_fences(s@),
{
    let chars: Vec<char> = chars_of(s);
    let total: usize = chars.len();
    let mut i: usize = 0;
    assert(s@.skip(0) =~= s@);
    while at_fence(&chars, i)
        invariant
            chars@ == s@,
            i <= chars@.len() == total,
            without_fences(s@) == without_fences(s@.skip(i as int)),
        decreases chars@.len() - i,
    {
        assert(s@.skip(i as int).skip(3) =~= s@.skip(i + 3));
        i += 3;
    }
    assert(s@.skip(i as int) =~= s@.subrange(i as int, s@.len() as int));
    s.substring_char(i, chars.len())
}

fn write_text_line(front: Line, body: &str, base: Style) -> (r: Line)
    ensures
        r@ == text_line(front@, body@, base),
{
    let mut line: Line = front;
    if is_markdown_rule(body) {
        return line.with("--------------------", Style::ink(Tone::Muted));
    }
    if let Some((level, text)) = split_heading_marker(body) {
        let marks: String = repeat('#', level);
        let head: String = cat2(marks.as_str(), " ");
        line.add_span(head.as_str(), Style::bold_ink(Tone::Warning));
        line.extend(&parse_inline_markdown(text, Style::bold_ink(Tone::Warning)));
        return line;
    }
    if let Some((number, text)) = split_ordered_list_marker(body) {
        let head: String = cat2(number.as_str(), " ");
        line.add_span(head.as_str(), Style::bold_ink(Tone::Accent));
        line.extend(&parse_inline_markdown(text, base));
        return line;
    }
    if let Some(text) = split_unordered_list_marker(body) {
        line.add_span("- ", Style::bold_ink(Tone::Accent));
        line.extend(&parse_inline_markdown(text, base));
        return line;
    }
    line.extend(&parse_inline_markdown(body, base));
    line
}

/// Draws markdown as styled lines.
pub fn render_markdown_block(content: &str, base: Style) -> (r: Vec<Line>)
    ensures
        line_views(r@) == block_lines(content@, base),
{
    let mut lines: Vec<Line> = new_lines();
    if content.is_empty() {
        return lines;
    }
    let raw_lines: Vec<String> = split_on(content, '\n');
    let ghost all = pieces(content@, '\n');
    let mut in_code: bool = false;
    let mut i: usize = 0;
    assert(all.take(0) =~= Seq::empty());
    while i < raw_lines.len()
        invariant
            i <= raw_lines@.len(),
            views(raw_lines@) == all,
            line_views(lines@) == block_after(all.take(i as int), base).lines,
            in_code == block_after(all.take(i as int), base).in_code,
        decreases raw_lines@.len() - i,
    {
        let raw: &str = raw_lines[i].as_str();
        proof {
            assert(all.take(i + 1).drop_last() =~= all.take(i as int));
            assert(all.take(i + 1).last() == raw@);
        }
        i += 1;
        let text: &str = trim_start(raw);
        let chars: Vec<char> = chars_of(text);
        if at_fence(&chars, 0) {
            if !in_code {
                let language: &str = trim(skip_fences(text));
                if !language.is_empty() {
                    let shown: String = cat3("[code: ", language, "]");
                    let mut style: Style = Style::ink(Tone::Muted);
                    style.italic = true;
                    add_line(&mut lines, Line::of(shown.as_str(), style));
                }
            }
            in_code = !in_code;
            continue ;
        }
        if in_code {
            add_line(
                &mut lines,
                Line::of("│ ", Style::ink(Tone::Muted)).with(
                    raw,
                    Style::ink_on(Tone::Accent2, Tone::PanelAlt),
                ),
            );
            continue ;
        }
        if text.is_empty() {
            add_line(&mut lines, Line::new());
            continue ;
        }
        let (depth, body): (usize, &str) = split_blockquote_prefix(text);
        let mut front: Line = Line::new();
        if depth > 0 {
            let marks: String = repeat('>', depth);
            let head: String = cat2(marks.as_str(), " ");
            front.add_span(head.as_str(), Style::ink(Tone::Muted));
        }
        add_line(&mut lines, write_text_line(front, body, base));
    }
    assert(all.take(i as int) =~= all);
    lines
}

/// Whether a text holds none of the characters that marks are made of.
pub open spec fn has_no_marks(s: Seq<char>) -> bool {
    forall|i: int|
        0 <= i < s.len() ==> (#[trigger] s[i]) != '[' && s[i] != '*' && s[i] != '~' && s[i] != '`'
}

proof fn lemma_plain_rest(s: Seq<char>, buffer: Seq<char>, base: Style)
    requires
        has_no_marks(s),
    ensures
        inline_rest(s, no_spans(), buffer, no_marks(), base) == flushed(
            no_spans(),
            buffer + s,
            base,
        ),
    decreases s.len(),
{
    assert(marked_style(base, no_marks(), false) == base);
    if s.len() == 0 {
        assert(buffer + s =~= buffer);
    } else {
        let rest = s.skip(1);
        assert(s[0] != '[' && s[0] != '*' && s[0] != '~' && s[0] != '`');
        assert forall|i: int| 0 <= i < rest.len() implies (#[trigger] rest[i]) != '[' && rest[i] != '*'
            && rest[i] != '~' && rest[i] != '`' by {
            assert(rest[i] == s[i + 1]);
        }
        lemma_plain_rest(rest, buffer.push(s[0]), base);
        assert(buffer.push(s[0]) + rest =~= buffer + s);
    }
}

/// A text without marks is drawn as it is, in one piece.
pub proof fn law_plain_text_is_kept(s: Seq<char>, base: Style)
    requires
        has_no_marks(s),
        s.len() > 0,
    ensures
        inline(s, base) == no_spans().push(span(s, base)),
{
    lemma_plain_rest(s, Seq::empty(), base);
    assert(Seq::<char>::empty() + s =~= s);
}

proof fn lemma_block_after_grows(lines: Seq<Seq<char>>, base: Style)
    ensures
        block_after(lines, base).lines.len() <= lines.len(),
    decreases lines.len(),
{
    if lines.len() > 0 {
        lemma_block_after_grows(lines.drop_last(), base);
    }
}

/// Markdown never becomes more lines than it has.
pub proof fn law_no_line_is_made_up(content: Seq<char>, base: Style)
    ensures
        block_lines(content, base).len() <= pieces(content, '\n').len(),
{
    lemma_block_after_grows(pieces(content, '\n'), base);
}

} // verus!
