//! Styled text: what is drawn, and in which colours.

use vstd::prelude::*;

use crate::text::{cat3, chars_of, string_range};

verus! {

/// What a colour is for.
#[derive(Debug, Clone, Copy, PartialEq, Eq, Structural)]
pub enum Tone {
    Canvas,
    Panel,
    PanelAlt,
    Border,
    BorderFocus,
    Text,
    Muted,
    Accent,
    Accent2,
    Success,
    Warning,
    Danger,
    User,
    Assistant,
    System,
    SelectedBg,
    SelectedFg,
}

/// A colour by its red, green and blue parts.
#[derive(Debug, Clone, Copy, PartialEq, Eq, Structural)]
pub struct Rgb {
    pub red: u8,
    pub green: u8,
    pub blue: u8,
}

/// The colour with these parts.
pub open spec fn rgb(red: u8, green: u8, blue: u8) -> Rgb {
    Rgb { red, green, blue }
}

/// The colours of the screen.
pub open spec fn tone_colour(tone: Tone) -> Rgb {
    match tone {
        Tone::Canvas => rgb(12, 14, 20),
        Tone::Panel => rgb(18, 21, 30),
        Tone::PanelAlt => rgb(23, 27, 38),
        Tone::Border => rgb(55, 66, 89),
        Tone::BorderFocus => rgb(94, 205, 255),
        Tone::Text => rgb(230, 236, 244),
        Tone::Muted => rgb(150, 162, 184),
        Tone::Accent => rgb(94, 205, 255),
        Tone::Accent2 => rgb(126, 255, 178),
        Tone::Success => rgb(115, 223, 139),
        Tone::Warning => rgb(255, 195, 83),
        Tone::Danger => rgb(255, 117, 117),
        Tone::User => rgb(126, 255, 178),
        Tone::Assistant => rgb(120, 201, 255),
        Tone::System => rgb(255, 206, 117),
        Tone::SelectedBg => rgb(55, 84, 132),
        Tone::SelectedFg => rgb(246, 250, 255),
    }
}

/// The colour that a tone has on the screen.
pub fn ui_theme(tone: Tone) -> (r: Rgb)
    ensures
        r == tone_colour(tone),
{
    match tone {
        Tone::Canvas => Rgb { red: 12, green: 14, blue: 20 },
        Tone::Panel => Rgb { red: 18, green: 21, blue: 30 },
        Tone::PanelAlt => Rgb { red: 23, green: 27, blue: 38 },
        Tone::Border => Rgb { red: 55, green: 66, blue: 89 },
        Tone::BorderFocus => Rgb { red: 94, green: 205, blue: 255 },
        Tone::Text => Rgb { red: 230, green: 236, blue: 244 },
        Tone::Muted => Rgb { red: 150, green: 162, blue: 184 },
        Tone::Accent => Rgb { red: 94, green: 205, blue: 255 },
        Tone::Accent2 => Rgb { red: 126, green: 255, blue: 178 },
        Tone::Success => Rgb { red: 115, green: 223, blue: 139 },
        Tone::Warning => Rgb { red: 255, green: 195, blue: 83 },
        Tone::Danger => Rgb { red: 255, green: 117, blue: 117 },
        Tone::User => Rgb { red: 126, green: 255, blue: 178 },
        Tone::Assistant => Rgb { red: 120, green: 201, blue: 255 },
        Tone::System => Rgb { red: 255, green: 206, blue: 117 },
        Tone::SelectedBg => Rgb { red: 55, green: 84, blue: 132 },
        Tone::SelectedFg => Rgb { red: 246, green: 250, blue: 255 },
    }
}

/// How text is drawn.
#[derive(Debug, Clone, Copy, PartialEq, Eq, Structural)]
pub struct Style {
    pub fg: Option<Tone>,
    pub bg: Option<Tone>,
    pub bold: bool,
    pub italic: bool,
    pub crossed_out: bool,
    pub underlined: bool,
}

/// Text as the terminal draws it by itself.
pub open spec fn plain() -> Style {
    Style {
        fg: None,
        bg: None,
        bold: false,
        italic: false,
        crossed_out: false,
        underlined: false,
    }
}

/// Text in one colour.
pub open spec fn ink(tone: Tone) -> Style {
    Style { fg: Some(tone), ..plain() }
}

/// Bold text in one colour.
pub open spec fn bold_ink(tone: Tone) -> Style {
    Style { fg: Some(tone), bold: true, ..plain() }
}

/// Text in one colour on another.
pub open spec fn ink_on(tone: Tone, back: Tone) -> Style {
    Style { fg: Some(tone), bg: Some(back), ..plain() }
}

/// Bold text in one colour on another.
pub open spec fn bold_ink_on(tone: Tone, back: Tone) -> Style {
    Style { fg: Some(tone), bg: Some(back), bold: true, ..plain() }
}

impl Style {
    /// Text as the terminal draws it by itself.
    pub fn plain() -> (r: Style)
        ensures
            r == plain(),
    {
        Style {
            fg: None,
            bg: None,
            bold: false,
            italic: false,
            crossed_out: false,
            underlined: false,
        }
    }

    /// Text in one colour.
    pub fn ink(tone: Tone) -> (r: Style)
        ensures
            r == ink(tone),
    {
        let mut style: Style = Style::plain();
        style.fg = Some(tone);
        style
    }

    /// Bold text in one colour.
    pub fn bold_ink(tone: Tone) -> (r: Style)
        ensures
            r == bold_ink(tone),
    {
        let mut style: Style = Style::ink(tone);
        style.bold = true;
        style
    }

    /// Text in one colour on another.
    pub fn ink_on(tone: Tone, back: Tone) -> (r: Style)
        ensures
            r == ink_on(tone, back),
    {
        let mut style: Style = Style::ink(tone);
        style.bg = Some(back);
        style
    }

    /// Bold text in one colour on another.
    pub fn bold_ink_on(tone: Tone, back: Tone) -> (r: Style)
        ensures
            r == bold_ink_on(tone, back),
    {
        let mut style: Style = Style::ink_on(tone, back);
        style.bold = true;
        style
    }
}

/// A piece of text in one style.
#[derive(Debug)]
pub struct Span {
    pub text: String,
    pub style: Style,
}

/// The view of a [`Span`].
pub struct SpanView {
    pub text: Seq<char>,
    pub style: Style,
}

impl View for Span {
    type V = SpanView;

    open spec fn view(&self) -> SpanView {
        SpanView { text: self.text@, style: self.style }
    }
}

/// The views of a list of spans.
pub open spec fn span_views(spans: Seq<Span>) -> Seq<SpanView> {
    Seq::new(spans.len(), |i: int| spans[i]@)
}

/// A piece of text in one style.
pub open spec fn span(text: Seq<char>, style: Style) -> SpanView {
    SpanView { text, style }
}

/// A line of styled text.
#[derive(Debug)]
pub struct Line {
    pub spans: Vec<Span>,
}

/// The view of a [`Line`]: its spans.
pub type LineView = Seq<SpanView>;

impl View for Line {
    type V = LineView;

    open spec fn view(&self) -> LineView {
        span_views(self.spans@)
    }
}

/// The views of a list of lines.
pub open spec fn line_views(lines: Seq<Line>) -> Seq<LineView> {
    Seq::new(lines.len(), |i: int| lines[i]@)
}

/// The line without any text.
pub open spec fn no_spans() -> LineView {
    Seq::empty()
}

/// No lines at all.
pub open spec fn no_lines() -> Seq<LineView> {
    Seq::empty()
}

/// The text of a line without its styles.
pub open spec fn line_text(line: LineView) -> Seq<char>
    decreases line.len(),
{
    if line.len() == 0 {
        Seq::empty()
    } else {
        line_text(line.drop_last()) + line.last().text
    }
}

impl Line {
    /// The line without any text.
    pub fn new() -> (r: Line)
        ensures
            r@ == no_spans(),
    {
        let spans: Vec<Span> = Vec::new();
        assert(span_views(spans@) =~= no_spans());
        Line { spans }
    }

    /// Adds a piece of text to the line.
    pub fn add_span(&mut self, text: &str, style: Style)
        ensures
            final(self)@ == old(self)@.push(span(text@, style)),
    {
        let ghost before = self.spans@;
        self.spans.push(Span { text: text.to_owned(), style });
        assert(span_views(self.spans@) =~= span_views(before).push(span(text@, style)));
    }

    /// The line with one more piece of text.
    pub fn with(self, text: &str, style: Style) -> (r: Line)
        ensures
            r@ == self@.push(span(text@, style)),
    {
        let mut line: Line = self;
        line.add_span(text, style);
        line
    }

    /// A line of one piece of text.
    pub fn of(text: &str, style: Style) -> (r: Line)
        ensures
            r@ == no_spans().push(span(text@, style)),
    {
        Line::new().with(text, style)
    }

    /// Puts the pieces of another line behind this one.
    pub fn extend(&mut self, other: &Line)
        ensures
            final(self)@ == old(self)@ + other@,
    {
        let ghost start = self@;
        let mut i: usize = 0;
        assert(start + other@.take(0) =~= start);
        while i < other.spans.len()
            invariant
                i <= other.spans@.len(),
                self@ == start + other@.take(i as int),
            decreases other.spans@.len() - i,
        {
            self.add_span(other.spans[i].text.as_str(), other.spans[i].style);
            assert(start + other@.take(i + 1) =~= (start + other@.take(i as int)).push(
                other@[i as int],
            ));
            i += 1;
        }
        assert(other@.take(i as int) =~= other@);
    }
}

/// Adds a line to a list.
pub fn add_line(lines: &mut Vec<Line>, line: Line)
    ensures
        line_views(final(lines)@) == line_views(old(lines)@).push(line@),
{
    let ghost before = lines@;
    lines.push(line);
    assert(line_views(lines@) =~= line_views(before).push(line@));
}

/// No lines yet.
pub fn new_lines() -> (r: Vec<Line>)
    ensures
        line_views(r@) == no_lines(),
{
    let lines: Vec<Line> = Vec::new();
    assert(line_views(lines@) =~= no_lines());
    lines
}

/// A line with a piece of text in front.
pub open spec fn indented(line: LineView, indent: Seq<char>, style: Style) -> LineView {
    no_spans().push(span(indent, style)) + line
}

/// Puts a piece of text in front of a line.
pub fn indent_line(line: &Line, indent: &str, style: Style) -> (r: Line)
    ensures
        r@ == indented(line@, indent@, style),
{
    let mut out: Line = Line::of(indent, style);
    out.extend(line);
    out
}

/// A text with its middle left out where it is longer than `max` characters.
pub open spec fn shortened(s: Seq<char>, max: nat) -> Seq<char> {
    if s.len() <= max {
        s
    } else if max <= 3 {
        "..."@
    } else {
        let left = (max - 3) / 2;
        let right = max - 3 - left;
        s.take(left) + "..."@ + s.skip(s.len() - right)
    }
}

/// Leaves the middle of a text out where it is longer than `max_chars` characters.
pub fn truncate_middle(value: &str, max_chars: usize) -> (r: String)
    ensures
        r@ == shortened(value@, max_chars as nat),
{
    let chars: Vec<char> = chars_of(value);
    if chars.len() <= max_chars {
        return value.to_owned();
    }
    if max_chars <= 3 {
        return "...".to_owned();
    }
    let left: usize = (max_chars - 3) / 2;
    let right: usize = max_chars - 3 - left;
    let start: String = string_range(&chars, 0, left);
    let end: String = string_range(&chars, chars.len() - right, chars.len());
    assert(start@ =~= value@.take(left as int));
    assert(end@ =~= value@.skip(value@.len() - right));
    cat3(start.as_str(), "...", end.as_str())
}

/// A shortened text is never longer than it may be, where that is at least three characters, and a
/// text that was short enough stays as it is.
pub proof fn law_shortened_fits(s: Seq<char>, max: nat)
    ensures
        max >= 3 ==> shortened(s, max).len() <= max,
        s.len() > max && max > 3 ==> shortened(s, max).len() == max,
        s.len() <= max ==> shortened(s, max) == s,
{
    reveal_strlit("...");
}

} // verus!
