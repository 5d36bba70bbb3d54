//! What is drawn on the screen: text and lists in framed panels.

use vstd::prelude::*;

use crate::tui::layout::Area;
use crate::tui::style::{line_views, no_lines, no_spans, Line, LineView, Tone};

verus! {

/// The frame around something drawn.
#[derive(Debug)]
pub struct Panel {
    pub title: Line,
    pub back: Tone,
    pub border: Tone,
}

/// The view of a [`Panel`].
pub struct PanelView {
    pub title: LineView,
    pub back: Tone,
    pub border: Tone,
}

impl View for Panel {
    type V = PanelView;

    open spec fn view(&self) -> PanelView {
        PanelView { title: self.title@, back: self.back, border: self.border }
    }
}

/// A frame with a title.
pub open spec fn panel(title: LineView, back: Tone, border: Tone) -> PanelView {
    PanelView { title, back, border }
}

/// A frame without a title.
pub open spec fn bare_panel(back: Tone, border: Tone) -> PanelView {
    panel(no_spans(), back, border)
}

impl Panel {
    /// A frame with a title.
    pub fn new(title: Line, back: Tone, border: Tone) -> (r: Panel)
        ensures
            r@ == panel(title@, back, border),
    {
        Panel { title, back, border }
    }

    /// A frame without a title.
    pub fn bare(back: Tone, border: Tone) -> (r: Panel)
        ensures
            r@ == bare_panel(back, border),
    {
        Panel { title: Line::new(), back, border }
    }
}

/// Something that is drawn.
#[derive(Debug)]
pub enum Widget {
    /// One colour.
    Fill(Tone),
    /// Nothing: what was drawn there before goes.
    Clear,
    /// Lines of text.
    Text { lines: Vec<Line>, wrap: bool, scroll: u16, panel: Panel },
    /// Text without styles, which is wrapped.
    Plain { text: String, scroll: u16, panel: Panel },
    /// A list, with the chosen item marked.
    List { items: Vec<Vec<Line>>, symbol: &'static str, selected: usize, panel: Panel },
}

/// The view of a [`Widget`].
pub enum WidgetView {
    Fill(Tone),
    Clear,
    Text { lines: Seq<LineView>, wrap: bool, scroll: u16, panel: PanelView },
    Plain { text: Seq<char>, scroll: u16, panel: PanelView },
    List { items: Seq<Seq<LineView>>, symbol: Seq<char>, selected: nat, panel: PanelView },
}

/// The views of the items of a list.
pub open spec fn item_views(items: Seq<Vec<Line>>) -> Seq<Seq<LineView>> {
    Seq::new(items.len(), |i: int| line_views(items[i]@))
}

impl View for Widget {
    type V = WidgetView;

    open spec fn view(&self) -> WidgetView {
        match self {
            Widget::Fill(tone) => WidgetView::Fill(*tone),
            Widget::Clear => WidgetView::Clear,
            Widget::Text { lines, wrap, scroll, panel } => WidgetView::Text {
                lines: line_views(lines@),
                wrap: *wrap,
                scroll: *scroll,
                panel: panel@,
            },
            Widget::Plain { text, scroll, panel } => WidgetView::Plain {
                text: text@,
                scroll: *scroll,
                panel: panel@,
            },
            Widget::List { items, symbol, selected, panel } => WidgetView::List {
                items: item_views(items@),
                symbol: symbol@,
                selected: *selected as nat,
                panel: panel@,
            },
        }
    }
}

/// Lines of text that are not wrapped.
pub open spec fn text_widget(lines: Seq<LineView>, panel: PanelView) -> WidgetView {
    WidgetView::Text { lines, wrap: false, scroll: 0, panel }
}

/// Lines of text that are wrapped.
pub open spec fn wrapped_widget(lines: Seq<LineView>, panel: PanelView) -> WidgetView {
    WidgetView::Text { lines, wrap: true, scroll: 0, panel }
}

/// One line.
pub open spec fn lines_of_one(a: LineView) -> Seq<LineView> {
    no_lines().push(a)
}

/// Two lines.
pub open spec fn lines_of_two(a: LineView, b: LineView) -> Seq<LineView> {
    no_lines().push(a).push(b)
}

/// Three lines.
pub open spec fn lines_of_three(a: LineView, b: LineView, c: LineView) -> Seq<LineView> {
    no_lines().push(a).push(b).push(c)
}

/// One line.
pub fn one_line(a: Line) -> (r: Vec<Line>)
    ensures
        line_views(r@) == lines_of_one(a@),
{
    let mut lines: Vec<Line> = crate::tui::style::new_lines();
    crate::tui::style::add_line(&mut lines, a);
    lines
}

/// Two lines.
pub fn two_lines(a: Line, b: Line) -> (r: Vec<Line>)
    ensures
        line_views(r@) == lines_of_two(a@, b@),
{
    let mut lines: Vec<Line> = one_line(a);
    crate::tui::style::add_line(&mut lines, b);
    lines
}

/// Three lines.
pub fn three_lines(a: Line, b: Line, c: Line) -> (r: Vec<Line>)
    ensures
        line_views(r@) == lines_of_three(a@, b@, c@),
{
    let mut lines: Vec<Line> = two_lines(a, b);
    crate::tui::style::add_line(&mut lines, c);
    lines
}

/// The item that stands in a list of which there is nothing to show.
pub open spec fn or_notice(items: Seq<Seq<LineView>>, notice: LineView) -> Seq<Seq<LineView>> {
    if items.len() == 0 {
        Seq::empty().push(lines_of_one(notice))
    } else {
        items
    }
}

/// Puts a notice into a list of which there is nothing to show.
pub fn add_notice(items: Vec<Vec<Line>>, notice: Line) -> (r: Vec<Vec<Line>>)
    ensures
        item_views(r@) == or_notice(item_views(items@), notice@),
{
    let mut items: Vec<Vec<Line>> = items;
    if items.len() == 0 {
        items.push(one_line(notice));
        assert(item_views(items@) =~= Seq::empty().push(lines_of_one(notice@)));
    }
    items
}

/// Something drawn, and where.
#[derive(Debug)]
pub struct Stroke {
    pub widget: Widget,
    pub area: Area,
}

/// The view of a [`Stroke`].
pub struct StrokeView {
    pub widget: WidgetView,
    pub area: Area,
}

impl View for Stroke {
    type V = StrokeView;

    open spec fn view(&self) -> StrokeView {
        StrokeView { widget: self.widget@, area: self.area }
    }
}

/// A widget in an area.
pub open spec fn stroke(widget: WidgetView, area: Area) -> StrokeView {
    StrokeView { widget, area }
}

/// The views of a list of strokes.
pub open spec fn stroke_views(strokes: Seq<Stroke>) -> Seq<StrokeView> {
    Seq::new(strokes.len(), |i: int| strokes[i]@)
}

/// A whole screen: what is drawn, in this order, and where the cursor stands.
#[derive(Debug)]
pub struct Picture {
    pub strokes: Vec<Stroke>,
    pub cursor: Option<(u16, u16)>,
}

/// The view of a [`Picture`].
pub struct PictureView {
    pub strokes: Seq<StrokeView>,
    pub cursor: Option<(u16, u16)>,
}

impl View for Picture {
    type V = PictureView;

    open spec fn view(&self) -> PictureView {
        PictureView { strokes: stroke_views(self.strokes@), cursor: self.cursor }
    }
}

/// A picture of nothing.
pub open spec fn blank_picture() -> PictureView {
    PictureView { strokes: Seq::empty(), cursor: None }
}

/// A picture with one more thing drawn.
pub open spec fn with_stroke(p: PictureView, widget: WidgetView, area: Area) -> PictureView {
    PictureView { strokes: p.strokes.push(stroke(widget, area)), ..p }
}

/// A picture with the cursor somewhere.
pub open spec fn with_cursor(p: PictureView, x: nat, y: nat) -> PictureView {
    PictureView { cursor: Some((x as u16, y as u16)), ..p }
}

impl Picture {
    /// A picture of nothing.
    pub fn new() -> (r: Picture)
        ensures
            r@ == blank_picture(),
    {
        let strokes: Vec<Stroke> = Vec::new();
        assert(stroke_views(strokes@) =~= Seq::empty());
        Picture { strokes, cursor: None }
    }

    /// Draws something.
    pub fn draw(&mut self, widget: Widget, area: Area)
        ensures
            final(self)@ == with_stroke(old(self)@, widget@, area),
    {
        let ghost before = self.strokes@;
        self.strokes.push(Stroke { widget, area });
        assert(stroke_views(self.strokes@) =~= stroke_views(before).push(stroke(widget@, area)));
    }

    /// Puts the cursor somewhere.
    pub fn put_cursor(&mut self, x: u16, y: u16)
        ensures
            final(self)@ == with_cursor(old(self)@, x as nat, y as nat),
    {
        self.cursor = Some((x, y));
    }
}

} // verus!
