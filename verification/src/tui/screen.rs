//! What the full-screen chat shows when no dialog is open.

use vstd::prelude::*;

use crate::conversation::{
    message_views, summary_views, ConversationMessage, ConversationSummary, MessageView, SummaryView,
};
use crate::letter::{lower, to_lowercase};
use crate::model_mode::{mode_text, web_mode_display};
use crate::number::{decimal, write_decimal};
use crate::search::{contains, has};
use crate::stamp::{short_stamp, show_short};
use crate::text::{cat2, cat3, chars_of, opt_or_empty, same};
use crate::tui::app::{active_provider, App, AppView, Focus};
use crate::tui::layout::{cursor_column, place_cursor, Area};
use crate::tui::markdown::{block_lines, render_markdown_block};
use crate::tui::paint::{
    add_notice, item_views, lines_of_one, lines_of_three, lines_of_two, one_line, or_notice, panel,
    bare_panel, text_widget, three_lines, two_lines, with_cursor, with_stroke, wrapped_widget, Panel,
    Picture, PictureView, Widget, WidgetView,
};
use crate::tui::slash::{
    filtered_slash_suggestions, slash_views, suggestions, SlashCommandSpec, SlashView,
};
use crate::tui::style::{
    add_line, bold_ink, bold_ink_on, indent_line, indented, ink, ink_on, line_views, new_lines,
    no_lines, no_spans, shortened, span, truncate_middle, Line, LineView, Style, Tone,
};

verus! {

// ---------------------------------------------------------------------------
// Header
// ---------------------------------------------------------------------------

/// The title of the screen.
pub open spec fn header_title() -> LineView {
    no_spans().push(span(" NANO GPT "@, ink_on(Tone::Canvas, Tone::Accent))).push(
        span(" TERMINAL STUDIO "@, bold_ink_on(Tone::Canvas, Tone::Accent2)),
    )
}

/// The first line of the header: the conversation.
pub open spec fn header_conversation(s: AppView) -> LineView {
    no_spans().push(span("Conversation "@, ink(Tone::Muted))).push(
        span(shortened(s.conversation.id, 42), bold_ink(Tone::Text)),
    ).push(span("  |  Messages "@, ink(Tone::Muted))).push(
        span(decimal(s.conversation.messages.len()), bold_ink(Tone::Accent2)),
    ).push(span("  |  Focus "@, ink(Tone::Muted))).push(
        span(
            match s.focus {
                Focus::Input => "composer"@,
                Focus::Conversations => "conversations"@,
            },
            ink(Tone::Accent),
        ),
    )
}

/// The second line of the header: how the model is asked.
pub open spec fn header_model(s: AppView) -> LineView {
    no_spans().push(span("Model "@, ink(Tone::Muted))).push(
        span(shortened(s.model, 40), ink(Tone::Text)),
    ).push(span("  |  Provider "@, ink(Tone::Muted))).push(
        span(
            match active_provider(s) {
                Some(provider) => provider,
                None => "auto"@,
            },
            ink(Tone::Warning),
        ),
    ).push(span("  |  Web "@, ink(Tone::Muted))).push(
        span(mode_text(s.mode), ink(Tone::Accent2)),
    ).push(span("  |  Status "@, ink(Tone::Muted))).push(
        if s.pending {
            span("thinking"@, bold_ink(Tone::Warning))
        } else {
            span("ready"@, bold_ink(Tone::Success))
        },
    )
}

/// The header.
pub open spec fn header_view(s: AppView) -> WidgetView {
    text_widget(
        lines_of_two(header_conversation(s), header_model(s)),
        panel(header_title(), Tone::PanelAlt, Tone::BorderFocus),
    )
}

impl App {
    /// The header: the conversation and how the model is asked.
    pub fn render_header(&self) -> (r: Widget)
        requires
            self.well_formed(),
        ensures
            r@ == header_view(self@),
    {
        let title: Line = Line::of(" NANO GPT ", Style::ink_on(Tone::Canvas, Tone::Accent)).with(
            " TERMINAL STUDIO ",
            Style::bold_ink_on(Tone::Canvas, Tone::Accent2),
        );
        let id: String = truncate_middle(self.conversation.id.as_str(), 42);
        let count: String = write_decimal(self.conversation.messages.len() as u64);
        let focus: &str = match self.focus {
            Focus::Input => "composer",
            Focus::Conversations => "conversations",
        };
        let first: Line = Line::of("Conversation ", Style::ink(Tone::Muted)).with(
            id.as_str(),
            Style::bold_ink(Tone::Text),
        ).with("  |  Messages ", Style::ink(Tone::Muted)).with(
            count.as_str(),
            Style::bold_ink(Tone::Accent2),
        ).with("  |  Focus ", Style::ink(Tone::Muted)).with(focus, Style::ink(Tone::Accent));
        let model: String = truncate_middle(self.current_model.as_str(), 40);
        let provider: &str = match self.active_provider_for_current_model() {
            Some(provider) => provider,
            None => "auto",
        };
        let mode: String = web_mode_display(&self.web_mode);
        let (state, tone): (&str, Tone) = if self.pending {
            ("thinking", Tone::Warning)
        } else {
            ("ready", Tone::Success)
        };
        let second: Line = Line::of("Model ", Style::ink(Tone::Muted)).with(
            model.as_str(),
            Style::ink(Tone::Text),
        ).with("  |  Provider ", Style::ink(Tone::Muted)).with(
            provider,
            Style::ink(Tone::Warning),
        ).with("  |  Web ", Style::ink(Tone::Muted)).with(
            mode.as_str(),
            Style::ink(Tone::Accent2),
        ).with("  |  Status ", Style::ink(Tone::Muted)).with(state, Style::bold_ink(tone));
        Widget::Text {
            lines: two_lines(first, second),
            wrap: false,
            scroll: 0,
            panel: Panel::new(title, Tone::PanelAlt, Tone::BorderFocus),
        }
    }
}

// ---------------------------------------------------------------------------
// Conversations
// ---------------------------------------------------------------------------

/// A conversation in the list.
pub open spec fn conversation_item(c: SummaryView, open_id: Seq<char>) -> Seq<LineView> {
    lines_of_two(
        no_spans().push(
            if c.id == open_id {
                span("●"@ + " "@, ink(Tone::Accent2))
            } else {
                span("○"@ + " "@, ink(Tone::Muted))
            },
        ).push(span(shortened(c.id, 34), bold_ink(Tone::Text))),
        no_spans().push(span(decimal(c.message_count) + " msgs"@, ink(Tone::Accent))).push(
            span("  •  "@, ink(Tone::Muted)),
        ).push(span(shortened(c.model, 18), ink(Tone::Muted))).push(
            span("  •  "@, ink(Tone::Muted)),
        ).push(
            span(
                opt_or_empty(short_stamp(c.updated_at.secs, c.updated_at.nanos)),
                ink(Tone::Muted),
            ),
        ),
    )
}

/// The conversations in the list.
pub open spec fn conversation_items(list: Seq<SummaryView>, open_id: Seq<char>) -> Seq<Seq<LineView>> {
    Seq::new(list.len(), |i: int| conversation_item(list[i], open_id))
}

/// A title with a mark behind it that says whether the keys go there.
pub open spec fn focus_title(title: Seq<char>, mark: Seq<char>, focused: bool) -> LineView {
    no_spans().push(span(title, ink(Tone::Accent))).push(
        span(
            mark,
            ink_on(
                Tone::Canvas,
                if focused {
                    Tone::Accent2
                } else {
                    Tone::Muted
                },
            ),
        ),
    )
}

/// The border of a panel.
pub open spec fn focus_border(focused: bool) -> Tone {
    if focused {
        Tone::BorderFocus
    } else {
        Tone::Border
    }
}

/// The list of conversations.
pub open spec fn conversations_view(s: AppView) -> WidgetView {
    let focused = s.focus == Focus::Conversations;
    WidgetView::List {
        items: or_notice(
            conversation_items(s.conversations, s.conversation.id),
            no_spans().push(span("No conversations yet"@, ink(Tone::Muted))),
        ),
        symbol: "▌ "@,
        selected: s.selected,
        panel: panel(
            focus_title(
                " Conversations "@,
                if focused {
                    " ACTIVE "@
                } else {
                    " BROWSE "@
                },
                focused,
            ),
            Tone::Panel,
            focus_border(focused),
        ),
    }
}

fn show_conversation(c: &ConversationSummary, open_id: &str) -> (r: Vec<Line>)
    ensures
        line_views(r@) == conversation_item(c@, open_id@),
{
    let active: bool = same(c.id.as_str(), open_id);
    let (marker, tone): (&str, Tone) = if active {
        ("●", Tone::Accent2)
    } else {
        ("○", Tone::Muted)
    };
    let mark: String = cat2(marker, " ");
    let id: String = truncate_middle(c.id.as_str(), 34);
    let first: Line = Line::of(mark.as_str(), Style::ink(tone)).with(
        id.as_str(),
        Style::bold_ink(Tone::Text),
    );
    let number: String = write_decimal(c.message_count as u64);
    let count: String = cat2(number.as_str(), " msgs");
    let model: String = truncate_middle(c.model.as_str(), 18);
    let when: String = show_short(c.updated_at);
    let second: Line = Line::of(count.as_str(), Style::ink(Tone::Accent)).with(
        "  •  ",
        Style::ink(Tone::Muted),
    ).with(model.as_str(), Style::ink(Tone::Muted)).with("  •  ", Style::ink(Tone::Muted)).with(
        when.as_str(),
        Style::ink(Tone::Muted),
    );
    two_lines(first, second)
}

fn mark_title(title: &str, mark: &str, focused: bool) -> (r: Line)
    ensures
        r@ == focus_title(title@, mark@, focused),
{
    let tone: Tone = if focused {
        Tone::Accent2
    } else {
        Tone::Muted
    };
    Line::of(title, Style::ink(Tone::Accent)).with(mark, Style::ink_on(Tone::Canvas, tone))
}

fn border_tone(focused: bool) -> (r: Tone)
    ensures
        r == focus_border(focused),
{
    if focused {
        Tone::BorderFocus
    } else {
        Tone::Border
    }
}

impl App {
    fn browses(&self) -> (r: bool)
        ensures
            r == (self@.focus == Focus::Conversations),
    {
        match self.focus {
            Focus::Input => false,
            Focus::Conversations => true,
        }
    }

    /// The list of conversations.
    pub fn render_conversations(&self) -> (r: Widget)
        ensures
            r@ == conversations_view(self@),
    {
        let focused: bool = self.browses();
        let id: &str = self.conversation.id.as_str();
        let ghost all = summary_views(self.conversations@);
        let mut items: Vec<Vec<Line>> = Vec::new();
        let mut i: usize = 0;
        while i < self.conversations.len()
            invariant
                i <= self.conversations@.len(),
                all == summary_views(self.conversations@),
                items@.len() == i,
                forall|k: int|
                    0 <= k < i ==> line_views((#[trigger] items@[k])@) == conversation_item(
                        all[k],
                        id@,
                    ),
            decreases self.conversations@.len() - i,
        {
            assert(all[i as int] == self.conversations@[i as int]@);
            items.push(show_conversation(&self.conversations[i], id));
            i += 1;
        }
        assert(item_views(items@) =~= conversation_items(all, id@));
        let mark: &str = if focused {
            " ACTIVE "
        } else {
            " BROWSE "
        };
        Widget::List {
            items: add_notice(
                items,
                Line::of("No conversations yet", Style::ink(Tone::Muted)),
            ),
            symbol: "▌ ",
            selected: self.selected_conversation_idx,
            panel: Panel::new(
                mark_title(" Conversations ", mark, focused),
                Tone::Panel,
                border_tone(focused),
            ),
        }
    }
}

// ---------------------------------------------------------------------------
// Chat
// ---------------------------------------------------------------------------

/// The lines of a text, with some space in front of each.
pub open spec fn indented_block(content: Seq<char>) -> Seq<LineView> {
    let block = block_lines(content, ink(Tone::Text));
    Seq::new(block.len(), |i: int| indented(block[i], "  "@, ink(Tone::Muted)))
}

/// How the writer of a message is called, and in which colour.
pub open spec fn writer(role: Seq<char>) -> (Seq<char>, Tone) {
    if role == "assistant"@ {
        ("ASSISTANT"@, Tone::Assistant)
    } else if role == "user"@ {
        ("YOU"@, Tone::User)
    } else {
        ("SYSTEM"@, Tone::System)
    }
}

/// A number with at least two digits.
pub open spec fn two_digits(n: nat) -> Seq<char> {
    if n < 10 {
        "0"@ + decimal(n)
    } else {
        decimal(n)
    }
}

/// The system prompt as it stands before the messages.
pub open spec fn system_lines(prompt: Option<Seq<char>>) -> Seq<LineView> {
    match prompt {
        Some(text) => no_lines().push(
            no_spans().push(span(" SYSTEM "@, bold_ink_on(Tone::Canvas, Tone::System))).push(
                span("  policy"@, ink(Tone::Muted)),
            ),
        ) + indented_block(text) + no_lines().push(no_spans()),
        None => no_lines(),
    }
}

/// The message of this number.
pub open spec fn message_lines(m: MessageView, number: nat) -> Seq<LineView> {
    no_lines().push(
        no_spans().push(
            span(" "@ + writer(m.role).0 + " "@, bold_ink_on(Tone::Canvas, writer(m.role).1)),
        ).push(span("  message #"@ + two_digits(number), ink(Tone::Muted))),
    ) + indented_block(m.content) + (if m.content.len() == 0 {
        no_lines().push(no_spans().push(span("  (empty)"@, ink(Tone::Muted))))
    } else {
        no_lines()
    }) + no_lines().push(no_spans())
}

/// The messages, one below the other.
pub open spec fn messages_lines(messages: Seq<MessageView>) -> Seq<LineView>
    decreases messages.len(),
{
    if messages.len() == 0 {
        no_lines()
    } else {
        messages_lines(messages.drop_last()) + message_lines(messages.last(), messages.len())
    }
}

/// What stands below the messages while the model is being asked.
pub open spec fn pending_lines(s: AppView) -> Seq<LineView> {
    if s.pending {
        (match s.pending_user {
            Some(user) => no_lines().push(
                no_spans().push(span(" YOU "@, bold_ink_on(Tone::Canvas, Tone::User))).push(
                    span("  "@ + user, ink(Tone::Text)),
                ),
            ).push(no_spans()),
            None => no_lines(),
        }).push(
            no_spans().push(span(" ASSISTANT "@, bold_ink_on(Tone::Canvas, Tone::Assistant))).push(
                span("  composing response..."@, ink(Tone::Warning)),
            ),
        )
    } else {
        no_lines()
    }
}

/// The chat.
pub open spec fn chat_view(s: AppView) -> WidgetView {
    WidgetView::Text {
        lines: system_lines(s.conversation.system_prompt) + messages_lines(s.conversation.messages)
            + pending_lines(s),
        wrap: true,
        scroll: s.chat_scroll,
        panel: panel(
            no_spans().push(span(" Chat Stream "@, ink(Tone::Accent2))).push(
                span(" LIVE "@, ink_on(Tone::Canvas, Tone::Accent)),
            ),
            Tone::Panel,
            Tone::Border,
        ),
    }
}

fn add_block(lines: &mut Vec<Line>, content: &str)
    ensures
        line_views(final(lines)@) == line_views(old(lines)@) + indented_block(content@),
{
    let block: Vec<Line> = render_markdown_block(content, Style::ink(Tone::Text));
    let ghost start = line_views(lines@);
    let ghost want = indented_block(content@);
    let ghost inner = line_views(block@);
    assert(inner == block_lines(content@, ink(Tone::Text)));
    let mut i: usize = 0;
    assert(start + want.take(0) =~= start);
    while i < block.len()
        invariant
            i <= block@.len() == want.len(),
            inner == line_views(block@),
            inner == block_lines(content@, ink(Tone::Text)),
            want == indented_block(content@),
            line_views(lines@) == start + want.take(i as int),
        decreases block@.len() - i,
    {
        assert(inner[i as int] == block@[i as int]@);
        assert(want[i as int] == indented(inner[i as int], "  "@, ink(Tone::Muted)));
        let line: Line = indent_line(&block[i], "  ", Style::ink(Tone::Muted));
        add_line(lines, line);
        assert(start + want.take(i + 1) =~= (start + want.take(i as int)).push(want[i as int]));
        i += 1;
    }
    assert(want.take(i as int) =~= want);
}

fn name_writer(role: &str) -> (r: (&'static str, Tone))
    ensures
        r.0@ == writer(role@).0,
        r.1 == writer(role@).1,
{
    if same(role, "assistant") {
        ("ASSISTANT", Tone::Assistant)
    } else if same(role, "user") {
        ("YOU", Tone::User)
    } else {
        ("SYSTEM", Tone::System)
    }
}

fn write_two_digits(n: u64) -> (r: String)
    ensures
        r@ == two_digits(n as nat),
{
    let digits: String = write_decimal(n);
    if n < 10 {
        cat2("0", digits.as_str())
    } else {
        digits
    }
}

fn add_message(lines: &mut Vec<Line>, m: &ConversationMessage, number: usize)
    ensures
        line_views(final(lines)@) == line_views(old(lines)@) + message_lines(m@, number as nat),
{
    let ghost start = line_views(lines@);
    let (name, tone): (&str, Tone) = name_writer(m.role.as_str());
    let title: String = cat3(" ", name, " ");
    let digits: String = write_two_digits(number as u64);
    let place: String = cat2("  message #", digits.as_str());
    let head: Line = Line::of(title.as_str(), Style::bold_ink_on(Tone::Canvas, tone)).with(
        place.as_str(),
        Style::ink(Tone::Muted),
    );
    let ghost h = head@;
    add_line(lines, head);
    add_block(lines, m.content.as_str());
    let ghost empty = no_lines().push(no_spans().push(span("  (empty)"@, ink(Tone::Muted))));
    if m.content.as_str().is_empty() {
        add_line(lines, Line::of("  (empty)", Style::ink(Tone::Muted)));
    }
    add_line(lines, Line::new());
    let ghost body = indented_block(m.content@);
    let ghost tail = if m.content@.len() == 0 {
        empty
    } else {
        no_lines()
    };
    assert(line_views(lines@) =~= start + (no_lines().push(h) + body + tail + no_lines().push(
        no_spans(),
    )));
}

impl App {
    /// The chat: the system prompt, the messages, and what is being waited for.
    pub fn render_chat(&self) -> (r: Widget)
        ensures
            r@ == chat_view(self@),
    {
        let mut lines: Vec<Line> = new_lines();
        let ghost system = system_lines(self@.conversation.system_prompt);
        if let Some(text) = &self.conversation.system_prompt {
            let head: Line = Line::of(
                " SYSTEM ",
                Style::bold_ink_on(Tone::Canvas, Tone::System),
            ).with("  policy", Style::ink(Tone::Muted));
            let ghost h = head@;
            add_line(&mut lines, head);
            add_block(&mut lines, text.as_str());
            add_line(&mut lines, Line::new());
            assert(line_views(lines@) =~= no_lines().push(h) + indented_block(text@)
                + no_lines().push(no_spans()));
        }
        assert(line_views(lines@) == system);
        let ghost all = message_views(self.conversation.messages@);
        let mut i: usize = 0;
        assert(all.take(0) =~= Seq::empty());
        assert(system + messages_lines(all.take(0)) =~= system);
        while i < self.conversation.messages.len()
            invariant
                i <= self.conversation.messages@.len(),
                all == message_views(self.conversation.messages@),
                line_views(lines@) == system + messages_lines(all.take(i as int)),
            decreases self.conversation.messages@.len() - i,
        {
            let total: usize = self.conversation.messages.len();
            assert(i < total);
            assert(all[i as int] == self.conversation.messages@[i as int]@);
            add_message(&mut lines, &self.conversation.messages[i], i + 1);
            proof {
                let now = all.take(i + 1);
                assert(now.drop_last() =~= all.take(i as int));
                assert(now.last() == all[i as int]);
                assert(system + messages_lines(now) =~= system + messages_lines(
                    all.take(i as int),
                ) + message_lines(all[i as int], (i + 1) as nat));
            }
            i += 1;
        }
        assert(all.take(i as int) =~= all);
        let ghost said = line_views(lines@);
        if self.pending {
            if let Some(user) = &self.pending_user {
                let text: String = cat2("  ", user.as_str());
                let line: Line = Line::of(
                    " YOU ",
                    Style::bold_ink_on(Tone::Canvas, Tone::User),
                ).with(text.as_str(), Style::ink(Tone::Text));
                add_line(&mut lines, line);
                add_line(&mut lines, Line::new());
            }
            let line: Line = Line::of(
                " ASSISTANT ",
                Style::bold_ink_on(Tone::Canvas, Tone::Assistant),
            ).with("  composing response...", Style::ink(Tone::Warning));
            add_line(&mut lines, line);
        }
        assert(line_views(lines@) =~= said + pending_lines(self@));
        Widget::Text {
            lines,
            wrap: true,
            scroll: self.chat_scroll,
            panel: Panel::new(
                Line::of(" Chat Stream ", Style::ink(Tone::Accent2)).with(
                    " LIVE ",
                    Style::ink_on(Tone::Canvas, Tone::Accent),
                ),
                Tone::Panel,
                Tone::Border,
            ),
        }
    }

    /// The conversations and the chat beside each other.
    pub fn render_body(&self, picture: &mut Picture, list: Area, chat: Area)
        ensures
            final(picture)@ == body_drawn(old(picture)@, self@, list, chat),
    {
        picture.draw(self.render_conversations(), list);
        picture.draw(self.render_chat(), chat);
    }
}

/// A picture with the conversations and the chat.
pub open spec fn body_drawn(p: PictureView, s: AppView, list: Area, chat: Area) -> PictureView {
    with_stroke(with_stroke(p, conversations_view(s), list), chat_view(s), chat)
}

// ---------------------------------------------------------------------------
// Input
// ---------------------------------------------------------------------------

/// The line in which the user types.
pub open spec fn input_line(text: Seq<char>) -> LineView {
    if text.len() == 0 {
        no_spans().push(
            span("Type a message or /command. Enter to send."@, ink(Tone::Muted)),
        )
    } else {
        no_spans().push(span(text, ink(Tone::Text)))
    }
}

/// The shortcuts below the line in which the user types.
pub open spec fn hint_line(count: nat) -> LineView {
    no_spans().push(span("Ctrl+M"@, ink(Tone::Accent))).push(
        span(" models  "@, ink(Tone::Muted)),
    ).push(span("Ctrl+P"@, ink(Tone::Accent))).push(span(" providers  "@, ink(Tone::Muted))).push(
        span("Ctrl+G"@, ink(Tone::Accent)),
    ).push(span(" web mode  "@, ink(Tone::Muted))).push(span("Ctrl+W"@, ink(Tone::Accent))).push(
        span(" web search  "@, ink(Tone::Muted)),
    ).push(span(decimal(count) + " chars"@, ink(Tone::Warning)))
}

/// The composer.
pub open spec fn input_view(s: AppView) -> WidgetView {
    let focused = s.focus == Focus::Input;
    wrapped_widget(
        lines_of_three(input_line(s.input.text), no_spans(), hint_line(s.input.text.len())),
        panel(
            focus_title(
                " Composer "@,
                if focused {
                    " ACTIVE "@
                } else {
                    " READY "@
                },
                focused,
            ),
            Tone::PanelAlt,
            focus_border(focused),
        ),
    )
}

/// A picture with the composer, and with the cursor in it where the user types there.
pub open spec fn input_drawn(p: PictureView, s: AppView, area: Area) -> PictureView {
    let drawn = with_stroke(p, input_view(s), area);
    if s.focus == Focus::Input && s.modal is None {
        with_cursor(drawn, cursor_column(area, 0, s.input.cursor), (area.y + 1) as nat)
    } else {
        drawn
    }
}

fn write_hint(count: usize) -> (r: Line)
    ensures
        r@ == hint_line(count as nat),
{
    let number: String = write_decimal(count as u64);
    let chars: String = cat2(number.as_str(), " chars");
    Line::of("Ctrl+M", Style::ink(Tone::Accent)).with(
        " models  ",
        Style::ink(Tone::Muted),
    ).with("Ctrl+P", Style::ink(Tone::Accent)).with(" providers  ", Style::ink(Tone::Muted)).with(
        "Ctrl+G",
        Style::ink(Tone::Accent),
    ).with(" web mode  ", Style::ink(Tone::Muted)).with("Ctrl+W", Style::ink(Tone::Accent)).with(
        " web search  ",
        Style::ink(Tone::Muted),
    ).with(chars.as_str(), Style::ink(Tone::Warning))
}

impl App {
    /// Draws the composer.
    pub fn render_input(&self, picture: &mut Picture, area: Area)
        requires
            area.fits(),
            area.y < u16::MAX,
        ensures
            final(picture)@ == input_drawn(old(picture)@, self@, area),
    {
        let focused: bool = !self.browses();
        let text: &str = self.input.text.as_str();
        let count: usize = chars_of(text).len();
        let typed: Line = if text.is_empty() {
            Line::of("Type a message or /command. Enter to send.", Style::ink(Tone::Muted))
        } else {
            Line::of(text, Style::ink(Tone::Text))
        };
        let mark: &str = if focused {
            " ACTIVE "
        } else {
            " READY "
        };
        let widget: Widget = Widget::Text {
            lines: three_lines(typed, Line::new(), write_hint(count)),
            wrap: true,
            scroll: 0,
            panel: Panel::new(
                mark_title(" Composer ", mark, focused),
                Tone::PanelAlt,
                border_tone(focused),
            ),
        };
        picture.draw(widget, area);
        if focused && self.modal.is_none() {
            let x: u16 = place_cursor(area, 0, self.input.cursor);
            picture.put_cursor(x, area.y + 1);
        }
    }
}

// ---------------------------------------------------------------------------
// Suggestions
// ---------------------------------------------------------------------------

/// How many suggestions are shown.
pub open spec fn shown_suggestions(n: nat) -> nat {
    if n <= 5 {
        n
    } else {
        5
    }
}

/// Where the suggestions are shown: above the composer.
pub open spec fn suggestions_area(input: Area, shown: nat) -> Area {
    Area {
        x: input.x,
        y: (if input.y >= shown + 1 {
            input.y - (shown + 1)
        } else {
            0
        }) as u16,
        width: if input.width <= 72 {
            input.width
        } else {
            72
        },
        height: (shown + 2) as u16,
    }
}

/// A suggestion.
pub open spec fn suggestion_item(c: SlashView) -> Seq<LineView> {
    lines_of_one(
        no_spans().push(
            span(
                c.command + (if c.takes_argument {
                    "…"@
                } else {
                    ""@
                }),
                bold_ink(Tone::Accent),
            ),
        ).push(span("  "@, ink(Tone::Muted))).push(span(c.description, ink(Tone::Text))),
    )
}

/// The suggestions.
pub open spec fn suggestions_view(s: AppView) -> WidgetView {
    let list = suggestions(s.input.text);
    let shown = shown_suggestions(list.len());
    WidgetView::List {
        items: Seq::new(shown, |i: int| suggestion_item(list[i])),
        symbol: "▸ "@,
        selected: if s.suggestion < shown {
            s.suggestion
        } else {
            (shown - 1) as nat
        },
        panel: panel(
            no_spans().push(span(" / commands "@, ink(Tone::Accent))).push(
                span(" TAB/ENTER "@, ink_on(Tone::Canvas, Tone::Accent2)),
            ),
            Tone::PanelAlt,
            Tone::BorderFocus,
        ),
    }
}

/// A picture with the suggestions, where there are any for what the user is typing.
pub open spec fn suggestions_drawn(p: PictureView, s: AppView, input: Area) -> PictureView {
    let n = suggestions(s.input.text).len();
    if n == 0 || s.modal is Some || s.focus != Focus::Input {
        p
    } else {
        let area = suggestions_area(input, shown_suggestions(n));
        with_stroke(with_stroke(p, WidgetView::Clear, area), suggestions_view(s), area)
    }
}

fn show_suggestion(c: &SlashCommandSpec) -> (r: Vec<Line>)
    ensures
        line_views(r@) == suggestion_item(c@),
{
    let marker: &str = if c.takes_argument {
        "…"
    } else {
        ""
    };
    let name: String = cat2(c.command, marker);
    one_line(
        Line::of(name.as_str(), Style::bold_ink(Tone::Accent)).with(
            "  ",
            Style::ink(Tone::Muted),
        ).with(c.description, Style::ink(Tone::Text)),
    )
}

impl App {
    /// Draws the suggestions above the composer.
    pub fn render_slash_suggestions(&self, picture: &mut Picture, input_area: Area)
        requires
            input_area.fits(),
            input_area.y < u16::MAX,
        ensures
            final(picture)@ == suggestions_drawn(old(picture)@, self@, input_area),
    {
        let list: Vec<SlashCommandSpec> = filtered_slash_suggestions(self.input.text.as_str());
        let ghost all = slash_views(list@);
        assert(all.len() == list@.len());
        if list.len() == 0 || self.modal.is_some() || self.browses() {
            return;
        }
        let visible: usize = if list.len() <= 5 {
            list.len()
        } else {
            5
        };
        let height: u16 = visible as u16 + 2;
        let area: Area = Area {
            x: input_area.x,
            y: input_area.y.saturating_sub(height - 1),
            width: if input_area.width <= 72 {
                input_area.width
            } else {
                72
            },
            height,
        };
        assert(area == suggestions_area(input_area, visible as nat));
        let mut items: Vec<Vec<Line>> = Vec::new();
        let mut i: usize = 0;
        while i < visible
            invariant
                i <= visible <= list@.len(),
                all == slash_views(list@),
                items@.len() == i,
                forall|k: int|
                    0 <= k < i ==> line_views((#[trigger] items@[k])@) == suggestion_item(all[k]),
            decreases visible - i,
        {
            assert(all[i as int] == list@[i as int]@);
            items.push(show_suggestion(&list[i]));
            i += 1;
        }
        assert(item_views(items@) =~= Seq::new(visible as nat, |k: int| suggestion_item(all[k])));
        let selected: usize = if self.slash_suggestion_idx < visible {
            self.slash_suggestion_idx
        } else {
            visible - 1
        };
        picture.draw(Widget::Clear, area);
        picture.draw(
            Widget::List {
                items,
                symbol: "▸ ",
                selected,
                panel: Panel::new(
                    Line::of(" / commands ", Style::ink(Tone::Accent)).with(
                        " TAB/ENTER ",
                        Style::ink_on(Tone::Canvas, Tone::Accent2),
                    ),
                    Tone::PanelAlt,
                    Tone::BorderFocus,
                ),
            },
            area,
        );
    }
}

// ---------------------------------------------------------------------------
// Footer
// ---------------------------------------------------------------------------

/// The colour of a status.
pub open spec fn status_tone(status: Seq<char>) -> Tone {
    let low = lower(status);
    if contains(low, "fail"@) || contains(low, "error"@) || contains(low, "invalid"@) {
        Tone::Danger
    } else if contains(low, "saved"@) || contains(low, "completed"@) || contains(low, "received"@) {
        Tone::Success
    } else {
        Tone::Warning
    }
}

/// The shortcuts of the footer.
pub open spec fn shortcuts_line() -> LineView {
    no_spans().push(span("Tab"@, ink(Tone::Accent))).push(
        span(" focus  "@, ink(Tone::Muted)),
    ).push(span("Enter"@, ink(Tone::Accent))).push(span(" send/open  "@, ink(Tone::Muted))).push(
        span("Ctrl+N"@, ink(Tone::Accent)),
    ).push(span(" new  "@, ink(Tone::Muted))).push(span("Ctrl+H"@, ink(Tone::Accent))).push(
        span(" help  "@, ink(Tone::Muted)),
    ).push(span("Esc"@, ink(Tone::Accent))).push(span(" quit"@, ink(Tone::Muted)))
}

/// The footer.
pub open spec fn footer_view(s: AppView) -> WidgetView {
    text_widget(
        lines_of_two(
            shortcuts_line(),
            no_spans().push(span("STATUS  "@, ink(Tone::Muted))).push(
                span(s.status, bold_ink(status_tone(s.status))),
            ),
        ),
        bare_panel(Tone::PanelAlt, Tone::Border),
    )
}

/// The colour of a status whose text in lower case is `low`.
pub fn tone_of_status(low: &str) -> (r: Tone)
    ensures
        r == (if contains(low@, "fail"@) || contains(low@, "error"@) || contains(low@, "invalid"@) {
            Tone::Danger
        } else if contains(low@, "saved"@) || contains(low@, "completed"@) || contains(
            low@,
            "received"@,
        ) {
            Tone::Success
        } else {
            Tone::Warning
        }),
{
    if has(low, "fail") || has(low, "error") || has(low, "invalid") {
        Tone::Danger
    } else if has(low, "saved") || has(low, "completed") || has(low, "received") {
        Tone::Success
    } else {
        Tone::Warning
    }
}

impl App {
    /// The footer: the shortcuts and the status.
    pub fn render_footer(&self) -> (r: Widget)
        ensures
            r@ == footer_view(self@),
    {
        let low: String = to_lowercase(self.status.as_str());
        let tone: Tone = tone_of_status(low.as_str());
        let shortcuts: Line = Line::of("Tab", Style::ink(Tone::Accent)).with(
            " focus  ",
            Style::ink(Tone::Muted),
        ).with("Enter", Style::ink(Tone::Accent)).with(
            " send/open  ",
            Style::ink(Tone::Muted),
        ).with("Ctrl+N", Style::ink(Tone::Accent)).with(" new  ", Style::ink(Tone::Muted)).with(
            "Ctrl+H",
            Style::ink(Tone::Accent),
        ).with(" help  ", Style::ink(Tone::Muted)).with("Esc", Style::ink(Tone::Accent)).with(
            " quit",
            Style::ink(Tone::Muted),
        );
        let status: Line = Line::of("STATUS  ", Style::ink(Tone::Muted)).with(
            self.status.as_str(),
            Style::bold_ink(tone),
        );
        Widget::Text {
            lines: two_lines(shortcuts, status),
            wrap: false,
            scroll: 0,
            panel: Panel::bare(Tone::PanelAlt, Tone::Border),
        }
    }
}

} // verus!
