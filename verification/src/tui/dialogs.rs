//! What the dialogs of the full-screen chat show.

use vstd::prelude::*;

use crate::cli::ModelScope;
use crate::commands::{provider_name, provider_text};
use crate::json::{price_shown, show_price};
use crate::lines::{lines, lines_of, repeat, repeated};
use crate::model_mode::{
    mode_text, presets, web_mode_display, web_mode_presets, PresetView, WebMode, WebModePreset,
};
use crate::number::{decimal, write_decimal};
use crate::text::{cat2, cat3, chars_of, opt_or_empty, same, views};
use crate::tui::app::{ApiKeyModal, ApiKeyView};
use crate::tui::editor::byte_len;
use crate::tui::layout::{cursor_column, place_cursor, Area};
use crate::tui::paint::{
    add_notice, bare_panel, item_views, lines_of_three, lines_of_two, or_notice, panel, text_widget,
    three_lines, two_lines, with_cursor, with_stroke, wrapped_widget, Panel, Picture, PictureView,
    Widget, WidgetView,
};
use crate::tui::pickers::{
    chosen_depth, chosen_output, model_views, models_found, provider_at, provider_views, ModelEntry,
    ModelPickerModal, ModelPickerView, ModelView, ProviderEntry, ProviderPickerModal,
    ProviderPickerView, ProviderView, SearchView, WebSearchModal,
};
use crate::tui::style::{
    add_line, bold_ink, bold_ink_on, ink, ink_on, line_views, no_spans, shortened, span,
    truncate_middle, Line, LineView, Style, Tone,
};

verus! {

/// A title with a mark behind it.
pub open spec fn marked_title(title: Seq<char>, mark: Seq<char>, tone: Tone) -> LineView {
    no_spans().push(span(title, ink(Tone::Accent))).push(span(mark, ink_on(Tone::Canvas, tone)))
}

fn mark_title(title: &str, mark: &str, tone: Tone) -> (r: Line)
    ensures
        r@ == marked_title(title@, mark@, tone),
{
    Line::of(title, Style::ink(Tone::Accent)).with(mark, Style::ink_on(Tone::Canvas, tone))
}

/// A line that says something in one colour.
pub open spec fn said_in(text: Seq<char>, tone: Tone) -> LineView {
    no_spans().push(span(text, ink(tone)))
}

fn say_in(text: &str, tone: Tone) -> (r: Line)
    ensures
        r@ == said_in(text@, tone),
{
    Line::of(text, Style::ink(tone))
}

/// The last number of a list, or 0; an element at most that far down.
pub open spec fn at_most_last(selected: nat, len: nat) -> nat {
    if len == 0 {
        0
    } else if selected < len {
        selected
    } else {
        (len - 1) as nat
    }
}

fn cap_at_last(selected: usize, len: usize) -> (r: usize)
    ensures
        r == at_most_last(selected as nat, len as nat),
{
    if len == 0 {
        0
    } else if selected < len {
        selected
    } else {
        len - 1
    }
}

// ---------------------------------------------------------------------------
// API key
// ---------------------------------------------------------------------------

/// What is shown of a key: stars, one for each byte, unless it is revealed.
pub open spec fn key_shown(m: ApiKeyView) -> Seq<char> {
    if m.reveal {
        m.value.text
    } else {
        repeated('*', byte_len(m.value.text))
    }
}

/// The dialog that asks for an API key.
pub open spec fn api_key_view(m: ApiKeyView) -> WidgetView {
    wrapped_widget(
        lines_of_three(
            no_spans().push(
                span("NanoGPT API key is required to continue."@, bold_ink(Tone::Text)),
            ),
            no_spans(),
            no_spans().push(span("Press "@, ink(Tone::Muted))).push(
                span("Enter"@, ink(Tone::Accent)),
            ).push(span(" to save. "@, ink(Tone::Muted))).push(
                span("Ctrl+R"@, ink(Tone::Accent)),
            ).push(span(" toggles reveal."@, ink(Tone::Muted))),
        ).push(no_spans()).push(
            no_spans().push(span("API Key  "@, ink(Tone::Warning))).push(
                span(key_shown(m), ink(Tone::Text)),
            ),
        ),
        panel(
            no_spans().push(span(" Access Setup "@, ink(Tone::Accent))).push(
                span(" REQUIRED "@, bold_ink_on(Tone::Canvas, Tone::Warning)),
            ),
            Tone::PanelAlt,
            Tone::BorderFocus,
        ),
    )
}

/// A picture with the dialog that asks for an API key.
pub open spec fn api_key_drawn(p: PictureView, m: ApiKeyView, area: Area) -> PictureView {
    with_cursor(
        with_stroke(with_stroke(p, WidgetView::Clear, area), api_key_view(m), area),
        cursor_column(area, 9, m.value.cursor),
        (area.y + 5) as nat,
    )
}

/// Draws the dialog that asks for an API key.
pub fn render_api_key_modal(picture: &mut Picture, m: &ApiKeyModal, area: Area)
    requires
        area.fits(),
        area.y + 5 <= u16::MAX,
    ensures
        final(picture)@ == api_key_drawn(
            old(picture)@,
            ApiKeyView { value: m.value@, reveal: m.reveal },
            area,
        ),
{
    let text: &str = m.value.text.as_str();
    let shown: String = if m.reveal {
        text.to_owned()
    } else {
        let bytes: &[u8] = text.as_bytes();
        repeat('*', bytes.len())
    };
    let mut body: Vec<Line> = three_lines(
        Line::of("NanoGPT API key is required to continue.", Style::bold_ink(Tone::Text)),
        Line::new(),
        Line::of("Press ", Style::ink(Tone::Muted)).with("Enter", Style::ink(Tone::Accent)).with(
            " to save. ",
            Style::ink(Tone::Muted),
        ).with("Ctrl+R", Style::ink(Tone::Accent)).with(
            " toggles reveal.",
            Style::ink(Tone::Muted),
        ),
    );
    add_line(&mut body, Line::new());
    let key: Line = Line::of("API Key  ", Style::ink(Tone::Warning)).with(
        shown.as_str(),
        Style::ink(Tone::Text),
    );
    add_line(&mut body, key);
    picture.draw(Widget::Clear, area);
    picture.draw(
        Widget::Text {
            lines: body,
            wrap: true,
            scroll: 0,
            panel: Panel::new(
                Line::of(" Access Setup ", Style::ink(Tone::Accent)).with(
                    " REQUIRED ",
                    Style::bold_ink_on(Tone::Canvas, Tone::Warning),
                ),
                Tone::PanelAlt,
                Tone::BorderFocus,
            ),
        },
        area,
    );
    let x: u16 = place_cursor(area, 9, m.value.cursor);
    picture.put_cursor(x, area.y + 5);
}

/// A key that is not revealed is not shown: what is drawn depends on its length alone.
pub proof fn law_key_stays_hidden(a: ApiKeyView, b: ApiKeyView, p: PictureView, area: Area)
    requires
        !a.reveal,
        !b.reveal,
        byte_len(a.value.text) == byte_len(b.value.text),
        a.value.cursor == b.value.cursor,
    ensures
        api_key_drawn(p, a, area) == api_key_drawn(p, b, area),
{
}

// ---------------------------------------------------------------------------
// Models
// ---------------------------------------------------------------------------

/// The name of a catalog.
pub open spec fn scope_text(scope: ModelScope) -> Seq<char> {
    match scope {
        ModelScope::Canonical => "canonical"@,
        ModelScope::Subscription => "subscription"@,
        ModelScope::Paid => "paid"@,
    }
}

/// A model in the model picker.
pub open spec fn model_item(m: ModelView) -> Seq<LineView> {
    lines_of_two(
        no_spans().push(span(shortened(m.id, 62), bold_ink(Tone::Text))).push(
            span("  "@, ink(Tone::Muted)),
        ).push(
            span(
                "["@ + (match m.subscription_included {
                    Some(true) => "subscription"@,
                    Some(false) => "paygo"@,
                    None => "sub=?"@,
                }) + "]"@,
                ink(Tone::Warning),
            ),
        ),
        no_spans().push(span(m.owned_by, ink(Tone::Accent))).push(
            span("  •  "@, ink(Tone::Muted)),
        ).push(span(opt_or_empty(m.category), ink(Tone::Muted))),
    )
}

/// The models in the model picker.
pub open spec fn model_items(list: Seq<ModelView>) -> Seq<Seq<LineView>> {
    Seq::new(list.len(), |i: int| model_item(list[i]))
}

/// What stands above the models.
pub open spec fn model_header(m: ModelPickerView) -> WidgetView {
    text_widget(
        lines_of_three(
            no_spans().push(span("Scope  "@, ink(Tone::Muted))).push(
                span(scope_text(m.scope), bold_ink(Tone::Accent2)),
            ).push(span("  •  Models  "@, ink(Tone::Muted))).push(
                span(decimal(models_found(m.models, m.search.text).len()), ink(Tone::Accent)),
            ).push(span("  •  Tab cycles scope"@, ink(Tone::Muted))),
            no_spans().push(span("Search  "@, ink(Tone::Warning))).push(
                span(m.search.text, ink(Tone::Text)),
            ),
            said_in("Enter select | P provider options | Esc close"@, Tone::Muted),
        ),
        panel(
            marked_title(" Model Gallery "@, " BROWSE "@, Tone::Accent2),
            Tone::PanelAlt,
            Tone::BorderFocus,
        ),
    )
}

/// The models below.
pub open spec fn model_list(m: ModelPickerView) -> WidgetView {
    let found = models_found(m.models, m.search.text);
    WidgetView::List {
        items: or_notice(
            model_items(found),
            said_in("No models matched your search"@, Tone::Muted),
        ),
        symbol: "▸ "@,
        selected: at_most_last(m.selected, found.len()),
        panel: bare_panel(Tone::Panel, Tone::Border),
    }
}

/// A picture with the model picker.
pub open spec fn model_picker_drawn(
    p: PictureView,
    m: ModelPickerView,
    area: Area,
    head: Area,
    list: Area,
) -> PictureView {
    with_cursor(
        with_stroke(
            with_stroke(with_stroke(p, WidgetView::Clear, area), model_header(m), head),
            model_list(m),
            list,
        ),
        cursor_column(head, 8, m.search.cursor),
        (head.y + 2) as nat,
    )
}

fn show_model(m: &ModelEntry) -> (r: Vec<Line>)
    ensures
        line_views(r@) == model_item(m@),
{
    let sub: &str = match m.subscription_included {
        Some(v) => if v {
            "subscription"
        } else {
            "paygo"
        },
        None => "sub=?",
    };
    let id: String = truncate_middle(m.id.as_str(), 62);
    let tag: String = cat3("[", sub, "]");
    let first: Line = Line::of(id.as_str(), Style::bold_ink(Tone::Text)).with(
        "  ",
        Style::ink(Tone::Muted),
    ).with(tag.as_str(), Style::ink(Tone::Warning));
    let category: String = match &m.category {
        Some(text) => text.clone(),
        None => String::new(),
    };
    let second: Line = Line::of(m.owned_by.as_str(), Style::ink(Tone::Accent)).with(
        "  •  ",
        Style::ink(Tone::Muted),
    ).with(category.as_str(), Style::ink(Tone::Muted));
    two_lines(first, second)
}

/// Draws the model picker.
pub fn render_model_picker_modal(
    picture: &mut Picture,
    m: &ModelPickerModal,
    area: Area,
    head: Area,
    list: Area,
)
    requires
        head.fits(),
        head.y + 2 <= u16::MAX,
    ensures
        final(picture)@ == model_picker_drawn(old(picture)@, m@, area, head, list),
{
    let found: Vec<ModelEntry> = m.filtered_models();
    let ghost all = model_views(found@);
    assert(all.len() == found@.len());
    let scope: &str = match m.scope {
        ModelScope::Canonical => "canonical",
        ModelScope::Subscription => "subscription",
        ModelScope::Paid => "paid",
    };
    let count: String = write_decimal(found.len() as u64);
    let header: Widget = Widget::Text {
        lines: three_lines(
            Line::of("Scope  ", Style::ink(Tone::Muted)).with(
                scope,
                Style::bold_ink(Tone::Accent2),
            ).with("  •  Models  ", Style::ink(Tone::Muted)).with(
                count.as_str(),
                Style::ink(Tone::Accent),
            ).with("  •  Tab cycles scope", Style::ink(Tone::Muted)),
            Line::of("Search  ", Style::ink(Tone::Warning)).with(
                m.search.text.as_str(),
                Style::ink(Tone::Text),
            ),
            say_in("Enter select | P provider options | Esc close", Tone::Muted),
        ),
        wrap: false,
        scroll: 0,
        panel: Panel::new(
            mark_title(" Model Gallery ", " BROWSE ", Tone::Accent2),
            Tone::PanelAlt,
            Tone::BorderFocus,
        ),
    };
    let mut items: Vec<Vec<Line>> = Vec::new();
    let mut i: usize = 0;
    while i < found.len()
        invariant
            i <= found@.len(),
            all == model_views(found@),
            items@.len() == i,
            forall|k: int|
                0 <= k < i ==> line_views((#[trigger] items@[k])@) == model_item(all[k]),
        decreases found@.len() - i,
    {
        assert(all[i as int] == found@[i as int]@);
        items.push(show_model(&found[i]));
        i += 1;
    }
    assert(item_views(items@) =~= model_items(all));
    picture.draw(Widget::Clear, area);
    picture.draw(header, head);
    picture.draw(
        Widget::List {
            items: add_notice(items, say_in("No models matched your search", Tone::Muted)),
            symbol: "▸ ",
            selected: cap_at_last(m.selected, found.len()),
            panel: Panel::bare(Tone::Panel, Tone::Border),
        },
        list,
    );
    let x: u16 = place_cursor(head, 8, m.search.cursor);
    picture.put_cursor(x, head.y + 2);
}

// ---------------------------------------------------------------------------
// Providers
// ---------------------------------------------------------------------------

/// What is shown of a price.
pub open spec fn price_or_dash(price: Option<Seq<char>>) -> Seq<char> {
    match price {
        Some(number) => match price_shown(number) {
            Some(text) => text,
            None => "-"@,
        },
        None => "-"@,
    }
}

/// A provider in the provider picker, with its prices as they are shown.
pub open spec fn provider_item(p: ProviderView, input: Seq<char>, output: Seq<char>) -> Seq<LineView> {
    lines_of_two(
        no_spans().push(span(p.provider, bold_ink(Tone::Text))).push(
            span("  "@, ink(Tone::Muted)),
        ).push(
            if p.available {
                span("available"@, ink(Tone::Success))
            } else {
                span("unavailable"@, ink(Tone::Warning))
            },
        ),
        no_spans().push(span("input/1k "@, ink(Tone::Muted))).push(
            span(input, ink(Tone::Accent)),
        ).push(span("  output/1k "@, ink(Tone::Muted))).push(span(output, ink(Tone::Accent2))),
    )
}

/// The providers in the provider picker.
pub open spec fn provider_items(list: Seq<ProviderView>) -> Seq<Seq<LineView>> {
    Seq::new(
        list.len(),
        |i: int|
            provider_item(
                list[i],
                price_or_dash(list[i].input_per_1k),
                price_or_dash(list[i].output_per_1k),
            ),
    )
}

/// What stands at the top of the provider picker.
pub open spec fn provider_lines(m: ProviderPickerView) -> Seq<LineView> {
    lines_of_two(
        no_spans().push(span("Model  "@, ink(Tone::Muted))).push(
            span(shortened(m.model_id, 72), bold_ink(Tone::Text)),
        ),
        said_in("Enter selects provider | C clears override | Esc closes"@, Tone::Muted),
    )
}

/// A message as one line: the pieces between its line breaks stand side by side.
pub open spec fn message_line(text: Seq<char>) -> LineView {
    Seq::new(lines_of(text).len(), |i: int| span(lines_of(text)[i], ink(Tone::Warning)))
}

/// The provider picker of a model whose provider cannot be picked.
pub open spec fn providers_disabled(m: ProviderPickerView) -> WidgetView {
    wrapped_widget(
        provider_lines(m).push(no_spans()).push(
            message_line(
                match m.message {
                    Some(text) => text,
                    None => "Provider selection is not supported"@,
                },
            ),
        ),
        panel(
            marked_title(" Provider Routing "@, " DISABLED "@, Tone::Warning),
            Tone::PanelAlt,
            Tone::Warning,
        ),
    )
}

/// What stands above the providers.
pub open spec fn provider_header(m: ProviderPickerView) -> WidgetView {
    wrapped_widget(
        provider_lines(m),
        panel(
            marked_title(" Provider Routing "@, " ACTIVE "@, Tone::Accent2),
            Tone::PanelAlt,
            Tone::BorderFocus,
        ),
    )
}

/// The providers below.
pub open spec fn provider_list(m: ProviderPickerView) -> WidgetView {
    WidgetView::List {
        items: or_notice(
            provider_items(m.providers),
            said_in("No providers returned"@, Tone::Muted),
        ),
        symbol: "▸ "@,
        selected: at_most_last(m.selected, m.providers.len()),
        panel: bare_panel(Tone::Panel, Tone::Border),
    }
}

/// A picture with the provider picker of a model whose provider can be picked.
pub open spec fn provider_picker_drawn(
    p: PictureView,
    m: ProviderPickerView,
    area: Area,
    head: Area,
    list: Area,
) -> PictureView {
    with_stroke(
        with_stroke(with_stroke(p, WidgetView::Clear, area), provider_header(m), head),
        provider_list(m),
        list,
    )
}

/// A picture with the provider picker of a model whose provider cannot be picked.
pub open spec fn providers_disabled_drawn(
    p: PictureView,
    m: ProviderPickerView,
    area: Area,
) -> PictureView {
    with_stroke(with_stroke(p, WidgetView::Clear, area), providers_disabled(m), area)
}

fn show_price_or_dash(price: &Option<String>) -> (r: String)
    ensures
        r@ == price_or_dash(crate::text::opt_view(*price)),
{
    match price {
        Some(number) => match show_price(number.as_str()) {
            Some(text) => text,
            None => "-".to_owned(),
        },
        None => "-".to_owned(),
    }
}

/// A provider in the provider picker, with its prices as they are shown.
pub fn show_provider(p: &ProviderEntry, input: &str, output: &str) -> (r: Vec<Line>)
    ensures
        line_views(r@) == provider_item(p@, input@, output@),
{
    let (state, tone): (&str, Tone) = if p.available {
        ("available", Tone::Success)
    } else {
        ("unavailable", Tone::Warning)
    };
    two_lines(
        Line::of(p.provider.as_str(), Style::bold_ink(Tone::Text)).with(
            "  ",
            Style::ink(Tone::Muted),
        ).with(state, Style::ink(tone)),
        Line::of("input/1k ", Style::ink(Tone::Muted)).with(input, Style::ink(Tone::Accent)).with(
            "  output/1k ",
            Style::ink(Tone::Muted),
        ).with(output, Style::ink(Tone::Accent2)),
    )
}

fn head_providers(m: &ProviderPickerModal) -> (r: Vec<Line>)
    ensures
        line_views(r@) == provider_lines(m@),
{
    let id: String = truncate_middle(m.model_id.as_str(), 72);
    two_lines(
        Line::of("Model  ", Style::ink(Tone::Muted)).with(
            id.as_str(),
            Style::bold_ink(Tone::Text),
        ),
        say_in("Enter selects provider | C clears override | Esc closes", Tone::Muted),
    )
}

fn write_message(text: &str) -> (r: Line)
    ensures
        r@ == message_line(text@),
{
    let parts: Vec<String> = lines(text);
    let ghost all = lines_of(text@);
    let mut line: Line = Line::new();
    let mut i: usize = 0;
    while i < parts.len()
        invariant
            i <= parts@.len(),
            all == lines_of(text@),
            views(parts@) == all,
            line@ =~= Seq::new(i as nat, |k: int| span(all[k], ink(Tone::Warning))),
        decreases parts@.len() - i,
    {
        assert(views(parts@)[i as int] == parts@[i as int]@);
        line.add_span(parts[i].as_str(), Style::ink(Tone::Warning));
        i += 1;
    }
    assert(views(parts@).len() == parts@.len());
    line
}

/// Draws the provider picker of a model whose provider cannot be picked.
pub fn render_providers_disabled(picture: &mut Picture, m: &ProviderPickerModal, area: Area)
    ensures
        final(picture)@ == providers_disabled_drawn(old(picture)@, m@, area),
{
    let mut body: Vec<Line> = head_providers(m);
    add_line(&mut body, Line::new());
    let message: Line = match &m.message {
        Some(text) => write_message(text.as_str()),
        None => write_message("Provider selection is not supported"),
    };
    add_line(&mut body, message);
    picture.draw(Widget::Clear, area);
    picture.draw(
        Widget::Text {
            lines: body,
            wrap: true,
            scroll: 0,
            panel: Panel::new(
                mark_title(" Provider Routing ", " DISABLED ", Tone::Warning),
                Tone::PanelAlt,
                Tone::Warning,
            ),
        },
        area,
    );
}

/// Draws the provider picker of a model whose provider can be picked.
pub fn render_provider_picker_modal(
    picture: &mut Picture,
    m: &ProviderPickerModal,
    area: Area,
    head: Area,
    list: Area,
)
    ensures
        final(picture)@ == provider_picker_drawn(old(picture)@, m@, area, head, list),
{
    let header: Widget = Widget::Text {
        lines: head_providers(m),
        wrap: true,
        scroll: 0,
        panel: Panel::new(
            mark_title(" Provider Routing ", " ACTIVE ", Tone::Accent2),
            Tone::PanelAlt,
            Tone::BorderFocus,
        ),
    };
    let ghost all = provider_views(m.providers@);
    let ghost want = provider_items(all);
    let mut items: Vec<Vec<Line>> = Vec::new();
    let mut i: usize = 0;
    while i < m.providers.len()
        invariant
            i <= m.providers@.len(),
            all == provider_views(m.providers@),
            want == provider_items(all),
            items@.len() == i,
            forall|k: int| 0 <= k < i ==> line_views((#[trigger] items@[k])@) == want[k],
        decreases m.providers@.len() - i,
    {
        assert(all[i as int] == m.providers@[i as int]@);
        let input: String = show_price_or_dash(&m.providers[i].input_per_1k);
        let output: String = show_price_or_dash(&m.providers[i].output_per_1k);
        items.push(show_provider(&m.providers[i], input.as_str(), output.as_str()));
        i += 1;
    }
    assert(item_views(items@) =~= want);
    picture.draw(Widget::Clear, area);
    picture.draw(header, head);
    picture.draw(
        Widget::List {
            items: add_notice(items, say_in("No providers returned", Tone::Muted)),
            symbol: "▸ ",
            selected: cap_at_last(m.selected, m.providers.len()),
            panel: Panel::bare(Tone::Panel, Tone::Border),
        },
        list,
    );
}

// ---------------------------------------------------------------------------
// Web modes
// ---------------------------------------------------------------------------

/// A text filled up with spaces behind it.
pub open spec fn padded(s: Seq<char>, width: nat) -> Seq<char> {
    if s.len() >= width {
        s
    } else {
        s + repeated(' ', (width - s.len()) as nat)
    }
}

/// What a preset puts behind a model.
pub open spec fn preset_suffix(key: Seq<char>) -> Seq<char> {
    if key == "online"@ {
        ":online"@
    } else {
        ":online/"@ + key
    }
}

/// The first entry of the web mode picker.
pub open spec fn off_item() -> Seq<LineView> {
    lines_of_two(
        no_spans().push(span("off"@, bold_ink(Tone::Warning))).push(
            span("  "@, ink(Tone::Muted)),
        ).push(span("disable web search"@, ink(Tone::Text))),
        said_in("Model is sent without :online suffix"@, Tone::Muted),
    )
}

/// A preset in the web mode picker.
pub open spec fn preset_item(preset: PresetView) -> Seq<LineView> {
    lines_of_two(
        no_spans().push(span(padded(preset.provider, 12), bold_ink(Tone::Accent))).push(
            span("  "@, ink(Tone::Muted)),
        ).push(span(preset.mode, ink(Tone::Warning))).push(span("  "@, ink(Tone::Muted))).push(
            span(preset_suffix(preset.key), ink(Tone::Text)),
        ),
        said_in(preset.description, Tone::Muted),
    )
}

/// The entries of the web mode picker.
pub open spec fn mode_items() -> Seq<Seq<LineView>> {
    Seq::new(
        presets().len() + 1,
        |i: int|
            if i == 0 {
                off_item()
            } else {
                preset_item(presets()[i - 1])
            },
    )
}

/// What stands above the web modes.
pub open spec fn mode_header(current: Seq<char>) -> WidgetView {
    text_widget(
        lines_of_two(
            no_spans().push(span("Current  "@, ink(Tone::Muted))).push(
                span(current, bold_ink(Tone::Accent2)),
            ),
            said_in("Enter apply | C set off | Esc close"@, Tone::Muted),
        ),
        panel(
            marked_title(" Web Routing "@, " PROVIDER/MODE "@, Tone::Accent2),
            Tone::PanelAlt,
            Tone::BorderFocus,
        ),
    )
}

/// The web modes below.
pub open spec fn mode_list(selected: nat) -> WidgetView {
    WidgetView::List {
        items: mode_items(),
        symbol: "▸ "@,
        selected: if selected <= presets().len() {
            selected
        } else {
            presets().len()
        },
        panel: bare_panel(Tone::Panel, Tone::Border),
    }
}

/// A picture with the web mode picker.
pub open spec fn web_mode_drawn(
    p: PictureView,
    current: Seq<char>,
    selected: nat,
    area: Area,
    head: Area,
    list: Area,
) -> PictureView {
    with_stroke(
        with_stroke(with_stroke(p, WidgetView::Clear, area), mode_header(current), head),
        mode_list(selected),
        list,
    )
}

fn pad(s: &str, width: usize) -> (r: String)
    ensures
        r@ == padded(s@, width as nat),
{
    let len: usize = chars_of(s).len();
    if len >= width {
        s.to_owned()
    } else {
        let space: String = repeat(' ', width - len);
        cat2(s, space.as_str())
    }
}

fn show_preset(preset: &WebModePreset) -> (r: Vec<Line>)
    ensures
        line_views(r@) == preset_item(preset@),
{
    let suffix: String = if same(preset.key, "online") {
        ":online".to_owned()
    } else {
        cat2(":online/", preset.key)
    };
    let provider: String = pad(preset.provider, 12);
    two_lines(
        Line::of(provider.as_str(), Style::bold_ink(Tone::Accent)).with(
            "  ",
            Style::ink(Tone::Muted),
        ).with(preset.mode, Style::ink(Tone::Warning)).with("  ", Style::ink(Tone::Muted)).with(
            suffix.as_str(),
            Style::ink(Tone::Text),
        ),
        say_in(preset.description, Tone::Muted),
    )
}

/// Draws the web mode picker.
pub fn render_web_mode_picker_modal(
    picture: &mut Picture,
    current: &WebMode,
    selected: usize,
    area: Area,
    head: Area,
    list: Area,
)
    ensures
        final(picture)@ == web_mode_drawn(
            old(picture)@,
            mode_text(current@),
            selected as nat,
            area,
            head,
            list,
        ),
{
    let all: &'static [WebModePreset] = web_mode_presets();
    let shown: String = web_mode_display(current);
    let header: Widget = Widget::Text {
        lines: two_lines(
            Line::of("Current  ", Style::ink(Tone::Muted)).with(
                shown.as_str(),
                Style::bold_ink(Tone::Accent2),
            ),
            say_in("Enter apply | C set off | Esc close", Tone::Muted),
        ),
        wrap: false,
        scroll: 0,
        panel: Panel::new(
            mark_title(" Web Routing ", " PROVIDER/MODE ", Tone::Accent2),
            Tone::PanelAlt,
            Tone::BorderFocus,
        ),
    };
    let mut items: Vec<Vec<Line>> = Vec::new();
    items.push(
        two_lines(
            Line::of("off", Style::bold_ink(Tone::Warning)).with(
                "  ",
                Style::ink(Tone::Muted),
            ).with("disable web search", Style::ink(Tone::Text)),
            say_in("Model is sent without :online suffix", Tone::Muted),
        ),
    );
    let mut i: usize = 0;
    while i < all.len()
        invariant
            i <= all@.len() == presets().len(),
            forall|k: int| 0 <= k < all@.len() ==> (#[trigger] all@[k])@ == presets()[k],
            items@.len() == i + 1,
            forall|k: int|
                0 <= k <= i ==> line_views((#[trigger] items@[k])@) == mode_items()[k],
        decreases all@.len() - i,
    {
        assert(all@[i as int]@ == presets()[i as int]);
        items.push(show_preset(&all[i]));
        i += 1;
    }
    assert(item_views(items@) =~= mode_items());
    let at: usize = if selected <= all.len() {
        selected
    } else {
        all.len()
    };
    picture.draw(Widget::Clear, area);
    picture.draw(header, head);
    picture.draw(
        Widget::List {
            items,
            symbol: "▸ ",
            selected: at,
            panel: Panel::bare(Tone::Panel, Tone::Border),
        },
        list,
    );
}

// ---------------------------------------------------------------------------
// Web search
// ---------------------------------------------------------------------------

/// What stands at the top of the dialog of web searches.
pub open spec fn search_header(m: SearchView) -> WidgetView {
    text_widget(
        lines_of_three(
            no_spans().push(span("Provider  "@, ink(Tone::Muted))).push(
                span(provider_text(provider_at(m.provider_idx)), ink(Tone::Accent)),
            ).push(span("  |  Depth  "@, ink(Tone::Muted))).push(
                span(chosen_depth(m), ink(Tone::Accent2)),
            ),
            no_spans().push(span("Output  "@, ink(Tone::Muted))).push(
                span(chosen_output(m), ink(Tone::Warning)),
            ).push(span("  |  Include images  "@, ink(Tone::Muted))).push(
                span(
                    if m.include_images {
                        "yes"@
                    } else {
                        "no"@
                    },
                    ink(Tone::Text),
                ),
            ),
            said_in("Tab provider | D depth | O output | I images"@, Tone::Muted),
        ),
        panel(
            marked_title(" Web Search Lab "@, " LIVE "@, Tone::Accent2),
            Tone::PanelAlt,
            Tone::BorderFocus,
        ),
    )
}

/// The query of a web search.
pub open spec fn search_query(m: SearchView) -> WidgetView {
    text_widget(
        lines_of_three(
            if m.query.text.len() == 0 {
                said_in("Type your search query..."@, Tone::Muted)
            } else {
                said_in(m.query.text, Tone::Text)
            },
            no_spans(),
            said_in("Enter executes search | Esc closes"@, Tone::Muted),
        ),
        panel(said_in(" Query "@, Tone::Warning), Tone::Panel, Tone::Border),
    )
}

/// What a web search gave.
pub open spec fn search_result(m: SearchView) -> WidgetView {
    WidgetView::Plain {
        text: m.result,
        scroll: m.result_scroll,
        panel: panel(said_in(" Results "@, Tone::Accent2), Tone::Panel, Tone::Border),
    }
}

/// A picture with the dialog of web searches.
pub open spec fn web_search_drawn(
    p: PictureView,
    m: SearchView,
    area: Area,
    head: Area,
    query: Area,
    result: Area,
) -> PictureView {
    with_cursor(
        with_stroke(
            with_stroke(
                with_stroke(with_stroke(p, WidgetView::Clear, area), search_header(m), head),
                search_query(m),
                query,
            ),
            search_result(m),
            result,
        ),
        cursor_column(query, 0, m.query.cursor),
        (query.y + 1) as nat,
    )
}

/// Draws the dialog of web searches.
pub fn render_web_search_modal(
    picture: &mut Picture,
    m: &WebSearchModal,
    area: Area,
    head: Area,
    query: Area,
    result: Area,
)
    requires
        m.well_formed(),
        query.fits(),
        query.y < u16::MAX,
    ensures
        final(picture)@ == web_search_drawn(old(picture)@, m@, area, head, query, result),
{
    let images: &str = if m.include_images {
        "yes"
    } else {
        "no"
    };
    let header: Widget = Widget::Text {
        lines: three_lines(
            Line::of("Provider  ", Style::ink(Tone::Muted)).with(
                provider_name(m.provider()),
                Style::ink(Tone::Accent),
            ).with("  |  Depth  ", Style::ink(Tone::Muted)).with(
                m.depth(),
                Style::ink(Tone::Accent2),
            ),
            Line::of("Output  ", Style::ink(Tone::Muted)).with(
                m.output_type(),
                Style::ink(Tone::Warning),
            ).with("  |  Include images  ", Style::ink(Tone::Muted)).with(
                images,
                Style::ink(Tone::Text),
            ),
            say_in("Tab provider | D depth | O output | I images", Tone::Muted),
        ),
        wrap: false,
        scroll: 0,
        panel: Panel::new(
            mark_title(" Web Search Lab ", " LIVE ", Tone::Accent2),
            Tone::PanelAlt,
            Tone::BorderFocus,
        ),
    };
    let typed: Line = if m.query.text.as_str().is_empty() {
        say_in("Type your search query...", Tone::Muted)
    } else {
        say_in(m.query.text.as_str(), Tone::Text)
    };
    let asked: Widget = Widget::Text {
        lines: three_lines(
            typed,
            Line::new(),
            say_in("Enter executes search | Esc closes", Tone::Muted),
        ),
        wrap: false,
        scroll: 0,
        panel: Panel::new(say_in(" Query ", Tone::Warning), Tone::Panel, Tone::Border),
    };
    picture.draw(Widget::Clear, area);
    picture.draw(header, head);
    picture.draw(asked, query);
    picture.draw(
        Widget::Plain {
            text: m.result.clone(),
            scroll: m.result_scroll,
            panel: Panel::new(say_in(" Results ", Tone::Accent2), Tone::Panel, Tone::Border),
        },
        result,
    );
    let x: u16 = place_cursor(query, 0, m.query.cursor);
    picture.put_cursor(x, query.y + 1);
}

// ---------------------------------------------------------------------------
// Help
// ---------------------------------------------------------------------------

/// The guide to keys and commands.
pub open spec fn help_text() -> Seq<char> {
    "Global\n  Esc / Ctrl+C  quit\n  Tab           switch focus\n  Ctrl+N        new conversation\n  Ctrl+R        reload conversations\n  Ctrl+S        save conversation\n  Ctrl+M        open model gallery\n  Ctrl+P        provider routing for current model\n  Ctrl+G        web provider/mode selector\n  Ctrl+W        open web search lab\n\nConversations pane\n  Up/Down       select conversation\n  Enter         open selected\n  D / Delete    delete selected\n\nComposer pane\n  Enter         send message\n  /help /model /webmode /system /clear /save /history\n\nPress Esc to close."@
}

/// A picture with the guide.
pub open spec fn help_drawn(p: PictureView, area: Area) -> PictureView {
    with_stroke(
        with_stroke(p, WidgetView::Clear, area),
        WidgetView::Plain {
            text: help_text(),
            scroll: 0,
            panel: panel(
                marked_title(" Command Guide "@, " HELP "@, Tone::Accent2),
                Tone::PanelAlt,
                Tone::BorderFocus,
            ),
        },
        area,
    )
}

/// Draws the guide.
pub fn render_help_modal(picture: &mut Picture, area: Area)
    ensures
        final(picture)@ == help_drawn(old(picture)@, area),
{
    picture.draw(Widget::Clear, area);
    picture.draw(
        Widget::Plain {
            text: "Global\n  Esc / Ctrl+C  quit\n  Tab           switch focus\n  Ctrl+N        new conversation\n  Ctrl+R        reload conversations\n  Ctrl+S        save conversation\n  Ctrl+M        open model gallery\n  Ctrl+P        provider routing for current model\n  Ctrl+G        web provider/mode selector\n  Ctrl+W        open web search lab\n\nConversations pane\n  Up/Down       select conversation\n  Enter         open selected\n  D / Delete    delete selected\n\nComposer pane\n  Enter         send message\n  /help /model /webmode /system /clear /save /history\n\nPress Esc to close.".to_owned(),
            scroll: 0,
            panel: Panel::new(
                mark_title(" Command Guide ", " HELP ", Tone::Accent2),
                Tone::PanelAlt,
                Tone::BorderFocus,
            ),
        },
        area,
    );
}

} // verus!
