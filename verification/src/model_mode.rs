//! Web routing modes: how a model identifier says that a chat goes through web search.
//!
//! A mode is a suffix of the model identifier, written after a colon: `online`, or `online/` and a
//! provider key.

use vstd::prelude::*;

use crate::letter::{lower, to_lowercase};
use crate::search::{split_at_first, split_once, starts, strip_prefix};
use crate::text::{cat2, cat3, chars_of, same, string_of, trim, trimmed};

verus! {

/// Whether and how chats are routed through web search.
#[derive(Debug, Clone, PartialEq, Eq)]
pub enum WebMode {
    Off,
    Enabled { suffix: String },
}

/// The view of a [`WebMode`].
pub enum ModeView {
    Off,
    Enabled(Seq<char>),
}

impl View for WebMode {
    type V = ModeView;

    open spec fn view(&self) -> ModeView {
        match self {
            WebMode::Off => ModeView::Off,
            WebMode::Enabled { suffix } => ModeView::Enabled(suffix@),
        }
    }
}

/// One of the routings that a picker offers.
#[derive(Debug, Clone, Copy, PartialEq, Eq)]
pub struct WebModePreset {
    pub key: &'static str,
    pub provider: &'static str,
    pub mode: &'static str,
    pub description: &'static str,
}

/// The view of a [`WebModePreset`].
pub struct PresetView {
    pub key: Seq<char>,
    pub provider: Seq<char>,
    pub mode: Seq<char>,
    pub description: Seq<char>,
}

impl View for WebModePreset {
    type V = PresetView;

    open spec fn view(&self) -> PresetView {
        preset_view(self.key@, self.provider@, self.mode@, self.description@)
    }
}

/// A preset from its four texts.
pub open spec fn preset_view(
    key: Seq<char>,
    provider: Seq<char>,
    mode: Seq<char>,
    description: Seq<char>,
) -> PresetView {
    PresetView { key, provider, mode, description }
}

/// The presets, in the order in which a picker shows them.
pub open spec fn presets() -> Seq<PresetView> {
    seq![
        preset_view("online"@, "auto"@, "standard"@, "Default web routing"@),
        preset_view("linkup"@, "linkup"@, "standard"@, "Linkup standard search"@),
        preset_view("linkup-deep"@, "linkup"@, "deep"@, "Linkup deep search"@),
        preset_view("tavily"@, "tavily"@, "standard"@, "Tavily standard search"@),
        preset_view("tavily-deep"@, "tavily"@, "deep"@, "Tavily deep search"@),
        preset_view("brave"@, "brave"@, "standard"@, "Brave standard search"@),
        preset_view("brave-deep"@, "brave"@, "deep"@, "Brave deep search"@),
        preset_view("exa-fast"@, "exa"@, "fast"@, "Exa fast search"@),
        preset_view("exa-auto"@, "exa"@, "auto"@, "Exa auto search"@),
        preset_view("exa-neural"@, "exa"@, "neural"@, "Exa neural search"@),
        preset_view("exa-deep"@, "exa"@, "deep"@, "Exa deep search"@),
        preset_view("kagi"@, "kagi"@, "standard/search"@, "Kagi standard search source"@),
        preset_view("kagi-web"@, "kagi"@, "standard/web"@, "Kagi standard web source"@),
        preset_view("kagi-news"@, "kagi"@, "standard/news"@, "Kagi standard news source"@),
        preset_view("kagi-search"@, "kagi"@, "deep/search"@, "Kagi deep search source"@),
        preset_view("perplexity"@, "perplexity"@, "standard"@, "Perplexity standard search"@),
        preset_view("perplexity-deep"@, "perplexity"@, "deep"@, "Perplexity deep search"@),
        preset_view("valyu"@, "valyu"@, "standard/all"@, "Valyu standard all sources"@),
        preset_view("valyu-deep"@, "valyu"@, "deep/all"@, "Valyu deep all sources"@),
        preset_view("valyu-web"@, "valyu"@, "standard/web"@, "Valyu standard web only"@),
        preset_view("valyu-web-deep"@, "valyu"@, "deep/web"@, "Valyu deep web only"@),
    ]
}

/// Whether `key` is the key of a preset.
pub open spec fn is_preset_key(key: Seq<char>) -> bool {
    exists|i: int| 0 <= i < presets().len() && #[trigger] presets()[i].key == key
}

/// A model identifier without its web routing.
pub open spec fn model_base(model: Seq<char>) -> Seq<char> {
    match split_at_first(model, ":online"@) {
        Some((left, _)) => left,
        None => model,
    }
}

/// The mode that a preset key stands for.
pub open spec fn mode_of_key(key: Seq<char>) -> ModeView {
    if key == "online"@ {
        ModeView::Enabled("online"@)
    } else {
        ModeView::Enabled("online/"@ + key)
    }
}

/// The mode that the start-up flags ask for.
pub open spec fn mode_of_flags(web: bool, deep_web: bool) -> ModeView {
    if deep_web {
        mode_of_key("linkup-deep"@)
    } else if web {
        mode_of_key("online"@)
    } else {
        ModeView::Off
    }
}

/// The mode that a model identifier carries.
pub open spec fn mode_of_model(model: Seq<char>) -> Option<ModeView> {
    match split_at_first(model, ":online"@) {
        Some((_, suffix)) => Some(ModeView::Enabled("online"@ + suffix)),
        None => None,
    }
}

/// The provider key of a mode.
pub open spec fn key_of_mode(mode: ModeView) -> Option<Seq<char>> {
    match mode {
        ModeView::Off => None,
        ModeView::Enabled(suffix) => if suffix == "online"@ {
            Some("online"@)
        } else if starts(suffix, "online/"@) {
            Some(suffix.skip("online/"@.len() as int))
        } else {
            None
        },
    }
}

/// How a mode is shown.
pub open spec fn mode_text(mode: ModeView) -> Seq<char> {
    match mode {
        ModeView::Off => "off"@,
        ModeView::Enabled(_) => match key_of_mode(mode) {
            Some(key) => key,
            None => "online"@,
        },
    }
}

/// A model identifier with its web routing set to `mode`.
pub open spec fn with_mode(model: Seq<char>, mode: ModeView) -> Seq<char> {
    match mode {
        ModeView::Off => model_base(model),
        ModeView::Enabled(suffix) => model_base(model) + ":"@ + suffix,
    }
}

/// A model identifier with the web routing that the start-up flags ask for: where they ask for one, a
/// model that already carries a routing keeps it, and where they ask for none, it goes without.
pub open spec fn model_by_flags(model: Seq<char>, web: bool, deep_web: bool) -> Seq<char> {
    if (web || deep_web) && mode_of_model(model) is Some {
        model
    } else {
        with_mode(model, mode_of_flags(web, deep_web))
    }
}

/// A text without its leading colons.
pub open spec fn without_colons(s: Seq<char>) -> Seq<char>
    decreases s.len(),
{
    if s.len() > 0 && s[0] == ':' {
        without_colons(s.drop_first())
    } else {
        s
    }
}

/// A text without `prefix`, as often as it stands in front.
pub open spec fn without_leading(s: Seq<char>, prefix: Seq<char>) -> Seq<char>
    decreases s.len(),
{
    if prefix.len() > 0 && starts(s, prefix) {
        without_leading(s.skip(prefix.len() as int), prefix)
    } else {
        s
    }
}

/// The separators that a key may be written with, all turned into dashes.
pub open spec fn dashed(s: Seq<char>) -> Seq<char> {
    Seq::new(
        s.len(),
        |i: int|
            if s[i] == '_' || s[i] == '/' || s[i] == ' ' {
                '-'
            } else {
                s[i]
            },
    )
}

/// The preset key that a lower-case argument is read as.
pub open spec fn normal_key(raw: Seq<char>) -> Seq<char> {
    dashed(without_leading(without_colons(raw), "online/"@))
}

/// The mode that the argument of `/webmode` asks for; none where it names no mode.
pub open spec fn mode_of_arg(arg: Seq<char>) -> Option<ModeView> {
    let raw = lower(trimmed(arg));
    if raw.len() == 0 {
        Some(mode_of_key("online"@))
    } else if raw == "off"@ || raw == "none"@ || raw == "disable"@ || raw == "disabled"@ {
        Some(ModeView::Off)
    } else if raw == "on"@ || raw == "standard"@ || raw == "online"@ || raw == "auto"@ {
        Some(mode_of_key("online"@))
    } else if raw == "deep"@ {
        Some(mode_of_key("linkup-deep"@))
    } else if is_preset_key(normal_key(raw)) {
        Some(mode_of_key(normal_key(raw)))
    } else {
        None
    }
}

/// The presets, in the order in which a picker shows them.
pub fn web_mode_presets() -> (r: &'static [WebModePreset])
    ensures
        r@.len() == presets().len(),
        forall|i: int| 0 <= i < r@.len() ==> (#[trigger] r@[i])@ == presets()[i],
{
    &[
        WebModePreset {
            key: "online",
            provider: "auto",
            mode: "standard",
            description: "Default web routing",
        },
        WebModePreset {
            key: "linkup",
            provider: "linkup",
            mode: "standard",
            description: "Linkup standard search",
        },
        WebModePreset {
            key: "linkup-deep",
            provider: "linkup",
            mode: "deep",
            description: "Linkup deep search",
        },
        WebModePreset {
            key: "tavily",
            provider: "tavily",
            mode: "standard",
            description: "Tavily standard search",
        },
        WebModePreset {
            key: "tavily-deep",
            provider: "tavily",
            mode: "deep",
            description: "Tavily deep search",
        },
        WebModePreset {
            key: "brave",
            provider: "brave",
            mode: "standard",
            description: "Brave standard search",
        },
        WebModePreset {
            key: "brave-deep",
            provider: "brave",
            mode: "deep",
            description: "Brave deep search",
        },
        WebModePreset {
            key: "exa-fast",
            provider: "exa",
            mode: "fast",
            description: "Exa fast search",
        },
        WebModePreset {
            key: "exa-auto",
            provider: "exa",
            mode: "auto",
            description: "Exa auto search",
        },
        WebModePreset {
            key: "exa-neural",
            provider: "exa",
            mode: "neural",
            description: "Exa neural search",
        },
        WebModePreset {
            key: "exa-deep",
            provider: "exa",
            mode: "deep",
            description: "Exa deep search",
        },
        WebModePreset {
            key: "kagi",
            provider: "kagi",
            mode: "standard/search",
            description: "Kagi standard search source",
        },
        WebModePreset {
            key: "kagi-web",
            provider: "kagi",
            mode: "standard/web",
            description: "Kagi standard web source",
        },
        WebModePreset {
            key: "kagi-news",
            provider: "kagi",
            mode: "standard/news",
            description: "Kagi standard news source",
        },
        WebModePreset {
            key: "kagi-search",
            provider: "kagi",
            mode: "deep/search",
            description: "Kagi deep search source",
        },
        WebModePreset {
            key: "perplexity",
            provider: "perplexity",
            mode: "standard",
            description: "Perplexity standard search",
        },
        WebModePreset {
            key: "perplexity-deep",
            provider: "perplexity",
            mode: "deep",
            description: "Perplexity deep search",
        },
        WebModePreset {
            key: "valyu",
            provider: "valyu",
            mode: "standard/all",
            description: "Valyu standard all sources",
        },
        WebModePreset {
            key: "valyu-deep",
            provider: "valyu",
            mode: "deep/all",
            description: "Valyu deep all sources",
        },
        WebModePreset {
            key: "valyu-web",
            provider: "valyu",
            mode: "standard/web",
            description: "Valyu standard web only",
        },
        WebModePreset {
            key: "valyu-web-deep",
            provider: "valyu",
            mode: "deep/web",
            description: "Valyu deep web only",
        },
    ]
}

/// The mode that the start-up flags ask for.
pub fn infer_from_flags(web: bool, deep_web: bool) -> (r: WebMode)
    ensures
        r@ == mode_of_flags(web, deep_web),
{
    if deep_web {
        web_mode_from_key("linkup-deep")
    } else if web {
        web_mode_from_key("online")
    } else {
        WebMode::Off
    }
}

/// The mode that a model identifier carries.
pub fn infer_from_model(model: &str) -> (r: Option<WebMode>)
    ensures
        match (r, mode_of_model(model@)) {
            (Some(got), Some(want)) => got@ == want,
            (None, None) => true,
            _ => false,
        },
{
    match split_once(model, ":online") {
        Some((_, suffix)) => {
            if suffix.is_empty() {
                assert("online"@ + suffix@ =~= "online"@);
                return Some(web_mode_from_key("online"));
            }
            Some(WebMode::Enabled { suffix: cat2("online", suffix) })
        },
        None => None,
    }
}

/// Reads the argument of `/webmode`; the error is the usage line.
pub fn parse_web_mode_arg(arg: &str) -> (r: Result<WebMode, String>)
    ensures
        match (r, mode_of_arg(arg@)) {
            (Ok(got), Some(want)) => got@ == want,
            (Err(usage), None) => usage@ == "Usage: /webmode <off|on|deep|provider-mode>"@,
            _ => false,
        },
{
    let lowered: String = to_lowercase(trim(arg));
    let raw: &str = lowered.as_str();
    if raw.is_empty() {
        return Ok(web_mode_from_key("online"));
    }
    if same(raw, "off") || same(raw, "none") || same(raw, "disable") || same(raw, "disabled") {
        return Ok(WebMode::Off);
    }
    if same(raw, "on") || same(raw, "standard") || same(raw, "online") || same(raw, "auto") {
        return Ok(web_mode_from_key("online"));
    }
    if same(raw, "deep") {
        return Ok(web_mode_from_key("linkup-deep"));
    }
    let normalized: String = normalize_web_mode_key(raw);
    let table: &[WebModePreset] = web_mode_presets();
    let mut i: usize = 0;
    while i < table.len()
        invariant
            i <= table@.len(),
            table@.len() == presets().len(),
            forall|k: int| 0 <= k < table@.len() ==> (#[trigger] table@[k])@ == presets()[k],
            forall|k: int| 0 <= k < i ==> (#[trigger] presets()[k]).key != normalized@,
            raw@ == lower(trimmed(arg@)),
            normalized@ == normal_key(raw@),
            raw@.len() > 0,
            raw@ != "off"@ && raw@ != "none"@ && raw@ != "disable"@ && raw@ != "disabled"@,
            raw@ != "on"@ && raw@ != "standard"@ && raw@ != "online"@ && raw@ != "auto"@,
            raw@ != "deep"@,
        decreases table@.len() - i,
    {
        assert(table@[i as int]@ == presets()[i as int]);
        if same(table[i].key, normalized.as_str()) {
            assert(presets()[i as int].key == normalized@);
            return Ok(web_mode_from_key(normalized.as_str()));
        }
        i += 1;
    }
    Err("Usage: /webmode <off|on|deep|provider-mode>".to_owned())
}

/// The mode that a preset key stands for.
pub fn web_mode_from_key(key: &str) -> (r: WebMode)
    ensures
        r@ == mode_of_key(key@),
{
    if same(key, "online") {
        WebMode::Enabled { suffix: "online".to_owned() }
    } else {
        WebMode::Enabled { suffix: cat2("online/", key) }
    }
}

/// The provider key of a mode.
pub fn web_mode_key(mode: &WebMode) -> (r: Option<&str>)
    ensures
        match (r, key_of_mode(mode@)) {
            (Some(got), Some(want)) => got@ == want,
            (None, None) => true,
            _ => false,
        },
{
    match mode {
        WebMode::Off => None,
        WebMode::Enabled { suffix } => {
            if same(suffix.as_str(), "online") {
                Some("online")
            } else {
                strip_prefix(suffix.as_str(), "online/")
            }
        },
    }
}

/// How a mode is shown.
pub fn web_mode_display(mode: &WebMode) -> (r: String)
    ensures
        r@ == mode_text(mode@),
{
    match mode {
        WebMode::Off => "off".to_owned(),
        WebMode::Enabled { suffix: _ } => {
            match web_mode_key(mode) {
                Some(key) => key.to_owned(),
                None => "online".to_owned(),
            }
        },
    }
}

/// A model identifier with its web routing set to `web_mode`.
pub fn apply_web_mode(model: &str, web_mode: &WebMode) -> (r: String)
    ensures
        r@ == with_mode(model@, web_mode@),
{
    let base: String = strip_online_suffix(model);
    match web_mode {
        WebMode::Off => base,
        WebMode::Enabled { suffix } => cat3(base.as_str(), ":", suffix.as_str()),
    }
}

/// Sets the web routing that the start-up flags ask for: where they ask for one, a model that already
/// carries a routing keeps it, and where they ask for none, the model goes without.
pub fn route_by_flags(model: &str, web: bool, deep_web: bool) -> (r: String)
    ensures
        r@ == model_by_flags(model@, web, deep_web),
{
    if (web || deep_web) && infer_from_model(model).is_some() {
        model.to_owned()
    } else {
        apply_web_mode(model, &infer_from_flags(web, deep_web))
    }
}

/// A model identifier without its web routing.
pub fn strip_online_suffix(model: &str) -> (r: String)
    ensures
        r@ == model_base(model@),
{
    current_model_base(model).to_owned()
}

/// The part of a model identifier before its web routing.
pub fn current_model_base(model: &str) -> (r: &str)
    ensures
        r@ == model_base(model@),
{
    match split_once(model, ":online") {
        Some((left, _)) => left,
        None => model,
    }
}

/// The preset key that a lower-case argument is read as.
pub fn normalize_web_mode_key(raw: &str) -> (r: String)
    ensures
        r@ == normal_key(raw@),
{
    let chars: Vec<char> = chars_of(raw);
    let prefix: Vec<char> = chars_of("online/");
    let mut i: usize = 0;
    assert(chars@.skip(0) =~= chars@);
    while i < chars.len() && chars[i] == ':'
        invariant
            i <= chars@.len(),
            without_colons(chars@) == without_colons(chars@.skip(i as int)),
        decreases chars@.len() - i,
    {
        assert(chars@.skip(i as int).drop_first() =~= chars@.skip(i + 1));
        i += 1;
    }
    let ghost plain = without_colons(chars@);
    assert(plain == chars@.skip(i as int));
    proof {
        reveal_strlit("online/");
    }
    let total: usize = chars.len();
    while crate::search::stands_at(&chars, &prefix, i)
        invariant
            i <= chars@.len() == total,
            prefix@ == "online/"@,
            prefix@.len() == 7,
            plain == without_colons(chars@),
            without_leading(plain, "online/"@) == without_leading(
                chars@.skip(i as int),
                "online/"@,
            ),
        decreases chars@.len() - i,
    {
        assert(chars@.skip(i as int).skip(7) =~= chars@.skip(i + 7));
        i += prefix.len();
    }
    let ghost rest = chars@.skip(i as int);
    let mut out: Vec<char> = Vec::new();
    while i < total
        invariant
            chars@.len() - rest.len() <= i <= chars@.len() == total,
            rest == chars@.skip(chars@.len() - rest.len()),
            rest.len() <= chars@.len(),
            out@ =~= dashed(rest.take(i - (chars@.len() - rest.len()))),
        decreases total - i,
    {
        let c: char = chars[i];
        out.push(
            if c == '_' || c == '/' || c == ' ' {
                '-'
            } else {
                c
            },
        );
        i += 1;
    }
    assert(rest.take(rest.len() as int) =~= rest);
    string_of(&out)
}

} // verus!
