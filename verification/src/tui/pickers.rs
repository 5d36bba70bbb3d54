//! The dialogs of the full-screen chat: models, providers, web modes and web searches.

use vstd::prelude::*;

use crate::app_config::Overrides;
use crate::cli::{ModelScope, WebProvider};
use crate::commands::{provider_name, provider_text};
use crate::json::{
    array_of, bool_in, bool_of, get_in, json_views, lemma_json_views, member, member_views,
    no_members, number_of, opt_json_ref, set_member, set_text, text_in, text_of, then_member,
    with_member, Json, JsonView, Member, Members,
};
use crate::letter::{lower, to_lowercase};
use crate::order::{lemma_text_order_is_total, text_leq, text_order};
use crate::search::{contains, has};
use crate::text::{copy_opt, opt_or_empty, opt_view, same, trim, trimmed};
use crate::tui::editor::{empty_line, EditorView, LineEditor};

verus! {

/// A model in the list of the model picker.
#[derive(Debug)]
pub struct ModelEntry {
    pub id: String,
    pub name: String,
    pub owned_by: String,
    pub category: Option<String>,
    pub subscription_included: Option<bool>,
}

/// The view of a [`ModelEntry`].
pub struct ModelView {
    pub id: Seq<char>,
    pub name: Seq<char>,
    pub owned_by: Seq<char>,
    pub category: Option<Seq<char>>,
    pub subscription_included: Option<bool>,
}

impl View for ModelEntry {
    type V = ModelView;

    open spec fn view(&self) -> ModelView {
        ModelView {
            id: self.id@,
            name: self.name@,
            owned_by: self.owned_by@,
            category: opt_view(self.category),
            subscription_included: self.subscription_included,
        }
    }
}

/// The views of a list of models.
pub open spec fn model_views(models: Seq<ModelEntry>) -> Seq<ModelView> {
    Seq::new(models.len(), |i: int| models[i]@)
}

impl ModelEntry {
    /// A copy of the entry.
    pub fn copy(&self) -> (r: ModelEntry)
        ensures
            r@ == self@,
    {
        ModelEntry {
            id: self.id.clone(),
            name: self.name.clone(),
            owned_by: self.owned_by.clone(),
            category: copy_opt(&self.category),
            subscription_included: self.subscription_included,
        }
    }
}

/// A model as the API describes it.
pub open spec fn model_of(item: JsonView) -> ModelView {
    ModelView {
        id: opt_or_empty(text_of(member(item, "id"@))),
        name: opt_or_empty(text_of(member(item, "name"@))),
        owned_by: opt_or_empty(text_of(member(item, "owned_by"@))),
        category: text_of(member(item, "category"@)),
        subscription_included: bool_of(then_member(member(item, "subscription"@), "included"@)),
    }
}

/// A list of models with one more, behind those whose names do not come after its own.
pub open spec fn insert_by_id(list: Seq<ModelView>, model: ModelView) -> Seq<ModelView>
    decreases list.len(),
{
    if list.len() > 0 && !text_order()(list.last().id, model.id) {
        insert_by_id(list.drop_last(), model).push(list.last())
    } else {
        list.push(model)
    }
}

/// Models in the order of their names; those of the same name stay in their order.
pub open spec fn by_id(list: Seq<ModelView>) -> Seq<ModelView>
    decreases list.len(),
{
    if list.len() == 0 {
        Seq::empty()
    } else {
        insert_by_id(by_id(list.drop_last()), list.last())
    }
}

/// The models in the API's answer.
pub open spec fn models_in(items: Seq<JsonView>) -> Seq<ModelView> {
    Seq::new(items.len(), |i: int| model_of(items[i]))
}

fn text_or_empty(value: Option<&Json>) -> (r: String)
    ensures
        r@ == opt_or_empty(text_of(opt_json_ref(value))),
{
    match text_in(value) {
        Some(text) => text.to_owned(),
        None => String::new(),
    }
}

fn text_or_none(value: Option<&Json>) -> (r: Option<String>)
    ensures
        opt_view(r) == text_of(opt_json_ref(value)),
{
    match text_in(value) {
        Some(text) => Some(text.to_owned()),
        None => None,
    }
}

fn read_model(item: &Json) -> (r: ModelEntry)
    ensures
        r@ == model_of(item@),
{
    ModelEntry {
        id: text_or_empty(item.get("id")),
        name: text_or_empty(item.get("name")),
        owned_by: text_or_empty(item.get("owned_by")),
        category: text_or_none(item.get("category")),
        subscription_included: bool_in(get_in(item.get("subscription"), "included")),
    }
}

proof fn lemma_insert_by_id(list: Seq<ModelView>, model: ModelView, at: int)
    requires
        0 <= at <= list.len(),
        forall|k: int| at <= k < list.len() ==> !text_order()((#[trigger] list[k]).id, model.id),
        at > 0 ==> text_order()(list[at - 1].id, model.id),
    ensures
        insert_by_id(list, model) == list.insert(at, model),
    decreases list.len(),
{
    if at < list.len() {
        let n = list.len() - 1;
        assert(!text_order()(list[n].id, model.id));
        lemma_insert_by_id(list.drop_last(), model, at);
        assert(list.drop_last().insert(at, model).push(list.last()) =~= list.insert(at, model));
    } else {
        assert(list.push(model) =~= list.insert(at, model));
    }
}

/// What the model picker lists of the API's answer.
pub open spec fn models_read(value: JsonView) -> Result<Seq<ModelView>, Seq<char>> {
    match array_of(member(value, "data"@)) {
        Some(items) => Ok(by_id(models_in(items))),
        None => Err("unexpected model response format"@),
    }
}

/// What the model picker lists of the API's answer.
pub fn fetch_models(value: &Json) -> (r: Result<Vec<ModelEntry>, String>)
    ensures
        match models_read(value@) {
            Ok(list) => r matches Ok(models) && model_views(models@) == list,
            Err(message) => r matches Err(e) && e@ == message,
        },
{
    let items: &Vec<Json> = match value.get("data") {
        Some(data) => match data.as_array() {
            Some(items) => items,
            None => return Err("unexpected model response format".to_owned()),
        },
        None => return Err("unexpected model response format".to_owned()),
    };
    let ghost all = models_in(json_views(items@));
    proof {
        lemma_json_views(items@);
    }
    let mut out: Vec<ModelEntry> = Vec::new();
    let mut i: usize = 0;
    assert(model_views(out@) =~= by_id(all.take(0)));
    while i < items.len()
        invariant
            i <= items@.len(),
            all == models_in(json_views(items@)),
            json_views(items@).len() == items@.len(),
            forall|k: int| 0 <= k < items@.len() ==> #[trigger] json_views(items@)[k] == items@[k]@,
            model_views(out@) == by_id(all.take(i as int)),
        decreases items@.len() - i,
    {
        let entry: ModelEntry = read_model(&items[i]);
        let ghost before = model_views(out@);
        proof {
            assert(json_views(items@)[i as int] == items@[i as int]@);
            assert(all[i as int] == entry@);
        }
        let mut at: usize = out.len();
        while at > 0 && !text_leq(out[at - 1].id.as_str(), entry.id.as_str())
            invariant
                at <= out@.len(),
                before == model_views(out@),
                forall|k: int|
                    at <= k < before.len() ==> !text_order()((#[trigger] before[k]).id, entry@.id),
            decreases at,
        {
            assert(before[at - 1].id == out@[at - 1].id@);
            at -= 1;
        }
        proof {
            if at > 0 {
                assert(before[at - 1].id == out@[at - 1].id@);
            }
            lemma_insert_by_id(before, entry@, at as int);
        }
        out.insert(at, entry);
        assert(model_views(out@) =~= before.insert(at as int, entry@));
        assert(all.take(i + 1).drop_last() =~= all.take(i as int));
        assert(all.take(i + 1).last() == all[i as int]);
        i += 1;
    }
    assert(all.take(i as int) =~= all);
    Ok(out)
}

/// Whether a model has a text in its name, its owner or its category, in whatever case; the text is
/// in lower case.
pub open spec fn model_matches(m: ModelView, q: Seq<char>) -> bool {
    contains(lower(m.id), q) || contains(lower(m.name), q) || contains(lower(m.owned_by), q) || (
    match m.category {
        Some(category) => contains(lower(category), q),
        None => false,
    })
}

/// The models that match a text.
pub open spec fn models_matching(models: Seq<ModelView>, q: Seq<char>) -> Seq<ModelView>
    decreases models.len(),
{
    if models.len() == 0 {
        Seq::empty()
    } else if model_matches(models.last(), q) {
        models_matching(models.drop_last(), q).push(models.last())
    } else {
        models_matching(models.drop_last(), q)
    }
}

/// The models that a search finds: all of them where nothing is searched for.
pub open spec fn models_found(models: Seq<ModelView>, search: Seq<char>) -> Seq<ModelView> {
    let q = lower(trimmed(search));
    if q.len() == 0 {
        models
    } else {
        models_matching(models, q)
    }
}

/// The model picker.
#[derive(Debug)]
pub struct ModelPickerModal {
    pub scope: ModelScope,
    pub search: LineEditor,
    pub selected: usize,
    pub models: Vec<ModelEntry>,
}

/// The view of a [`ModelPickerModal`].
pub struct ModelPickerView {
    pub scope: ModelScope,
    pub search: EditorView,
    pub selected: nat,
    pub models: Seq<ModelView>,
}

impl View for ModelPickerModal {
    type V = ModelPickerView;

    open spec fn view(&self) -> ModelPickerView {
        ModelPickerView {
            scope: self.scope,
            search: self.search@,
            selected: self.selected as nat,
            models: model_views(self.models@),
        }
    }
}

/// The catalog that comes after another.
pub open spec fn next_scope(scope: ModelScope) -> ModelScope {
    match scope {
        ModelScope::Canonical => ModelScope::Subscription,
        ModelScope::Subscription => ModelScope::Paid,
        ModelScope::Paid => ModelScope::Canonical,
    }
}

/// The catalog that comes after another.
pub fn scope_after(scope: ModelScope) -> (r: ModelScope)
    ensures
        r == next_scope(scope),
{
    match scope {
        ModelScope::Canonical => ModelScope::Subscription,
        ModelScope::Subscription => ModelScope::Paid,
        ModelScope::Paid => ModelScope::Canonical,
    }
}

fn low_has(text: &str, q: &str) -> (r: bool)
    ensures
        r == contains(lower(text@), q@),
{
    let low: String = to_lowercase(text);
    has(low.as_str(), q)
}

/// The models that match a text in lower case; all of them where it is empty.
pub fn match_models(models: &Vec<ModelEntry>, q: &str) -> (r: Vec<ModelEntry>)
    ensures
        model_views(r@) == (if q@.len() == 0 {
            model_views(models@)
        } else {
            models_matching(model_views(models@), q@)
        }),
{
    let every: bool = q.is_empty();
    let ghost all = model_views(models@);
    let mut out: Vec<ModelEntry> = Vec::new();
    let mut i: usize = 0;
    assert(model_views(out@) =~= all.take(0));
    assert(model_views(out@) =~= models_matching(all.take(0), q@));
    while i < models.len()
        invariant
            i <= models@.len(),
            all == model_views(models@),
            every == (q@.len() == 0),
            every ==> model_views(out@) == all.take(i as int),
            !every ==> model_views(out@) == models_matching(all.take(i as int), q@),
        decreases models@.len() - i,
    {
        proof {
            assert(all.take(i + 1).drop_last() =~= all.take(i as int));
            assert(all.take(i + 1).last() == all[i as int]);
            assert(all.take(i + 1) =~= all.take(i as int).push(all[i as int]));
        }
        let m: &ModelEntry = &models[i];
        let by_category: bool = match &m.category {
            Some(category) => low_has(category.as_str(), q),
            None => false,
        };
        if every || low_has(m.id.as_str(), q) || low_has(m.name.as_str(), q) || low_has(
            m.owned_by.as_str(),
            q,
        ) || by_category {
            let ghost before = out@;
            out.push(m.copy());
            assert(model_views(out@) =~= model_views(before).push(all[i as int]));
        }
        i += 1;
    }
    assert(all.take(i as int) =~= all);
    out
}

impl ModelPickerModal {
    /// The models that the search finds.
    pub fn filtered_models(&self) -> (r: Vec<ModelEntry>)
        ensures
            model_views(r@) == models_found(self@.models, self@.search.text),
    {
        let q: String = to_lowercase(trim(self.search.text.as_str()));
        match_models(&self.models, q.as_str())
    }
}

/// A provider in the list of the provider picker. A price stands as the text of its number.
#[derive(Debug)]
pub struct ProviderEntry {
    pub provider: String,
    pub available: bool,
    pub input_per_1k: Option<String>,
    pub output_per_1k: Option<String>,
}

/// The view of a [`ProviderEntry`].
pub struct ProviderView {
    pub provider: Seq<char>,
    pub available: bool,
    pub input_per_1k: Option<Seq<char>>,
    pub output_per_1k: Option<Seq<char>>,
}

impl View for ProviderEntry {
    type V = ProviderView;

    open spec fn view(&self) -> ProviderView {
        ProviderView {
            provider: self.provider@,
            available: self.available,
            input_per_1k: opt_view(self.input_per_1k),
            output_per_1k: opt_view(self.output_per_1k),
        }
    }
}

/// The views of a list of providers.
pub open spec fn provider_views(list: Seq<ProviderEntry>) -> Seq<ProviderView> {
    Seq::new(list.len(), |i: int| list[i]@)
}

/// A provider as the API describes it.
pub open spec fn provider_of(item: JsonView) -> ProviderView {
    ProviderView {
        provider: opt_or_empty(text_of(member(item, "provider"@))),
        available: bool_of(member(item, "available"@)) == Some(true),
        input_per_1k: number_of(then_member(member(item, "pricing"@), "inputPer1kTokens"@)),
        output_per_1k: number_of(then_member(member(item, "pricing"@), "outputPer1kTokens"@)),
    }
}

/// The providers in the API's answer.
pub open spec fn providers_in(value: JsonView) -> Seq<ProviderView> {
    match array_of(member(value, "providers"@)) {
        Some(items) => Seq::new(items.len(), |i: int| provider_of(items[i])),
        None => Seq::empty(),
    }
}

/// The first provider of a name in a list.
pub open spec fn provider_position(list: Seq<ProviderView>, name: Seq<char>) -> Option<int>
    decreases list.len(),
{
    if list.len() == 0 {
        None
    } else {
        match provider_position(list.drop_last(), name) {
            Some(i) => Some(i),
            None => if list.last().provider == name {
                Some(list.len() - 1)
            } else {
                None
            },
        }
    }
}

/// The provider picker.
#[derive(Debug)]
pub struct ProviderPickerModal {
    pub model_id: String,
    pub selected: usize,
    pub supports_provider_selection: bool,
    pub providers: Vec<ProviderEntry>,
    pub message: Option<String>,
}

/// The view of a [`ProviderPickerModal`].
pub struct ProviderPickerView {
    pub model_id: Seq<char>,
    pub selected: nat,
    pub supports_provider_selection: bool,
    pub providers: Seq<ProviderView>,
    pub message: Option<Seq<char>>,
}

impl View for ProviderPickerModal {
    type V = ProviderPickerView;

    open spec fn view(&self) -> ProviderPickerView {
        ProviderPickerView {
            model_id: self.model_id@,
            selected: self.selected as nat,
            supports_provider_selection: self.supports_provider_selection,
            providers: provider_views(self.providers@),
            message: opt_view(self.message),
        }
    }
}

/// The provider picker for a model, with the provider selected that was picked before.
pub open spec fn provider_picker(
    model_id: Seq<char>,
    value: JsonView,
    picked: Option<Seq<char>>,
) -> ProviderPickerView {
    ProviderPickerView {
        model_id,
        selected: match picked {
            Some(name) => match provider_position(providers_in(value), name) {
                Some(i) => i as nat,
                None => 0,
            },
            None => 0,
        },
        supports_provider_selection: bool_of(member(value, "supportsProviderSelection"@)) == Some(
            true,
        ),
        providers: providers_in(value),
        message: text_of(member(value, "message"@)),
    }
}

fn number_or_none(value: Option<&Json>) -> (r: Option<String>)
    ensures
        opt_view(r) == number_of(opt_json_ref(value)),
{
    match value {
        Some(v) => match v.as_number() {
            Some(text) => Some(text.to_owned()),
            None => None,
        },
        None => None,
    }
}

fn is_true(value: Option<&Json>) -> (r: bool)
    ensures
        r == (bool_of(opt_json_ref(value)) == Some(true)),
{
    match bool_in(value) {
        Some(b) => b,
        None => false,
    }
}

fn read_providers(value: &Json) -> (r: Vec<ProviderEntry>)
    ensures
        provider_views(r@) == providers_in(value@),
{
    let mut out: Vec<ProviderEntry> = Vec::new();
    assert(provider_views(out@) =~= Seq::empty());
    let items: &Vec<Json> = match value.get("providers") {
        Some(list) => match list.as_array() {
            Some(items) => items,
            None => return out,
        },
        None => return out,
    };
    let ghost all = providers_in(value@);
    proof {
        lemma_json_views(items@);
    }
    let mut i: usize = 0;
    assert(provider_views(out@) =~= all.take(0));
    while i < items.len()
        invariant
            i <= items@.len(),
            all.len() == items@.len(),
            forall|k: int| 0 <= k < items@.len() ==> #[trigger] all[k] == provider_of(items@[k]@),
            provider_views(out@) == all.take(i as int),
        decreases items@.len() - i,
    {
        let item: &Json = &items[i];
        let ghost before = out@;
        out.push(
            ProviderEntry {
                provider: text_or_empty(item.get("provider")),
                available: is_true(item.get("available")),
                input_per_1k: number_or_none(get_in(item.get("pricing"), "inputPer1kTokens")),
                output_per_1k: number_or_none(get_in(item.get("pricing"), "outputPer1kTokens")),
            },
        );
        assert(all[i as int] == provider_of(item@));
        assert(provider_views(out@) =~= provider_views(before).push(all[i as int]));
        assert(all.take(i + 1) =~= all.take(i as int).push(all[i as int]));
        i += 1;
    }
    assert(all.take(i as int) =~= all);
    out
}

fn find_provider(list: &Vec<ProviderEntry>, name: &str) -> (r: usize)
    ensures
        r == (match provider_position(provider_views(list@), name@) {
            Some(i) => i,
            None => 0,
        }),
{
    let ghost all = provider_views(list@);
    let mut i: usize = 0;
    assert(all.take(0) =~= Seq::empty());
    while i < list.len()
        invariant
            i <= list@.len(),
            all == provider_views(list@),
            provider_position(all.take(i as int), name@) is None,
        decreases list@.len() - i,
    {
        proof {
            assert(all.take(i + 1).drop_last() =~= all.take(i as int));
            assert(all.take(i + 1).last() == list@[i as int]@);
        }
        if same(list[i].provider.as_str(), name) {
            proof {
                lemma_position_stays(all, name@, i + 1);
            }
            return i;
        }
        i += 1;
    }
    assert(all.take(i as int) =~= all);
    0
}

proof fn lemma_position_stays(list: Seq<ProviderView>, name: Seq<char>, k: int)
    requires
        0 <= k <= list.len(),
        provider_position(list.take(k), name) is Some,
    ensures
        provider_position(list, name) == provider_position(list.take(k), name),
    decreases list.len() - k,
{
    if k < list.len() {
        assert(list.take(k + 1).drop_last() =~= list.take(k));
        lemma_position_stays(list, name, k + 1);
    } else {
        assert(list.take(k) =~= list);
    }
}

/// The provider that was picked for a model.
pub open spec fn picked_for(overrides: Map<Seq<char>, Seq<char>>, model: Seq<char>) -> Option<
    Seq<char>,
> {
    if overrides.contains_key(model) {
        Some(overrides[model])
    } else {
        None
    }
}

/// The provider picker for a model, from the API's answer.
pub fn read_provider_picker(model_id: &str, value: &Json, overrides: &Overrides) -> (r:
    ProviderPickerModal)
    requires
        overrides.well_formed(),
    ensures
        r@ == provider_picker(model_id@, value@, picked_for(overrides@, model_id@)),
{
    let providers: Vec<ProviderEntry> = read_providers(value);
    let selected: usize = match overrides.get(model_id) {
        Some(name) => find_provider(&providers, name),
        None => 0,
    };
    ProviderPickerModal {
        model_id: model_id.to_owned(),
        selected,
        supports_provider_selection: is_true(value.get("supportsProviderSelection")),
        providers,
        message: text_or_none(value.get("message")),
    }
}

/// How deep a provider can search.
pub open spec fn depths(provider: WebProvider) -> Seq<Seq<char>> {
    match provider {
        WebProvider::Exa => seq!["fast"@, "auto"@, "neural"@, "deep"@],
        _ => seq!["standard"@, "deep"@],
    }
}

/// What a provider can give back.
pub open spec fn outputs(provider: WebProvider) -> Seq<Seq<char>> {
    match provider {
        WebProvider::Linkup => seq!["searchResults"@, "sourcedAnswer"@, "structured"@],
        _ => seq!["searchResults"@],
    }
}

/// The providers of web searches, in the order in which they are gone through.
pub open spec fn provider_at(idx: nat) -> WebProvider {
    if idx == 0 {
        WebProvider::Linkup
    } else if idx == 1 {
        WebProvider::Tavily
    } else if idx == 2 {
        WebProvider::Exa
    } else if idx == 3 {
        WebProvider::Kagi
    } else if idx == 4 {
        WebProvider::Perplexity
    } else if idx == 5 {
        WebProvider::Valyu
    } else {
        WebProvider::Brave
    }
}

/// How many providers of web searches there are.
pub const WEB_PROVIDERS: usize = 7;

fn provider_number(idx: usize) -> (r: WebProvider)
    ensures
        r == provider_at(idx as nat),
{
    if idx == 0 {
        WebProvider::Linkup
    } else if idx == 1 {
        WebProvider::Tavily
    } else if idx == 2 {
        WebProvider::Exa
    } else if idx == 3 {
        WebProvider::Kagi
    } else if idx == 4 {
        WebProvider::Perplexity
    } else if idx == 5 {
        WebProvider::Valyu
    } else {
        WebProvider::Brave
    }
}

/// The number of the search depths of a provider.
pub fn depth_count(provider: WebProvider) -> (r: usize)
    ensures
        r == depths(provider).len(),
        r > 0,
{
    match provider {
        WebProvider::Exa => 4,
        _ => 2,
    }
}

/// The number of the things that a provider can give back.
pub fn output_count(provider: WebProvider) -> (r: usize)
    ensures
        r == outputs(provider).len(),
        r > 0,
{
    match provider {
        WebProvider::Linkup => 3,
        _ => 1,
    }
}

/// The element of a list that is not empty, or its last one where the number is too high.
pub open spec fn clamped(list: Seq<Seq<char>>, idx: nat) -> Seq<char> {
    if idx < list.len() {
        list[idx as int]
    } else {
        list[list.len() - 1]
    }
}

/// The dialog of web searches.
#[derive(Debug)]
pub struct WebSearchModal {
    pub query: LineEditor,
    pub provider_idx: usize,
    pub depth_idx: usize,
    pub output_idx: usize,
    pub include_images: bool,
    pub result: String,
    pub result_scroll: u16,
}

/// The view of a [`WebSearchModal`].
pub struct SearchView {
    pub query: EditorView,
    pub provider_idx: nat,
    pub depth_idx: nat,
    pub output_idx: nat,
    pub include_images: bool,
    pub result: Seq<char>,
    pub result_scroll: u16,
}

impl View for WebSearchModal {
    type V = SearchView;

    open spec fn view(&self) -> SearchView {
        SearchView {
            query: self.query@,
            provider_idx: self.provider_idx as nat,
            depth_idx: self.depth_idx as nat,
            output_idx: self.output_idx as nat,
            include_images: self.include_images,
            result: self.result@,
            result_scroll: self.result_scroll,
        }
    }
}

/// The dialog before anything was typed.
pub open spec fn fresh_search() -> SearchView {
    SearchView {
        query: empty_line(),
        provider_idx: 0,
        depth_idx: 0,
        output_idx: 0,
        include_images: false,
        result: Seq::empty(),
        result_scroll: 0,
    }
}

/// The choices of a search are choices that there are.
pub open spec fn choices_valid(s: SearchView) -> bool {
    s.provider_idx < WEB_PROVIDERS && s.depth_idx < depths(provider_at(s.provider_idx)).len()
        && s.output_idx < outputs(provider_at(s.provider_idx)).len()
}

/// The dialog with the next provider; choices that it does not have go back to the first.
pub open spec fn provider_cycled(s: SearchView) -> SearchView {
    let next = if s.provider_idx + 1 >= WEB_PROVIDERS {
        0
    } else {
        s.provider_idx + 1
    };
    SearchView {
        provider_idx: next,
        depth_idx: if s.depth_idx >= depths(provider_at(next)).len() {
            0
        } else {
            s.depth_idx
        },
        output_idx: if s.output_idx >= outputs(provider_at(next)).len() {
            0
        } else {
            s.output_idx
        },
        ..s
    }
}

/// The dialog with the next depth.
pub open spec fn depth_cycled(s: SearchView) -> SearchView {
    SearchView {
        depth_idx: if s.depth_idx + 1 >= depths(provider_at(s.provider_idx)).len() {
            0
        } else {
            s.depth_idx + 1
        },
        ..s
    }
}

/// The dialog with the next thing to give back.
pub open spec fn output_cycled(s: SearchView) -> SearchView {
    SearchView {
        output_idx: if s.output_idx + 1 >= outputs(provider_at(s.provider_idx)).len() {
            0
        } else {
            s.output_idx + 1
        },
        ..s
    }
}

/// The shape of structured answers that the dialog asks for.
pub open spec fn default_schema() -> Seq<char> {
    "{\"type\":\"object\",\"properties\":{\"items\":{\"type\":\"array\"}}}"@
}

/// The depth that was chosen.
pub open spec fn chosen_depth(s: SearchView) -> Seq<char> {
    clamped(depths(provider_at(s.provider_idx)), s.depth_idx)
}

/// The thing to give back that was chosen.
pub open spec fn chosen_output(s: SearchView) -> Seq<char> {
    clamped(outputs(provider_at(s.provider_idx)), s.output_idx)
}

/// The body of a search.
pub open spec fn search_members(s: SearchView) -> Members {
    let m = with_member(no_members(), "query"@, JsonView::Text(trimmed(s.query.text)));
    let m = with_member(m, "provider"@, JsonView::Text(provider_text(provider_at(s.provider_idx))));
    let m = with_member(m, "depth"@, JsonView::Text(chosen_depth(s)));
    let m = with_member(m, "outputType"@, JsonView::Text(chosen_output(s)));
    let m = with_member(m, "includeImages"@, JsonView::Bool(s.include_images));
    if chosen_output(s) == "structured"@ {
        with_member(m, "structuredOutputSchema"@, JsonView::Text(default_schema()))
    } else {
        m
    }
}

impl WebSearchModal {
    /// The choices are choices that there are, and the cursor lies in the query.
    pub open spec fn well_formed(self) -> bool {
        choices_valid(self@) && self.query.well_formed()
    }

    /// The dialog before anything was typed.
    pub fn new() -> (r: WebSearchModal)
        ensures
            r.well_formed(),
            r@ == fresh_search(),
    {
        WebSearchModal {
            query: LineEditor::new(),
            provider_idx: 0,
            depth_idx: 0,
            output_idx: 0,
            include_images: false,
            result: String::new(),
            result_scroll: 0,
        }
    }

    /// The provider that was chosen.
    pub fn provider(&self) -> (r: WebProvider)
        ensures
            r == provider_at(self@.provider_idx),
    {
        provider_number(self.provider_idx)
    }

    /// The depth that was chosen.
    pub fn depth(&self) -> (r: &'static str)
        ensures
            r@ == chosen_depth(self@),
    {
        match self.provider() {
            WebProvider::Exa => if self.depth_idx == 0 {
                "fast"
            } else if self.depth_idx == 1 {
                "auto"
            } else if self.depth_idx == 2 {
                "neural"
            } else {
                "deep"
            },
            _ => if self.depth_idx == 0 {
                "standard"
            } else {
                "deep"
            },
        }
    }

    /// The thing to give back that was chosen.
    pub fn output_type(&self) -> (r: &'static str)
        ensures
            r@ == chosen_output(self@),
    {
        match self.provider() {
            WebProvider::Linkup => if self.output_idx == 0 {
                "searchResults"
            } else if self.output_idx == 1 {
                "sourcedAnswer"
            } else {
                "structured"
            },
            _ => "searchResults",
        }
    }

    /// Goes on to the next provider.
    pub fn cycle_provider(&mut self)
        requires
            old(self).well_formed(),
        ensures
            final(self).well_formed(),
            final(self)@ == provider_cycled(old(self)@),
    {
        self.provider_idx = if self.provider_idx + 1 >= WEB_PROVIDERS {
            0
        } else {
            self.provider_idx + 1
        };
        let provider: WebProvider = self.provider();
        if self.depth_idx >= depth_count(provider) {
            self.depth_idx = 0;
        }
        if self.output_idx >= output_count(provider) {
            self.output_idx = 0;
        }
    }

    /// Goes on to the next depth.
    pub fn cycle_depth(&mut self)
        requires
            old(self).well_formed(),
        ensures
            final(self).well_formed(),
            final(self)@ == depth_cycled(old(self)@),
    {
        let n: usize = depth_count(self.provider());
        self.depth_idx = if self.depth_idx + 1 >= n {
            0
        } else {
            self.depth_idx + 1
        };
    }

    /// Goes on to the next thing to give back.
    pub fn cycle_output(&mut self)
        requires
            old(self).well_formed(),
        ensures
            final(self).well_formed(),
            final(self)@ == output_cycled(old(self)@),
    {
        let n: usize = output_count(self.provider());
        self.output_idx = if self.output_idx + 1 >= n {
            0
        } else {
            self.output_idx + 1
        };
    }

    /// The body of the search.
    pub fn body(&self) -> (r: Json)
        ensures
            r@ == JsonView::Object(search_members(self@)),
    {
        let mut members: Vec<Member> = Vec::new();
        assert(member_views(members@) =~= no_members());
        set_text(&mut members, "query", trim(self.query.text.as_str()));
        set_text(&mut members, "provider", provider_name(self.provider()));
        set_text(&mut members, "depth", self.depth());
        set_text(&mut members, "outputType", self.output_type());
        set_member(&mut members, "includeImages", Json::Bool(self.include_images));
        if same(self.output_type(), "structured") {
            set_text(
                &mut members,
                "structuredOutputSchema",
                "{\"type\":\"object\",\"properties\":{\"items\":{\"type\":\"array\"}}}",
            );
        }
        Json::Object(members)
    }
}

/// Going through all providers leads back to the first one, and the choices stay valid on the way.
pub proof fn law_providers_cycle(s: SearchView)
    requires
        choices_valid(s),
    ensures
        provider_cycled(
            provider_cycled(
                provider_cycled(
                    provider_cycled(provider_cycled(provider_cycled(provider_cycled(s)))),
                ),
            ),
        ).provider_idx == s.provider_idx,
        choices_valid(provider_cycled(s)),
        choices_valid(depth_cycled(s)),
        choices_valid(output_cycled(s)),
{
}

/// Models are listed in the order of their names, and none is added or lost.
pub proof fn law_models_are_sorted(list: Seq<ModelView>)
    ensures
        by_id(list).to_multiset() == list.to_multiset(),
        forall|i: int, j: int|
            0 <= i < j < by_id(list).len() ==> text_order()(
                (#[trigger] by_id(list)[i]).id,
                (#[trigger] by_id(list)[j]).id,
            ),
    decreases list.len(),
{
    broadcast use vstd::seq_lib::group_to_multiset_ensures;

    lemma_text_order_is_total();
    if list.len() > 0 {
        law_models_are_sorted(list.drop_last());
        lemma_insert_by_id_keeps(by_id(list.drop_last()), list.last());
        assert(list =~= list.drop_last().push(list.last()));
    } else {
        assert(by_id(list) =~= list);
    }
}

proof fn lemma_insert_by_id_keeps(list: Seq<ModelView>, model: ModelView)
    requires
        forall|i: int, j: int|
            0 <= i < j < list.len() ==> text_order()((#[trigger] list[i]).id, (#[trigger] list[j]).id),
    ensures
        insert_by_id(list, model).to_multiset() == list.to_multiset().insert(model),
        forall|i: int, j: int|
            0 <= i < j < insert_by_id(list, model).len() ==> text_order()(
                (#[trigger] insert_by_id(list, model)[i]).id,
                (#[trigger] insert_by_id(list, model)[j]).id,
            ),
        forall|k: int|
            0 <= k < insert_by_id(list, model).len() ==> (#[trigger] insert_by_id(list, model)[k])
                == model || list.contains(insert_by_id(list, model)[k]),
    decreases list.len(),
{
    broadcast use vstd::seq_lib::group_to_multiset_ensures;

    lemma_text_order_is_total();
    let o = text_order();
    let r = insert_by_id(list, model);
    if list.len() > 0 && !o(list.last().id, model.id) {
        let front = list.drop_last();
        assert forall|i: int, j: int| 0 <= i < j < front.len() implies o(
            (#[trigger] front[i]).id,
            (#[trigger] front[j]).id,
        ) by {
            assert(o(list[i].id, list[j].id));
        }
        lemma_insert_by_id_keeps(front, model);
        let f = insert_by_id(front, model);
        assert(list =~= front.push(list.last()));
        assert(o(model.id, list.last().id));
        assert forall|i: int, j: int| 0 <= i < j < r.len() implies o(
            (#[trigger] r[i]).id,
            (#[trigger] r[j]).id,
        ) by {
            if j == r.len() - 1 {
                assert(r[i] == f[i]);
                if f[i] != model {
                    let m = choose|m: int| 0 <= m < front.len() && front[m] == f[i];
                    assert(list[m] == f[i]);
                    assert(o(list[m].id, list[list.len() - 1].id));
                }
            } else {
                assert(r[i] == f[i] && r[j] == f[j]);
            }
        }
        assert forall|k: int| 0 <= k < r.len() implies (#[trigger] r[k]) == model || list.contains(
            r[k],
        ) by {
            if k < f.len() {
                assert(r[k] == f[k]);
                if f[k] != model {
                    let m = choose|m: int| 0 <= m < front.len() && front[m] == f[k];
                    assert(list[m] == r[k]);
                }
            } else {
                assert(list[list.len() - 1] == r[k]);
            }
        }
    } else {
        assert forall|i: int, j: int| 0 <= i < j < r.len() implies o(
            (#[trigger] r[i]).id,
            (#[trigger] r[j]).id,
        ) by {
            if j == r.len() - 1 {
                let n = list.len() - 1;
                assert(r[i] == list[i]);
                if i < n {
                    assert(o(list[i].id, list[n].id));
                    assert(o(list[n].id, model.id));
                }
            } else {
                assert(r[i] == list[i] && r[j] == list[j]);
            }
        }
        assert forall|k: int| 0 <= k < r.len() implies (#[trigger] r[k]) == model || list.contains(
            r[k],
        ) by {
            if k < list.len() {
                assert(list[k] == r[k]);
            }
        }
    }
}

} // verus!
