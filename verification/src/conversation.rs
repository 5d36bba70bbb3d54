//! Conversations: what is said in them, how they are named, listed and cleared out.

use std::path::PathBuf;

use vstd::prelude::*;

use crate::home::{go_below, own_way, under_home, way_to, Place, Root};
use crate::ident::{
    fresh_id, law_normal_id_is_settled, new_id, normal_id, normalize_id, settled_id,
};
use crate::search::{ends, strip_suffix};
use crate::stamp::{clock_reading, earlier, is_earlier, utc_now, Timestamp};
use crate::text::{cat2, opt_view, views};

verus! {

/// One message of a conversation.
#[derive(Debug, Clone, PartialEq, Eq)]
pub struct ConversationMessage {
    pub role: String,
    pub content: String,
}

/// The view of a [`ConversationMessage`].
pub struct MessageView {
    pub role: Seq<char>,
    pub content: Seq<char>,
}

impl View for ConversationMessage {
    type V = MessageView;

    open spec fn view(&self) -> MessageView {
        MessageView { role: self.role@, content: self.content@ }
    }
}

/// The views of a list of messages.
pub open spec fn message_views(messages: Seq<ConversationMessage>) -> Seq<MessageView> {
    Seq::new(messages.len(), |i: int| messages[i]@)
}

/// A message that the user says.
pub open spec fn user_says(content: Seq<char>) -> MessageView {
    MessageView { role: "user"@, content }
}

/// A message that the assistant says.
pub open spec fn assistant_says(content: Seq<char>) -> MessageView {
    MessageView { role: "assistant"@, content }
}

/// A conversation as it is stored.
#[derive(Debug, Clone, PartialEq, Eq)]
pub struct Conversation {
    pub id: String,
    pub model: String,
    pub system_prompt: Option<String>,
    pub created_at: Timestamp,
    pub updated_at: Timestamp,
    pub messages: Vec<ConversationMessage>,
}

/// The view of a [`Conversation`].
pub struct ConversationView {
    pub id: Seq<char>,
    pub model: Seq<char>,
    pub system_prompt: Option<Seq<char>>,
    pub created_at: Timestamp,
    pub updated_at: Timestamp,
    pub messages: Seq<MessageView>,
}

impl View for Conversation {
    type V = ConversationView;

    open spec fn view(&self) -> ConversationView {
        ConversationView {
            id: self.id@,
            model: self.model@,
            system_prompt: opt_view(self.system_prompt),
            created_at: self.created_at,
            updated_at: self.updated_at,
            messages: message_views(self.messages@),
        }
    }
}

/// What a list of conversations shows of one.
#[derive(Debug, Clone, PartialEq, Eq)]
pub struct ConversationSummary {
    pub id: String,
    pub model: String,
    pub updated_at: Timestamp,
    pub message_count: usize,
}

/// The view of a [`ConversationSummary`].
pub struct SummaryView {
    pub id: Seq<char>,
    pub model: Seq<char>,
    pub updated_at: Timestamp,
    pub message_count: nat,
}

impl View for ConversationSummary {
    type V = SummaryView;

    open spec fn view(&self) -> SummaryView {
        SummaryView {
            id: self.id@,
            model: self.model@,
            updated_at: self.updated_at,
            message_count: self.message_count as nat,
        }
    }
}

/// The views of a list of summaries.
pub open spec fn summary_views(list: Seq<ConversationSummary>) -> Seq<SummaryView> {
    Seq::new(list.len(), |i: int| list[i]@)
}

/// What a list shows of a conversation.
pub open spec fn summary_of(c: ConversationView) -> SummaryView {
    SummaryView {
        id: c.id,
        model: c.model,
        updated_at: c.updated_at,
        message_count: c.messages.len(),
    }
}

/// What a list shows of each of some conversations, in their order.
pub open spec fn summaries_of(found: Seq<Conversation>) -> Seq<SummaryView> {
    Seq::new(found.len(), |i: int| summary_of(found[i]@))
}

/// A list, newest first, with one more entry put behind those that are not older than it.
pub open spec fn insert_newest(list: Seq<SummaryView>, entry: SummaryView) -> Seq<SummaryView>
    decreases list.len(),
{
    if list.len() > 0 && earlier(list.last().updated_at, entry.updated_at) {
        insert_newest(list.drop_last(), entry).push(list.last())
    } else {
        list.push(entry)
    }
}

/// Entries with the newest first; those of the same time stay in their order.
pub open spec fn newest_first(list: Seq<SummaryView>) -> Seq<SummaryView>
    decreases list.len(),
{
    if list.len() == 0 {
        Seq::empty()
    } else {
        insert_newest(newest_first(list.drop_last()), list.last())
    }
}

/// The names of the conversations in which nothing was said.
pub open spec fn empty_ids(list: Seq<SummaryView>) -> Seq<Seq<char>>
    decreases list.len(),
{
    if list.len() == 0 {
        Seq::empty()
    } else if list.last().message_count == 0 {
        empty_ids(list.drop_last()).push(list.last().id)
    } else {
        empty_ids(list.drop_last())
    }
}

/// A conversation in which nothing was said yet.
pub open spec fn blank_conversation(
    id: Seq<char>,
    model: Seq<char>,
    system_prompt: Option<Seq<char>>,
    now: Timestamp,
) -> ConversationView {
    ConversationView {
        id,
        model,
        system_prompt,
        created_at: now,
        updated_at: now,
        messages: Seq::empty(),
    }
}

/// The file that a conversation is stored in, under the directory of conversations.
pub open spec fn conversation_file(id: Seq<char>) -> Seq<char> {
    id + ".json"@
}

/// Whether a file is that of the conversation that a name stands for: a fresh one where the name has
/// no letter or digit.
pub open spec fn is_file_of(file: Seq<char>, id: Seq<char>) -> bool {
    if normal_id(id).len() > 0 {
        file == conversation_file(normal_id(id))
    } else {
        exists|f: Seq<char>| #[trigger] fresh_id(f) && file == conversation_file(f)
    }
}

/// The way from the home directory to a file in the directory of conversations.
pub open spec fn way_to_file(file: Seq<char>) -> Seq<Seq<char>> {
    own_way("conversations"@).push(file)
}

/// Whether a place is that of the conversation that a name stands for: its file stands in the
/// directory of conversations in the home directory, or in the current directory.
pub open spec fn is_place_of(place: Place, id: Seq<char>) -> bool {
    exists|file: Seq<char>| #[trigger]
        is_file_of(file, id) && way_to(place) == (match place.root {
            Root::Home(_) => way_to_file(file),
            Root::Here => seq![file],
        })
}

/// A copy of a message.
pub fn copy_message(message: &ConversationMessage) -> (r: ConversationMessage)
    ensures
        r@ == message@,
{
    ConversationMessage { role: message.role.clone(), content: message.content.clone() }
}

/// A copy of a list of messages.
pub fn copy_messages(messages: &Vec<ConversationMessage>) -> (r: Vec<ConversationMessage>)
    ensures
        message_views(r@) == message_views(messages@),
{
    let mut out: Vec<ConversationMessage> = Vec::new();
    let mut i: usize = 0;
    while i < messages.len()
        invariant
            i <= messages@.len(),
            message_views(out@) == message_views(messages@.take(i as int)),
        decreases messages@.len() - i,
    {
        let ghost before = out@;
        out.push(copy_message(&messages[i]));
        assert(message_views(out@) =~= message_views(before).push(messages@[i as int]@));
        assert(message_views(messages@.take(i + 1)) =~= message_views(messages@.take(i as int)).push(
            messages@[i as int]@,
        ));
        i += 1;
    }
    assert(messages@.take(i as int) =~= messages@);
    out
}

/// Adds a message to a list.
pub fn push_message(messages: &mut Vec<ConversationMessage>, role: &str, content: String)
    ensures
        message_views(final(messages)@) == message_views(old(messages)@).push(
            MessageView { role: role@, content: content@ },
        ),
{
    let ghost before = messages@;
    messages.push(ConversationMessage { role: role.to_owned(), content });
    assert(message_views(messages@) =~= message_views(before).push(messages@.last()@));
}

/// A conversation with one more message.
pub open spec fn with_said(c: ConversationView, message: MessageView) -> ConversationView {
    ConversationView { messages: c.messages.push(message), ..c }
}

/// A conversation whose messages were forgotten.
pub open spec fn cleared(c: ConversationView) -> ConversationView {
    ConversationView { messages: Seq::empty(), ..c }
}

/// A conversation that was saved at a time.
pub open spec fn saved(c: ConversationView, now: Timestamp) -> ConversationView {
    ConversationView { updated_at: now, ..c }
}

/// Whether a conversation is the one that was found, or a new one where none was.
pub open spec fn is_taken_up(
    c: Conversation,
    found: Option<Conversation>,
    id: Seq<char>,
    model: Seq<char>,
    system_prompt: Option<Seq<char>>,
) -> bool {
    match found {
        Some(stored) => c == stored,
        None => c@ == blank_conversation(id, model, system_prompt, c.created_at) && clock_reading(
            c.created_at,
        ),
    }
}

/// Whether a name is the one that was asked for, or a fresh one where none was that can be used.
pub open spec fn is_name_for(id: Seq<char>, asked: Option<Seq<char>>) -> bool {
    match asked {
        Some(raw) => if normal_id(raw).len() > 0 {
            id == normal_id(raw)
        } else {
            fresh_id(id)
        },
        None => fresh_id(id),
    }
}

impl Conversation {
    /// The conversation that was found under a name, or a new one under that name.
    pub fn load_or_create(
        id: String,
        found: Option<Conversation>,
        model: String,
        system_prompt: Option<String>,
    ) -> (r: Conversation)
        ensures
            is_taken_up(r, found, id@, model@, opt_view(system_prompt)),
    {
        match found {
            Some(c) => c,
            None => new_conversation(id, model, system_prompt),
        }
    }

    /// Marks the conversation as saved now, and names the file to write it to.
    pub fn save(&mut self) -> (file: Place)
        ensures
            final(self)@ == saved(old(self)@, final(self).updated_at),
            clock_reading(final(self).updated_at),
            is_place_of(file, old(self).id@),
    {
        self.save_at(utc_now());
        conversation_path(self.id.as_str())
    }

    /// Marks the conversation as saved at `now`.
    pub fn save_at(&mut self, now: Timestamp)
        ensures
            final(self)@ == saved(old(self)@, now),
    {
        self.updated_at = now;
    }

    /// Adds what the user says.
    pub fn push_user_message(&mut self, content: String)
        ensures
            final(self)@ == with_said(old(self)@, user_says(content@)),
    {
        push_message(&mut self.messages, "user", content);
    }

    /// Adds what the assistant says.
    pub fn push_assistant_message(&mut self, content: String)
        ensures
            final(self)@ == with_said(old(self)@, assistant_says(content@)),
    {
        push_message(&mut self.messages, "assistant", content);
    }

    /// Forgets every message.
    pub fn clear_history(&mut self)
        ensures
            final(self)@ == cleared(old(self)@),
    {
        self.messages.clear();
        assert(message_views(self.messages@) =~= Seq::empty());
    }
}

/// A conversation in which nothing was said yet, begun now.
pub fn new_conversation(id: String, model: String, system_prompt: Option<String>) -> (r: Conversation)
    ensures
        r@ == blank_conversation(id@, model@, opt_view(system_prompt), r.created_at),
        clock_reading(r.created_at),
{
    new_conversation_at(id, model, system_prompt, utc_now())
}

/// A conversation in which nothing was said yet, begun at `now`.
pub fn new_conversation_at(
    id: String,
    model: String,
    system_prompt: Option<String>,
    now: Timestamp,
) -> (r: Conversation)
    ensures
        r@ == blank_conversation(id@, model@, opt_view(system_prompt), now),
{
    let messages: Vec<ConversationMessage> = Vec::new();
    assert(message_views(messages@) =~= Seq::empty());
    Conversation { id, model, system_prompt, created_at: now, updated_at: now, messages }
}

/// The name of the conversation that was asked for, or a fresh one where none was.
pub fn requested_id(id_or_name: Option<&str>) -> (r: String)
    ensures
        settled_id(r@),
        is_name_for(r@, crate::text::opt_str_view(id_or_name)),
{
    match id_or_name {
        Some(raw) => normalize_id(raw),
        None => new_id(),
    }
}

/// The name of the file of the conversation that a name stands for.
pub fn conversation_file_name(id: &str) -> (r: String)
    ensures
        is_file_of(r@, id@),
{
    let name: String = normalize_id(id);
    cat2(name.as_str(), ".json")
}

/// The file of the conversation that a name stands for, in the home directory `home`; in the current
/// directory where there is no home directory.
pub fn conversation_path_in(home: Option<PathBuf>, id: &str) -> (r: Place)
    ensures
        is_place_of(r, id@),
        match home {
            Some(dir) => r.root == Root::Home(dir),
            None => r.root == Root::Here,
        },
{
    let name: String = conversation_file_name(id);
    let ghost file = name@;
    match conversation_dir_in(home) {
        Ok(dir) => {
            let place: Place = go_below(dir, name);
            assert(is_file_of(file, id@) && way_to(place) == way_to_file(file));
            place
        },
        Err(_) => {
            let below: Vec<String> = vec![name];
            assert(views(below@) =~= seq![file]);
            assert(is_file_of(file, id@));
            Place { root: Root::Here, below }
        },
    }
}

/// The file of the conversation that a name stands for, in the user's home directory; in the current
/// directory where there is no home directory.
pub fn conversation_path(id: &str) -> (r: Place)
    ensures
        is_place_of(r, id@),
{
    conversation_path_in(dirs::home_dir(), id)
}

/// Whether a file in the directory of conversations holds one, by its name.
pub open spec fn is_conversation_name(name: Seq<char>) -> bool {
    ends(name, ".json"@) && name.len() > ".json"@.len()
}

/// Whether a file in the directory of conversations holds one, by its name.
pub fn holds_conversation(name: &str) -> (r: bool)
    ensures
        r == is_conversation_name(name@),
{
    match strip_suffix(name, ".json") {
        Some(rest) => !rest.is_empty(),
        None => false,
    }
}

/// What is said where no conversation is stored under a name.
pub fn not_found(id: &str) -> (r: String)
    ensures
        r@ == "conversation not found: "@ + id@,
{
    cat2("conversation not found: ", id)
}

/// The directory of conversations, in the user's home directory.
pub fn conversation_dir() -> (r: Result<Place, String>)
    ensures
        match r {
            Ok(place) => place.root is Home && way_to(place) == own_way("conversations"@),
            Err(e) => e@ == "failed to resolve home directory"@,
        },
{
    conversation_dir_in(dirs::home_dir())
}

/// The directory of conversations, in the home directory `home`.
pub fn conversation_dir_in(home: Option<PathBuf>) -> (r: Result<Place, String>)
    ensures
        match home {
            Some(dir) => r matches Ok(place) && place.root == Root::Home(dir) && way_to(place)
                == own_way("conversations"@),
            None => r matches Err(e) && e@ == "failed to resolve home directory"@,
        },
{
    under_home(home, "conversations")
}

/// What a list shows of a conversation.
pub fn summarize(c: &Conversation) -> (r: ConversationSummary)
    ensures
        r@ == summary_of(c@),
{
    ConversationSummary {
        id: c.id.clone(),
        model: c.model.clone(),
        updated_at: c.updated_at,
        message_count: c.messages.len(),
    }
}

proof fn lemma_insert_position(list: Seq<SummaryView>, entry: SummaryView, at: int)
    requires
        0 <= at <= list.len(),
        forall|k: int| at <= k < list.len() ==> earlier((#[trigger] list[k]).updated_at, entry.updated_at),
        at > 0 ==> !earlier(list[at - 1].updated_at, entry.updated_at),
    ensures
        insert_newest(list, entry) == list.insert(at, entry),
    decreases list.len(),
{
    if at < list.len() {
        let n = list.len() - 1;
        assert(earlier(list[n].updated_at, entry.updated_at));
        lemma_insert_position(list.drop_last(), entry, at);
        assert(list.drop_last().insert(at, entry).push(list.last()) =~= list.insert(at, entry));
    } else {
        assert(list.push(entry) =~= list.insert(at, entry));
    }
}

/// The list of stored conversations, newest first.
pub fn list(found: &Vec<Conversation>) -> (r: Vec<ConversationSummary>)
    ensures
        summary_views(r@) == newest_first(summaries_of(found@)),
{
    let mut out: Vec<ConversationSummary> = Vec::new();
    let mut i: usize = 0;
    let ghost all = summaries_of(found@);
    assert(summary_views(out@) =~= newest_first(all.take(0)));
    while i < found.len()
        invariant
            i <= found@.len(),
            all == summaries_of(found@),
            summary_views(out@) == newest_first(all.take(i as int)),
        decreases found@.len() - i,
    {
        let entry: ConversationSummary = summarize(&found[i]);
        let ghost before = summary_views(out@);
        let mut at: usize = out.len();
        while at > 0 && is_earlier(out[at - 1].updated_at, entry.updated_at)
            invariant
                at <= out@.len(),
                before == summary_views(out@),
                forall|k: int|
                    at <= k < before.len() ==> earlier((#[trigger] before[k]).updated_at, entry.updated_at),
            decreases at,
        {
            assert(before[at - 1].updated_at == out@[at - 1].updated_at);
            at -= 1;
        }
        proof {
            if at > 0 {
                assert(before[at - 1].updated_at == out@[at - 1].updated_at);
            }
            lemma_insert_position(before, entry@, at as int);
        }
        out.insert(at, entry);
        assert(summary_views(out@) =~= before.insert(at as int, entry@));
        assert(all.take(i + 1).drop_last() =~= all.take(i as int));
        i += 1;
    }
    assert(all.take(i as int) =~= all);
    out
}

/// The names of the conversations to delete because nothing was said in them.
pub fn delete_empty_conversations(summaries: &Vec<ConversationSummary>) -> (r: Vec<String>)
    ensures
        views(r@) == empty_ids(summary_views(summaries@)),
{
    let mut out: Vec<String> = Vec::new();
    let mut i: usize = 0;
    let ghost all = summary_views(summaries@);
    assert(views(out@) =~= empty_ids(all.take(0)));
    while i < summaries.len()
        invariant
            i <= summaries@.len(),
            all == summary_views(summaries@),
            views(out@) == empty_ids(all.take(i as int)),
        decreases summaries@.len() - i,
    {
        assert(all.take(i + 1).drop_last() =~= all.take(i as int));
        assert(all.take(i + 1).last() == summaries@[i as int]@);
        let ghost before = out@;
        if summaries[i].message_count == 0 {
            out.push(summaries[i].id.clone());
            assert(views(out@) =~= views(before).push(
                summaries@[i as int].id@,
            ));
        }
        i += 1;
    }
    assert(all.take(i as int) =~= all);
    out
}

/// Later entries of a list are not newer than earlier ones.
pub open spec fn is_newest_first(list: Seq<SummaryView>) -> bool {
    forall|i: int, j: int|
        0 <= i < j < list.len() ==> !earlier(
            (#[trigger] list[i]).updated_at,
            (#[trigger] list[j]).updated_at,
        )
}

/// The list of conversations is in order, newest first, and holds each that was found, as often as it
/// was found.
pub proof fn law_list_is_sorted(found: Seq<SummaryView>)
    ensures
        is_newest_first(newest_first(found)),
        newest_first(found).to_multiset() == found.to_multiset(),
        newest_first(found).len() == found.len(),
    decreases found.len(),
{
    broadcast use vstd::seq_lib::group_to_multiset_ensures;

    if found.len() > 0 {
        let rest = found.drop_last();
        law_list_is_sorted(rest);
        lemma_insert_keeps(newest_first(rest), found.last());
        assert(found =~= rest.push(found.last()));
    } else {
        assert(newest_first(found) =~= found);
    }
}

proof fn lemma_insert_keeps(list: Seq<SummaryView>, entry: SummaryView)
    requires
        is_newest_first(list),
    ensures
        is_newest_first(insert_newest(list, entry)),
        insert_newest(list, entry).to_multiset() == list.to_multiset().insert(entry),
        insert_newest(list, entry).len() == list.len() + 1,
        forall|k: int|
            0 <= k < insert_newest(list, entry).len() ==> (#[trigger] insert_newest(list, entry)[k])
                == entry || list.contains(insert_newest(list, entry)[k]),
    decreases list.len(),
{
    broadcast use vstd::seq_lib::group_to_multiset_ensures;

    let r = insert_newest(list, entry);
    if list.len() > 0 && earlier(list.last().updated_at, entry.updated_at) {
        let front = list.drop_last();
        lemma_insert_keeps(front, entry);
        let f = insert_newest(front, entry);
        assert(list =~= front.push(list.last()));
        assert forall|i: int, j: int| 0 <= i < j < r.len() implies !earlier(
            (#[trigger] r[i]).updated_at,
            (#[trigger] r[j]).updated_at,
        ) by {
            if j == r.len() - 1 {
                assert(r[i] == f[i]);
                if f[i] != entry {
                    assert(front.contains(f[i]));
                    let m = choose|m: int| 0 <= m < front.len() && front[m] == f[i];
                    assert(list[m] == f[i]);
                }
            } else {
                assert(r[i] == f[i] && r[j] == f[j]);
            }
        }
        assert forall|k: int| 0 <= k < r.len() implies (#[trigger] r[k]) == entry || list.contains(
            r[k],
        ) by {
            if k < f.len() {
                assert(r[k] == f[k]);
                if f[k] != entry {
                    let m = choose|m: int| 0 <= m < front.len() && front[m] == f[k];
                    assert(list[m] == r[k]);
                }
            } else {
                assert(list[list.len() - 1] == r[k]);
            }
        }
    } else {
        assert forall|i: int, j: int| 0 <= i < j < r.len() implies !earlier(
            (#[trigger] r[i]).updated_at,
            (#[trigger] r[j]).updated_at,
        ) by {
            if j == r.len() - 1 {
                assert(r[i] == list[i]);
                let n = list.len() - 1;
                if i < n {
                    assert(!earlier(list[i].updated_at, list[n].updated_at));
                }
                assert(!earlier(list[n].updated_at, entry.updated_at));
            } else {
                assert(r[i] == list[i] && r[j] == list[j]);
            }
        }
        assert forall|k: int| 0 <= k < r.len() implies (#[trigger] r[k]) == entry || list.contains(
            r[k],
        ) by {
            if k < list.len() {
                assert(list[k] == r[k]);
            }
        }
    }
}

/// A name is up for deletion exactly when a conversation of that name has no message.
pub proof fn law_only_empty_ones_go(list: Seq<SummaryView>, id: Seq<char>)
    ensures
        empty_ids(list).contains(id) <==> exists|i: int|
            0 <= i < list.len() && (#[trigger] list[i]).id == id && list[i].message_count == 0,
    decreases list.len(),
{
    if list.len() > 0 {
        let rest = list.drop_last();
        let n = list.len() - 1;
        law_only_empty_ones_go(rest, id);
        if empty_ids(list).contains(id) {
            if list.last().message_count == 0 && list.last().id == id {
                assert(list[n].id == id);
            } else {
                let k = choose|k: int| 0 <= k < empty_ids(list).len() && empty_ids(list)[k] == id;
                assert(empty_ids(rest)[k] == id);
                assert(empty_ids(rest).contains(id));
                let i = choose|i: int|
                    0 <= i < rest.len() && (#[trigger] rest[i]).id == id && rest[i].message_count == 0;
                assert(list[i] == rest[i]);
            }
        }
        if exists|i: int|
            0 <= i < list.len() && (#[trigger] list[i]).id == id && list[i].message_count == 0 {
            let i = choose|i: int|
                0 <= i < list.len() && (#[trigger] list[i]).id == id && list[i].message_count == 0;
            if i < n {
                assert(rest[i] == list[i]);
                assert(empty_ids(rest).contains(id));
                let k = choose|k: int| 0 <= k < empty_ids(rest).len() && empty_ids(rest)[k] == id;
                assert(empty_ids(list)[k] == id);
            } else {
                assert(empty_ids(list).last() == id);
            }
        }
    }
}

/// How many conversations have no message.
pub open spec fn empty_count(list: Seq<SummaryView>) -> nat
    decreases list.len(),
{
    if list.len() == 0 {
        0
    } else {
        empty_count(list.drop_last()) + if list.last().message_count == 0 {
            1nat
        } else {
            0nat
        }
    }
}

/// The conversations in which something was said.
pub open spec fn kept(list: Seq<SummaryView>) -> Seq<SummaryView>
    decreases list.len(),
{
    if list.len() == 0 {
        Seq::empty()
    } else if list.last().message_count == 0 {
        kept(list.drop_last())
    } else {
        kept(list.drop_last()).push(list.last())
    }
}

/// The conversations whose names are not among some.
pub open spec fn without_ids(list: Seq<SummaryView>, gone: Seq<Seq<char>>) -> Seq<SummaryView>
    decreases list.len(),
{
    if list.len() == 0 {
        Seq::empty()
    } else if gone.contains(list.last().id) {
        without_ids(list.drop_last(), gone)
    } else {
        without_ids(list.drop_last(), gone).push(list.last())
    }
}

/// No two conversations have the same name.
pub open spec fn ids_differ(list: Seq<SummaryView>) -> bool {
    forall|i: int, j: int|
        0 <= i < j < list.len() ==> (#[trigger] list[i]).id != (#[trigger] list[j]).id
}

/// As many conversations are up for deletion as have no message; none is where each has one, so
/// nothing more is deleted once the empty ones are gone.
pub proof fn law_empty_ones_are_counted(list: Seq<SummaryView>)
    ensures
        empty_ids(list).len() == empty_count(list),
        (forall|i: int| 0 <= i < list.len() ==> (#[trigger] list[i]).message_count > 0)
            ==> empty_ids(list).len() == 0 && kept(list) == list,
        empty_ids(kept(list)).len() == 0,
    decreases list.len(),
{
    if list.len() > 0 {
        let rest = list.drop_last();
        law_empty_ones_are_counted(rest);
        if forall|i: int| 0 <= i < list.len() ==> (#[trigger] list[i]).message_count > 0 {
            assert forall|i: int| 0 <= i < rest.len() implies (#[trigger] rest[i]).message_count
                > 0 by {
                assert(rest[i] == list[i]);
            }
            assert(list[list.len() - 1].message_count > 0);
            assert(rest.push(list.last()) =~= list);
        }
        if list.last().message_count > 0 {
            assert(kept(list).drop_last() =~= kept(rest));
        }
    }
}

proof fn lemma_kept_goes_by_entry(list: Seq<SummaryView>)
    ensures
        kept(list).to_multiset() == list.to_multiset().filter(
            |s: SummaryView| s.message_count > 0,
        ),
    decreases list.len(),
{
    broadcast use vstd::seq_lib::group_to_multiset_ensures;

    if list.len() > 0 {
        let rest = list.drop_last();
        lemma_kept_goes_by_entry(rest);
        assert(list =~= rest.push(list.last()));
    }
    assert(kept(list).to_multiset() =~= list.to_multiset().filter(
        |s: SummaryView| s.message_count > 0,
    ));
}

proof fn lemma_without_is_kept(list: Seq<SummaryView>, gone: Seq<Seq<char>>)
    requires
        forall|i: int|
            0 <= i < list.len() ==> (gone.contains((#[trigger] list[i]).id) <==> list[i].message_count
                == 0),
    ensures
        without_ids(list, gone) == kept(list),
    decreases list.len(),
{
    if list.len() > 0 {
        let rest = list.drop_last();
        assert forall|i: int| 0 <= i < rest.len() implies (gone.contains((#[trigger] rest[i]).id)
            <==> rest[i].message_count == 0) by {
            assert(rest[i] == list[i]);
        }
        lemma_without_is_kept(rest, gone);
        assert(list[list.len() - 1] == list.last());
    }
}

/// Where no two stored conversations have the same name, deleting the empty ones leaves exactly those
/// in which something was said, and deleting them again deletes none. `found` is what was stored, and
/// `left` what is stored afterwards, both in any order.
pub proof fn law_clearing_out_leaves_the_rest(found: Seq<SummaryView>, left: Seq<SummaryView>)
    requires
        ids_differ(found),
        left.to_multiset() == without_ids(
            found,
            empty_ids(newest_first(found)),
        ).to_multiset(),
    ensures
        newest_first(left).to_multiset() == kept(newest_first(found)).to_multiset(),
        empty_ids(newest_first(left)).len() == 0,
{
    broadcast use vstd::seq_lib::group_to_multiset_ensures;

    let list = newest_first(found);
    let gone = empty_ids(list);
    law_list_is_sorted(found);
    law_list_is_sorted(left);
    assert forall|i: int| 0 <= i < found.len() implies (gone.contains((#[trigger] found[i]).id)
        <==> found[i].message_count == 0) by {
        let entry = found[i];
        law_only_empty_ones_go(list, entry.id);
        assert(found.contains(entry) && found.to_multiset().count(entry) > 0);
        assert(list.to_multiset().count(entry) > 0 && list.contains(entry));
        if gone.contains(entry.id) {
            let k = choose|k: int|
                0 <= k < list.len() && (#[trigger] list[k]).id == entry.id && list[k].message_count
                    == 0;
            assert(list.contains(list[k]) && list.to_multiset().count(list[k]) > 0);
            assert(found.to_multiset().count(list[k]) > 0 && found.contains(list[k]));
            let m = choose|m: int| 0 <= m < found.len() && found[m] == list[k];
            assert(m == i);
        }
    }
    lemma_without_is_kept(found, gone);
    lemma_kept_goes_by_entry(found);
    lemma_kept_goes_by_entry(list);
    let after = newest_first(left);
    assert(after.to_multiset() == kept(list).to_multiset());
    assert forall|i: int| 0 <= i < after.len() implies (#[trigger] after[i]).message_count > 0 by {
        assert(after.contains(after[i]));
        assert(after.to_multiset().count(after[i]) > 0);
    }
    law_empty_ones_are_counted(after);
}

/// The file of a conversation stays in its directory: its name holds no slash and is not that of the
/// directory or of the one above it.
pub proof fn law_file_stays_in_its_directory(file: Seq<char>, id: Seq<char>)
    requires
        is_file_of(file, id),
    ensures
        forall|i: int| 0 <= i < file.len() ==> (#[trigger] file[i]) != '/' && file[i] != '\0',
        file.len() > ".json"@.len(),
        file[0] != '.',
        is_conversation_name(file),
{
    reveal_strlit(".json");
    let name = if normal_id(id).len() > 0 {
        normal_id(id)
    } else {
        choose|f: Seq<char>| #[trigger] fresh_id(f) && file == conversation_file(f)
    };
    law_normal_id_is_settled(id);
    if normal_id(id).len() == 0 {
        crate::ident::lemma_fresh_is_tidy(name);
    }
    assert forall|i: int| 0 <= i < file.len() implies (#[trigger] file[i]) != '/' && file[i]
        != '\0' by {
        if i < name.len() {
            assert(file[i] == name[i]);
        }
    }
    assert(file[0] == name[0]);
    assert(file.skip(file.len() - 5) =~= ".json"@);
}

} // verus!
