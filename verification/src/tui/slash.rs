//! The commands that begin with a slash, and how they are completed while they are typed.

use vstd::prelude::*;

use crate::letter::{lower, to_lowercase};
use crate::lines::{first_word, take_word};
use crate::search::{contains, has, starts, starts_with};
use crate::text::{cat2, opt_view, same};

verus! {

/// A command that begins with a slash.
#[derive(Debug, Clone, Copy)]
pub struct SlashCommandSpec {
    pub command: &'static str,
    pub takes_argument: bool,
    pub description: &'static str,
}

/// The view of a [`SlashCommandSpec`].
pub struct SlashView {
    pub command: Seq<char>,
    pub takes_argument: bool,
    pub description: Seq<char>,
}

impl View for SlashCommandSpec {
    type V = SlashView;

    open spec fn view(&self) -> SlashView {
        SlashView {
            command: self.command@,
            takes_argument: self.takes_argument,
            description: self.description@,
        }
    }
}

/// The views of a list of commands.
pub open spec fn slash_views(list: Seq<SlashCommandSpec>) -> Seq<SlashView> {
    Seq::new(list.len(), |i: int| list[i]@)
}

/// A command that begins with a slash.
pub open spec fn slash(command: Seq<char>, takes_argument: bool, description: Seq<char>) -> SlashView {
    SlashView { command, takes_argument, description }
}

/// All commands that begin with a slash.
pub open spec fn slash_commands() -> Seq<SlashView> {
    seq![
        slash("/help"@, false, "Open command guide"@),
        slash("/model"@, true, "Set current model"@),
        slash("/webmode"@, true, "Set web mode or open picker"@),
        slash("/system"@, true, "Set/clear system prompt"@),
        slash("/clear"@, false, "Clear conversation history"@),
        slash("/save"@, false, "Save conversation"@),
        slash("/history"@, false, "Show message count"@),
        slash("/models"@, false, "Open model picker"@),
        slash("/providers"@, false, "Open provider picker"@),
    ]
}

/// All commands that begin with a slash.
pub fn all_slash_commands() -> (r: &'static [SlashCommandSpec])
    ensures
        slash_views(r@) == slash_commands(),
{
    let all: &'static [SlashCommandSpec] = &[
        SlashCommandSpec {
            command: "/help",
            takes_argument: false,
            description: "Open command guide",
        },
        SlashCommandSpec {
            command: "/model",
            takes_argument: true,
            description: "Set current model",
        },
        SlashCommandSpec {
            command: "/webmode",
            takes_argument: true,
            description: "Set web mode or open picker",
        },
        SlashCommandSpec {
            command: "/system",
            takes_argument: true,
            description: "Set/clear system prompt",
        },
        SlashCommandSpec {
            command: "/clear",
            takes_argument: false,
            description: "Clear conversation history",
        },
        SlashCommandSpec {
            command: "/save",
            takes_argument: false,
            description: "Save conversation",
        },
        SlashCommandSpec {
            command: "/history",
            takes_argument: false,
            description: "Show message count",
        },
        SlashCommandSpec {
            command: "/models",
            takes_argument: false,
            description: "Open model picker",
        },
        SlashCommandSpec {
            command: "/providers",
            takes_argument: false,
            description: "Open provider picker",
        },
    ];
    assert(slash_views(all@) =~= slash_commands());
    all
}

/// The command that is being typed, in lower case.
pub open spec fn typed_token(input: Seq<char>) -> Option<Seq<char>> {
    if starts(input, "/"@) && first_word(input).len() > 0 {
        Some(lower(first_word(input)))
    } else {
        None
    }
}

/// The commands among some that begin with a text.
pub open spec fn completions(list: Seq<SlashView>, token: Seq<char>) -> Seq<SlashView>
    decreases list.len(),
{
    if list.len() == 0 {
        Seq::empty()
    } else if starts(list.last().command, token) {
        completions(list.drop_last(), token).push(list.last())
    } else {
        completions(list.drop_last(), token)
    }
}

/// The commands that fit what is being typed; none once a space was typed.
pub open spec fn suggestions(input: Seq<char>) -> Seq<SlashView> {
    if contains(input, " "@) {
        Seq::empty()
    } else {
        match typed_token(input) {
            None => Seq::empty(),
            Some(token) => if token == "/"@ {
                slash_commands()
            } else {
                completions(slash_commands(), token)
            },
        }
    }
}

/// Whether what is being typed is a whole command.
pub open spec fn is_whole_command(input: Seq<char>) -> bool {
    match typed_token(input) {
        None => false,
        Some(token) => exists|i: int|
            0 <= i < slash_commands().len() && (#[trigger] slash_commands()[i]).command == token,
    }
}

/// Whether what is being typed can be completed.
pub open spec fn can_complete(input: Seq<char>) -> bool {
    starts(input, "/"@) && !contains(input, " "@)
}

/// What is typed once a command was completed.
pub open spec fn completed(command: SlashView) -> Seq<char> {
    if command.takes_argument {
        command.command + " "@
    } else {
        command.command + ""@
    }
}

/// The number of a suggestion brought into the range of a list.
pub open spec fn synced(idx: nat, len: nat) -> nat {
    if len == 0 {
        0
    } else if idx >= len {
        (len - 1) as nat
    } else {
        idx
    }
}

/// The command that is being typed, in lower case.
pub fn slash_token(input: &str) -> (r: Option<String>)
    ensures
        opt_view(r) == typed_token(input@),
{
    if !starts_with(input, "/") {
        return None;
    }
    let word: &str = take_word(input);
    if word.is_empty() {
        return None;
    }
    Some(to_lowercase(word))
}

/// The commands among all that begin with a text.
pub fn complete_token(token: &str) -> (r: Vec<SlashCommandSpec>)
    ensures
        slash_views(r@) == (if token@ == "/"@ {
            slash_commands()
        } else {
            completions(slash_commands(), token@)
        }),
{
    let all: &'static [SlashCommandSpec] = all_slash_commands();
    let every: bool = same(token, "/");
    let ghost list = slash_commands();
    let mut out: Vec<SlashCommandSpec> = Vec::new();
    let mut i: usize = 0;
    assert(slash_views(out@) =~= list.take(0));
    assert(slash_views(out@) =~= completions(list.take(0), token@));
    while i < all.len()
        invariant
            i <= all@.len(),
            list == slash_commands(),
            slash_views(all@) == list,
            every == (token@ == "/"@),
            every ==> slash_views(out@) == list.take(i as int),
            !every ==> slash_views(out@) == completions(list.take(i as int), token@),
        decreases all@.len() - i,
    {
        let spec_: SlashCommandSpec = all[i];
        proof {
            assert(list[i as int] == spec_@);
            assert(list.take(i + 1).drop_last() =~= list.take(i as int));
            assert(list.take(i + 1).last() == list[i as int]);
            assert(list.take(i + 1) =~= list.take(i as int).push(list[i as int]));
        }
        if every || starts_with(spec_.command, token) {
            let ghost before = out@;
            out.push(spec_);
            assert(slash_views(out@) =~= slash_views(before).push(list[i as int]));
        }
        i += 1;
    }
    assert(list.take(i as int) =~= list);
    out
}

/// The commands that fit what is being typed.
pub fn filtered_slash_suggestions(input: &str) -> (r: Vec<SlashCommandSpec>)
    ensures
        slash_views(r@) == suggestions(input@),
{
    let none: Vec<SlashCommandSpec> = Vec::new();
    assert(slash_views(none@) =~= Seq::empty());
    if has(input, " ") {
        return none;
    }
    match slash_token(input) {
        None => none,
        Some(token) => complete_token(token.as_str()),
    }
}

/// Whether there are commands that fit what is being typed.
pub fn has_active_slash_suggestions(input: &str) -> (r: bool)
    ensures
        r == (suggestions(input@).len() > 0),
{
    let list: Vec<SlashCommandSpec> = filtered_slash_suggestions(input);
    assert(slash_views(list@).len() == list@.len());
    list.len() > 0
}

/// Whether what is being typed is a whole command.
pub fn slash_token_is_exact_command(input: &str) -> (r: bool)
    ensures
        r == is_whole_command(input@),
{
    match slash_token(input) {
        None => false,
        Some(token) => {
            let all: &'static [SlashCommandSpec] = all_slash_commands();
            let ghost list = slash_commands();
            let mut i: usize = 0;
            while i < all.len()
                invariant
                    i <= all@.len(),
                    list == slash_commands(),
                    slash_views(all@) == list,
                    typed_token(input@) == Some(token@),
                    forall|k: int| 0 <= k < i ==> (#[trigger] list[k]).command != token@,
                decreases all@.len() - i,
            {
                assert(list[i as int] == all@[i as int]@);
                if same(all[i].command, token.as_str()) {
                    return true;
                }
                i += 1;
            }
            false
        },
    }
}

/// Whether what is being typed can be completed.
pub fn can_autocomplete_slash(input: &str) -> (r: bool)
    ensures
        r == can_complete(input@),
{
    let spaced: bool = has(input, " ");
    starts_with(input, "/") && !spaced
}

/// The number of a suggestion brought into the range of those that fit what is being typed.
pub fn sync_slash_suggestion_index(input: &str, idx: usize) -> (r: usize)
    ensures
        r == synced(idx as nat, suggestions(input@).len()),
{
    let list: Vec<SlashCommandSpec> = filtered_slash_suggestions(input);
    assert(slash_views(list@).len() == list@.len());
    if list.len() == 0 {
        0
    } else if idx >= list.len() {
        list.len() - 1
    } else {
        idx
    }
}

/// The number of the suggestion above or below another.
pub open spec fn moved_index(idx: nat, down: bool, len: nat) -> nat {
    if len == 0 {
        0
    } else if down {
        synced(idx + 1, len)
    } else if idx == 0 {
        0
    } else {
        synced((idx - 1) as nat, len)
    }
}

/// The number of the suggestion above or below another.
pub fn move_slash_suggestion(input: &str, idx: usize, down: bool) -> (r: usize)
    ensures
        r == moved_index(idx as nat, down, suggestions(input@).len()),
{
    let list: Vec<SlashCommandSpec> = filtered_slash_suggestions(input);
    assert(slash_views(list@).len() == list@.len());
    if list.len() == 0 {
        0
    } else if down {
        if idx >= list.len() - 1 {
            list.len() - 1
        } else {
            idx + 1
        }
    } else if idx == 0 {
        0
    } else if idx - 1 >= list.len() {
        list.len() - 1
    } else {
        idx - 1
    }
}

/// What is typed once the chosen suggestion was taken; nothing where there is none.
pub open spec fn suggestion_taken(input: Seq<char>, idx: nat) -> Option<Seq<char>> {
    let list = suggestions(input);
    if list.len() == 0 {
        None
    } else {
        Some(completed(list[synced(idx, list.len()) as int]))
    }
}

/// Takes the chosen suggestion.
pub fn take_suggestion(input: &str, idx: usize) -> (r: Option<String>)
    ensures
        opt_view(r) == suggestion_taken(input@, idx as nat),
{
    let list: Vec<SlashCommandSpec> = filtered_slash_suggestions(input);
    assert(slash_views(list@).len() == list@.len());
    if list.len() == 0 {
        return None;
    }
    let at: usize = if idx >= list.len() {
        list.len() - 1
    } else {
        idx
    };
    assert(slash_views(list@)[at as int] == list@[at as int]@);
    let chosen: SlashCommandSpec = list[at];
    if chosen.takes_argument {
        Some(cat2(chosen.command, " "))
    } else {
        Some(cat2(chosen.command, ""))
    }
}

/// Whether the chosen suggestion is the command that is already typed.
pub open spec fn is_typed_out(input: Seq<char>, idx: nat) -> bool {
    let list = suggestions(input);
    list.len() > 0 && typed_token(input) == Some(list[synced(idx, list.len()) as int].command)
}

/// Whether the chosen suggestion is the command that is already typed.
pub fn slash_suggestion_is_typed(input: &str, idx: usize) -> (r: bool)
    ensures
        r == is_typed_out(input@, idx as nat),
{
    let list: Vec<SlashCommandSpec> = filtered_slash_suggestions(input);
    assert(slash_views(list@).len() == list@.len());
    if list.len() == 0 {
        return false;
    }
    let at: usize = sync_slash_suggestion_index(input, idx);
    assert(slash_views(list@)[at as int] == list@[at as int]@);
    match slash_token(input) {
        None => false,
        Some(token) => same(token.as_str(), list[at].command),
    }
}

/// The number of a suggestion always lies in the list, where that holds anything.
pub proof fn law_index_stays_in_range(idx: nat, down: bool, len: nat)
    requires
        len > 0,
    ensures
        synced(idx, len) < len,
        moved_index(idx, down, len) < len,
{
}

proof fn lemma_completions(list: Seq<SlashView>, token: Seq<char>)
    ensures
        forall|i: int|
            0 <= i < completions(list, token).len() ==> starts(
                (#[trigger] completions(list, token)[i]).command,
                token,
            ),
    decreases list.len(),
{
    if list.len() > 0 {
        lemma_completions(list.drop_last(), token);
        let front = completions(list.drop_last(), token);
        let all = completions(list, token);
        assert forall|i: int| 0 <= i < all.len() implies starts((#[trigger] all[i]).command, token) by {
            if i < front.len() {
                assert(all[i] == front[i]);
            }
        }
    }
}

/// Every suggestion goes on with what was typed.
pub proof fn law_suggestions_fit(input: Seq<char>, i: int)
    requires
        0 <= i < suggestions(input).len(),
        typed_token(input) != Some("/"@),
    ensures
        typed_token(input) matches Some(token) && starts(suggestions(input)[i].command, token),
{
    if let Some(token) = typed_token(input) {
        lemma_completions(slash_commands(), token);
    }
}

} // verus!
