//! The tools that look at files: listing, matching, searching and reading.

use vstd::prelude::*;

use crate::agent::call::{opt_nat, ToolCall};
use crate::agent::entries::{entry_views, in_order, sort_entries, Entry, EntryView};
use crate::agent::label::{came_to_nothing, failed_summary, tool_called, tool_name};
use crate::agent::outcome::{cut, error_view, ok_view, truncate_line, ResultView, ToolResult};
use crate::agent::path::{path_text, path_views, shown_path, LexPath, PathView, Workspace};
use crate::letter::{lower, to_lowercase};
use crate::lines::{join, joined, lines, lines_of, repeat, repeated};
use crate::number::{decimal, write_decimal};
use crate::search::{contains, has, replace, replaced};
use crate::text::{
    blank, cat2, cat3, cat4, cat5, is_blank, opt_str_view, opt_view, same, trim, trimmed, views,
};

verus! {

/// What a tool found: a summary and its output.
pub struct Findings {
    pub summary: String,
    pub output: String,
}

/// The view of [`Findings`].
pub struct FindingsView {
    pub summary: Seq<char>,
    pub output: Seq<char>,
}

impl View for Findings {
    type V = FindingsView;

    open spec fn view(&self) -> FindingsView {
        FindingsView { summary: self.summary@, output: self.output@ }
    }
}

/// What a tool that looks at files gives back: what it found, or why it failed.
pub open spec fn looked(
    tool: Seq<char>,
    failed: Seq<char>,
    found: Result<FindingsView, Seq<char>>,
) -> ResultView {
    match found {
        Ok(f) => ok_view(tool, f.summary, f.output),
        Err(e) => error_view(tool, failed, e),
    }
}

/// What the call of a tool that looks at files gives back.
pub fn settle_findings(call: &ToolCall, found: Result<Findings, String>) -> (r: ToolResult)
    ensures
        r@ == looked(
            tool_called(call@),
            came_to_nothing(call@),
            match found {
                Ok(f) => Ok(f@),
                Err(e) => Err(e@),
            },
        ),
{
    match found {
        Ok(f) => ToolResult::ok(tool_name(call), f.summary, f.output.as_str()),
        Err(e) => ToolResult::error(tool_name(call), failed_summary(call), e.as_str()),
    }
}

// ---------------------------------------------------------------------------
// Listing
// ---------------------------------------------------------------------------

/// How far a listing has come.
pub struct ListWalk {
    /// The directories that are still to be read, the next one first.
    pub queue: Vec<LexPath>,
    pub lines: Vec<String>,
    /// There are as many lines as may be listed.
    pub truncated: bool,
    pub recursive: bool,
    pub max_entries: usize,
}

/// The view of a [`ListWalk`].
pub struct ListView {
    pub queue: Seq<PathView>,
    pub lines: Seq<Seq<char>>,
    pub truncated: bool,
    pub recursive: bool,
    pub max_entries: nat,
}

impl View for ListWalk {
    type V = ListView;

    open spec fn view(&self) -> ListView {
        ListView {
            queue: path_views(self.queue@),
            lines: views(self.lines@),
            truncated: self.truncated,
            recursive: self.recursive,
            max_entries: self.max_entries as nat,
        }
    }
}

/// An entry as a listing shows it: directories have a slash behind them.
pub open spec fn entry_line(entry: EntryView, root: PathView) -> Seq<char> {
    if entry.is_dir {
        shown_path(entry.path, root) + "/"@
    } else {
        shown_path(entry.path, root) + ""@
    }
}

/// A listing after one more entry.
pub open spec fn list_entry(state: ListView, entry: EntryView, root: PathView) -> ListView {
    if state.truncated {
        state
    } else {
        ListView {
            queue: if entry.is_dir && state.recursive {
                state.queue.push(entry.path)
            } else {
                state.queue
            },
            lines: state.lines.push(entry_line(entry, root)),
            truncated: state.lines.len() + 1 >= state.max_entries,
            ..state
        }
    }
}

/// A listing after some entries.
pub open spec fn list_entries(state: ListView, entries: Seq<EntryView>, root: PathView) -> ListView
    decreases entries.len(),
{
    if entries.len() == 0 {
        state
    } else {
        list_entry(list_entries(state, entries.drop_last(), root), entries.last(), root)
    }
}

/// A listing after a directory was read: its entries come in the order of their paths.
pub open spec fn list_directory(state: ListView, entries: Seq<EntryView>, root: PathView) -> ListView {
    let after = list_entries(state, in_order(entries), root);
    if after.recursive {
        after
    } else {
        ListView { queue: Seq::empty(), ..after }
    }
}

/// Writes an entry as a listing shows it.
fn write_entry(workspace: &Workspace, entry: &Entry) -> (r: String)
    ensures
        r@ == entry_line(entry@, workspace.root@),
{
    let shown: String = workspace.relative_display(&entry.path);
    if entry.is_dir {
        cat2(shown.as_str(), "/")
    } else {
        cat2(shown.as_str(), "")
    }
}

/// A listing of a directory, before it is read.
pub open spec fn list_started(dir: PathView, recursive: bool, max_entries: nat) -> ListView {
    ListView {
        queue: seq![dir],
        lines: Seq::empty(),
        truncated: false,
        recursive,
        max_entries,
    }
}

/// The next directory that a listing reads, and the listing without it; none where it is done.
pub open spec fn list_next(state: ListView) -> (Option<PathView>, ListView) {
    if state.truncated || state.queue.len() == 0 {
        (None, state)
    } else {
        (Some(state.queue[0]), ListView { queue: state.queue.drop_first(), ..state })
    }
}

impl ListWalk {
    /// The listing of a directory, before it is read.
    pub fn start(dir: &LexPath, recursive: bool, max_entries: usize) -> (r: ListWalk)
        ensures
            r@ == list_started(dir@, recursive, max_entries as nat),
    {
        let mut queue: Vec<LexPath> = Vec::new();
        queue.push(dir.copy());
        let lines: Vec<String> = Vec::new();
        assert(path_views(queue@) =~= seq![dir@]);
        assert(views(lines@) =~= Seq::empty());
        ListWalk { queue, lines, truncated: false, recursive, max_entries }
    }

    /// The next directory to read; none where the listing is done.
    pub fn next(&mut self) -> (r: Option<LexPath>)
        ensures
            match list_next(old(self)@).0 {
                Some(path) => r matches Some(dir) && dir@ == path,
                None => r is None,
            },
            final(self)@ == list_next(old(self)@).1,
    {
        if self.truncated || self.queue.len() == 0 {
            return None;
        }
        let ghost before = self.queue@;
        let dir: LexPath = self.queue.remove(0);
        assert(path_views(self.queue@) =~= path_views(before).drop_first());
        Some(dir)
    }

    /// Takes the entries of a directory.
    pub fn feed(&mut self, workspace: &Workspace, entries: &Vec<Entry>)
        ensures
            final(self)@ == list_directory(old(self)@, entry_views(entries@), workspace.root@),
    {
        let sorted: Vec<Entry> = sort_entries(entries);
        let ghost all = entry_views(sorted@);
        let ghost start = self@;
        let ghost root = workspace.root@;
        let mut i: usize = 0;
        assert(all.take(0) =~= Seq::empty());
        while i < sorted.len()
            invariant
                i <= sorted@.len(),
                all == entry_views(sorted@),
                root == workspace.root@,
                self@ == list_entries(start, all.take(i as int), root),
            decreases sorted@.len() - i,
        {
            proof {
                assert(all.take(i + 1).drop_last() =~= all.take(i as int));
                assert(all.take(i + 1).last() == sorted@[i as int]@);
            }
            if !self.truncated {
                let ghost before = self@;
                let ghost q = self.queue@;
                let ghost l = self.lines@;
                if sorted[i].is_dir && self.recursive {
                    self.queue.push(sorted[i].path.copy());
                    assert(path_views(self.queue@) =~= path_views(q).push(sorted@[i as int]@.path));
                }
                self.lines.push(write_entry(workspace, &sorted[i]));
                assert(views(self.lines@) =~= views(l).push(entry_line(sorted@[i as int]@, root)));
                self.truncated = self.lines.len() >= self.max_entries;
            }
            i += 1;
        }
        assert(all.take(i as int) =~= all);
        if !self.recursive {
            self.queue.clear();
            assert(path_views(self.queue@) =~= Seq::empty());
        }
    }
}

/// The lines of a finished listing.
pub open spec fn listed_lines(state: ListView) -> Seq<Seq<char>> {
    if state.truncated {
        state.lines.push("...truncated at "@ + decimal(state.max_entries) + " entries"@)
    } else {
        state.lines
    }
}

/// What a listing found.
pub open spec fn listing(lines: Seq<Seq<char>>, shown: Seq<char>) -> FindingsView {
    FindingsView {
        summary: "listed "@ + decimal(lines.len()) + " entries from "@ + shown,
        output: if lines.len() == 0 {
            "(no entries)"@
        } else {
            joined(lines, "\n"@)
        },
    }
}

fn write_listing(lines: &Vec<String>, shown: &str) -> (r: Findings)
    ensures
        r@ == listing(views(lines@), shown@),
{
    let n: String = write_decimal(lines.len() as u64);
    Findings {
        summary: cat4("listed ", n.as_str(), " entries from ", shown),
        output: if lines.len() == 0 {
            "(no entries)".to_owned()
        } else {
            join(lines, "\n")
        },
    }
}

/// What the listing of a file found: the file itself.
pub fn list_file(workspace: &Workspace, file: &LexPath) -> (r: Findings)
    ensures
        r@ == listing(
            seq![shown_path(file@, workspace.root@)],
            shown_path(file@, workspace.root@),
        ),
{
    let shown: String = workspace.relative_display(file);
    let mut lines: Vec<String> = Vec::new();
    lines.push(shown.clone());
    assert(views(lines@) =~= seq![shown@]);
    write_listing(&lines, shown.as_str())
}

/// What the listing of a directory found.
pub fn list_done(workspace: &Workspace, dir: &LexPath, walk: ListWalk) -> (r: Findings)
    ensures
        r@ == listing(listed_lines(walk@), shown_path(dir@, workspace.root@)),
{
    let shown: String = workspace.relative_display(dir);
    let mut lines: Vec<String> = walk.lines;
    if walk.truncated {
        let n: String = write_decimal(walk.max_entries as u64);
        let mark: String = cat3("...truncated at ", n.as_str(), " entries");
        let ghost before = lines@;
        lines.push(mark);
        assert(views(lines@) =~= views(before).push(mark@));
    }
    write_listing(&lines, shown.as_str())
}

/// A listing never shows more entries than it may, where it may show any.
pub proof fn law_listing_is_bounded(state: ListView, entries: Seq<EntryView>, root: PathView)
    requires
        state.max_entries > 0,
        !state.truncated ==> state.lines.len() < state.max_entries,
        state.lines.len() <= state.max_entries,
    ensures
        list_entries(state, entries, root).lines.len() <= state.max_entries,
        list_entries(state, entries, root).max_entries == state.max_entries,
        !list_entries(state, entries, root).truncated ==> list_entries(state, entries, root).lines.len()
            < state.max_entries,
    decreases entries.len(),
{
    if entries.len() > 0 {
        law_listing_is_bounded(state, entries.drop_last(), root);
    }
}

// ---------------------------------------------------------------------------
// Walking through everything under a directory
// ---------------------------------------------------------------------------

/// How far a walk through everything under a directory has come.
pub struct Walk {
    /// The directories that are still to be read, the next one first.
    pub queue: Vec<LexPath>,
    pub found: Vec<Entry>,
}

/// The directories among some entries.
pub open spec fn dirs_in(entries: Seq<EntryView>) -> Seq<PathView>
    decreases entries.len(),
{
    if entries.len() == 0 {
        Seq::empty()
    } else if entries.last().is_dir {
        dirs_in(entries.drop_last()).push(entries.last().path)
    } else {
        dirs_in(entries.drop_last())
    }
}

/// The view of a [`Walk`].
pub struct WalkView {
    pub queue: Seq<PathView>,
    pub found: Seq<EntryView>,
}

impl View for Walk {
    type V = WalkView;

    open spec fn view(&self) -> WalkView {
        WalkView { queue: path_views(self.queue@), found: entry_views(self.found@) }
    }
}

/// A walk from a path: a file is all that it finds, a directory is read.
pub open spec fn walk_started(path: PathView, is_file: bool) -> WalkView {
    if is_file {
        WalkView {
            queue: Seq::empty(),
            found: seq![(EntryView { path, is_dir: false, is_file: true })],
        }
    } else {
        WalkView { queue: seq![path], found: Seq::empty() }
    }
}

/// The next directory to read, and the walk behind it.
pub open spec fn walk_next(w: WalkView) -> (Option<PathView>, WalkView) {
    if w.queue.len() == 0 {
        (None, w)
    } else {
        (Some(w.queue[0]), WalkView { queue: w.queue.drop_first(), ..w })
    }
}

/// A walk after the entries of a directory: all of them are found, and the directories among them are
/// still to be read.
pub open spec fn walk_fed(w: WalkView, entries: Seq<EntryView>) -> WalkView {
    WalkView { queue: w.queue + dirs_in(entries), found: w.found + entries }
}

impl Walk {
    /// A walk from a path: a file is all that it finds, a directory is read.
    pub fn start(path: &LexPath, is_file: bool) -> (r: Walk)
        ensures
            r@ == walk_started(path@, is_file),
    {
        let mut queue: Vec<LexPath> = Vec::new();
        let mut found: Vec<Entry> = Vec::new();
        if is_file {
            found.push(Entry { path: path.copy(), is_dir: false, is_file: true });
            assert(entry_views(found@) =~= seq![
                EntryView { path: path@, is_dir: false, is_file: true },
            ]);
            assert(path_views(queue@) =~= Seq::<PathView>::empty());
        } else {
            queue.push(path.copy());
            assert(path_views(queue@) =~= seq![path@]);
            assert(entry_views(found@) =~= Seq::<EntryView>::empty());
        }
        Walk { queue, found }
    }

    /// The next directory to read; none where the walk is done.
    pub fn next(&mut self) -> (r: Option<LexPath>)
        ensures
            match walk_next(old(self)@).0 {
                Some(path) => r matches Some(dir) && dir@ == path,
                None => r is None,
            },
            final(self)@ == walk_next(old(self)@).1,
    {
        if self.queue.len() == 0 {
            return None;
        }
        let ghost before = self.queue@;
        let dir: LexPath = self.queue.remove(0);
        assert(path_views(self.queue@) =~= path_views(before).drop_first());
        Some(dir)
    }

    /// Takes the entries of a directory: all of them are found, and the directories among them are
    /// still to be read.
    pub fn feed(&mut self, entries: &Vec<Entry>)
        ensures
            final(self)@ == walk_fed(old(self)@, entry_views(entries@)),
    {
        let ghost all = entry_views(entries@);
        let ghost found = entry_views(self.found@);
        let ghost queue = path_views(self.queue@);
        let mut i: usize = 0;
        assert(found + all.take(0) =~= found);
        assert(all.take(0) =~= Seq::empty());
        assert(queue + dirs_in(all.take(0)) =~= queue);
        while i < entries.len()
            invariant
                i <= entries@.len(),
                all == entry_views(entries@),
                entry_views(self.found@) == found + all.take(i as int),
                path_views(self.queue@) == queue + dirs_in(all.take(i as int)),
            decreases entries@.len() - i,
        {
            proof {
                assert(all.take(i + 1).drop_last() =~= all.take(i as int));
                assert(all.take(i + 1).last() == entries@[i as int]@);
            }
            let ghost f = self.found@;
            let ghost q = self.queue@;
            if entries[i].is_dir {
                self.queue.push(entries[i].path.copy());
                assert(path_views(self.queue@) =~= path_views(q).push(entries@[i as int]@.path));
                assert(path_views(self.queue@) =~= queue + dirs_in(all.take(i + 1)));
            }
            self.found.push(entries[i].copy());
            assert(entry_views(self.found@) =~= entry_views(f).push(all[i as int]));
            assert(entry_views(self.found@) =~= found + all.take(i + 1));
            i += 1;
        }
        assert(all.take(i as int) =~= all);
    }
}

// ---------------------------------------------------------------------------
// Matching
// ---------------------------------------------------------------------------

/// Whether `glob::Pattern::new` takes a text as a pattern.
pub uninterp spec fn glob_is_pattern(pattern: Seq<char>) -> bool;

/// Whether a text matches a pattern, as `glob::Pattern::matches` says; nothing matches what is no
/// pattern.
pub uninterp spec fn glob_hits(pattern: Seq<char>, text: Seq<char>) -> bool;

/// `glob::Pattern::new`: whether a text is a pattern depends on the text alone.
#[verifier::external_body]
fn glob_check(pattern: &str) -> (r: bool)
    ensures
        r == glob_is_pattern(pattern@),
{
    glob::Pattern::new(pattern).is_ok()
}

/// `glob::Pattern::matches`: it depends on the pattern and the text alone.
#[verifier::external_body]
fn glob_match(pattern: &str, text: &str) -> (r: bool)
    ensures
        r == glob_hits(pattern@, text@),
{
    match glob::Pattern::new(pattern) {
        Ok(p) => p.matches(text),
        Err(_) => false,
    }
}

/// A path with its backslashes turned, as patterns see it.
pub open spec fn slashed(s: Seq<char>) -> Seq<char> {
    replaced(s, "\\"@, "/"@)
}

fn turn_slashes(s: &str) -> (r: String)
    ensures
        r@ == slashed(s@),
{
    proof {
        reveal_strlit("\\");
    }
    replace(s, "\\", "/")
}

/// The pattern to match with, or what is wrong with it.
pub open spec fn pattern_meant(pattern: Seq<char>) -> Result<Seq<char>, Seq<char>> {
    if blank(pattern) {
        Err("pattern is required"@)
    } else if glob_is_pattern(trimmed(pattern)) {
        Ok(trimmed(pattern))
    } else {
        Err("invalid glob pattern: "@ + trimmed(pattern))
    }
}

/// The pattern to match with, or what is wrong with it.
pub fn glob_pattern(pattern: &str) -> (r: Result<String, String>)
    ensures
        match pattern_meant(pattern@) {
            Ok(meant) => r matches Ok(p) && p@ == meant,
            Err(message) => r matches Err(e) && e@ == message,
        },
{
    let p: &str = trim(pattern);
    if is_blank(pattern) {
        return Err("pattern is required".to_owned());
    }
    if glob_check(p) {
        Ok(p.to_owned())
    } else {
        Err(cat2("invalid glob pattern: ", p))
    }
}

/// Which entries match a pattern; the workspace's root itself never does.
pub open spec fn entry_hits(entries: Seq<EntryView>, pattern: Seq<char>, root: PathView) -> Seq<bool> {
    Seq::new(
        entries.len(),
        |i: int|
            shown_path(entries[i].path, root) != "."@ && glob_hits(
                pattern,
                slashed(shown_path(entries[i].path, root)),
            ),
    )
}

/// The entries that were hit, as they are shown, up to `max` of them.
pub open spec fn hit_lines(
    entries: Seq<EntryView>,
    hits: Seq<bool>,
    root: PathView,
    max: nat,
) -> Seq<Seq<char>>
    decreases entries.len(),
{
    if entries.len() == 0 {
        Seq::empty()
    } else {
        let front = hit_lines(entries.drop_last(), hits, root, max);
        if hits[entries.len() - 1] && (front.len() == 0 || front.len() < max) {
            front.push(entry_line(entries.last(), root))
        } else {
            front
        }
    }
}

/// Picks the entries that were hit.
pub fn pick_hits(workspace: &Workspace, entries: &Vec<Entry>, hits: &Vec<bool>, max: usize) -> (r: Vec<
    String,
>)
    requires
        hits@.len() == entries@.len(),
    ensures
        views(r@) == hit_lines(entry_views(entries@), hits@, workspace.root@, max as nat),
{
    let mut out: Vec<String> = Vec::new();
    let ghost all = entry_views(entries@);
    let ghost root = workspace.root@;
    let mut i: usize = 0;
    assert(views(out@) =~= hit_lines(all.take(0), hits@, root, max as nat));
    while i < entries.len()
        invariant
            i <= entries@.len() == hits@.len(),
            all == entry_views(entries@),
            root == workspace.root@,
            views(out@) == hit_lines(all.take(i as int), hits@, root, max as nat),
        decreases entries@.len() - i,
    {
        proof {
            assert(all.take(i + 1).drop_last() =~= all.take(i as int));
            assert(all.take(i + 1).last() == entries@[i as int]@);
        }
        if hits[i] && (out.len() == 0 || out.len() < max) {
            let ghost before = out@;
            out.push(write_entry(workspace, &entries[i]));
            assert(views(out@) =~= views(before).push(entry_line(entries@[i as int]@, root)));
        }
        i += 1;
    }
    assert(all.take(i as int) =~= all);
    out
}

/// What matching a pattern found.
pub open spec fn matching(lines: Seq<Seq<char>>, pattern: Seq<char>) -> FindingsView {
    if lines.len() == 0 {
        FindingsView { summary: "no matches for pattern "@ + pattern, output: "(no matches)"@ }
    } else {
        FindingsView {
            summary: "matched "@ + decimal(lines.len()) + " path(s) for pattern "@ + pattern,
            output: joined(lines, "\n"@),
        }
    }
}

/// Writes what matching a pattern found.
pub fn write_matching(lines: &Vec<String>, pattern: &str) -> (r: Findings)
    ensures
        r@ == matching(views(lines@), pattern@),
{
    if lines.len() == 0 {
        Findings {
            summary: cat2("no matches for pattern ", pattern),
            output: "(no matches)".to_owned(),
        }
    } else {
        let n: String = write_decimal(lines.len() as u64);
        Findings {
            summary: cat4("matched ", n.as_str(), " path(s) for pattern ", pattern),
            output: join(lines, "\n"),
        }
    }
}

/// What matching everything that was found under a directory with a pattern finds: in the order of the
/// paths, up to `max` of them.
pub open spec fn matched(
    found: Seq<EntryView>,
    pattern: Seq<char>,
    root: PathView,
    max: nat,
) -> FindingsView {
    matching(
        hit_lines(in_order(found), entry_hits(in_order(found), pattern, root), root, max),
        pattern,
    )
}

/// Matches everything that was found under a directory with a pattern.
pub fn tool_glob_files(
    workspace: &Workspace,
    pattern: &str,
    found: &Vec<Entry>,
    max_results: usize,
) -> (r: Findings)
    ensures
        r@ == matched(entry_views(found@), pattern@, workspace.root@, max_results as nat),
{
    let sorted: Vec<Entry> = sort_entries(found);
    let ghost all = entry_views(sorted@);
    let ghost root = workspace.root@;
    let mut hits: Vec<bool> = Vec::new();
    let mut i: usize = 0;
    while i < sorted.len()
        invariant
            i <= sorted@.len(),
            all == entry_views(sorted@),
            root == workspace.root@,
            hits@ =~= entry_hits(all, pattern@, root).take(i as int),
        decreases sorted@.len() - i,
    {
        let shown: String = workspace.relative_display(&sorted[i].path);
        let turned: String = turn_slashes(shown.as_str());
        let hit: bool = !same(shown.as_str(), ".") && glob_match(pattern, turned.as_str());
        hits.push(hit);
        assert(entry_hits(all, pattern@, root)[i as int] == hit);
        i += 1;
    }
    assert(hits@ =~= entry_hits(all, pattern@, root));
    let lines: Vec<String> = pick_hits(workspace, &sorted, &hits, max_results);
    write_matching(&lines, pattern)
}

// ---------------------------------------------------------------------------
// Searching
// ---------------------------------------------------------------------------

/// A search through files.
pub struct Grep {
    /// What is looked for; in lower case where case does not matter.
    pub needle: String,
    pub case_sensitive: bool,
    /// The files that are searched, where not all are.
    pub only_in: Option<String>,
    pub max_results: usize,
}

/// Whether a search is well put, and how.
pub open spec fn grep_complaint(query: Seq<char>, only_in: Option<Seq<char>>) -> Option<Seq<char>> {
    if blank(query) {
        Some("query is required"@)
    } else {
        match only_in {
            Some(p) => if !blank(p) && !glob_is_pattern(trimmed(p)) {
                Some("invalid include_glob pattern: "@ + trimmed(p))
            } else {
                None
            },
            None => None,
        }
    }
}

/// What a search looks for: its letters are small ones where case does not matter.
pub open spec fn needle_of(query: Seq<char>, case_sensitive: bool) -> Seq<char> {
    if case_sensitive {
        trimmed(query)
    } else {
        lower(trimmed(query))
    }
}

/// The pattern of the files to search, where not all are.
pub open spec fn files_wanted(only_in: Option<Seq<char>>) -> Option<Seq<char>> {
    match only_in {
        Some(p) => if blank(p) {
            None
        } else {
            Some(trimmed(p))
        },
        None => None,
    }
}

/// Whether a file is searched.
pub open spec fn is_wanted(only_in: Option<Seq<char>>, shown: Seq<char>) -> bool {
    match only_in {
        Some(p) => glob_hits(p, slashed(shown)),
        None => true,
    }
}

/// Begins a search, or says what is wrong with it.
pub fn start_grep(
    query: &str,
    only_in: Option<&str>,
    case_sensitive: bool,
    max_results: usize,
) -> (r: Result<Grep, String>)
    ensures
        match grep_complaint(query@, opt_str_view(only_in)) {
            Some(message) => r matches Err(e) && e@ == message,
            None => r matches Ok(g) && g.needle@ == needle_of(query@, case_sensitive)
                && g.case_sensitive == case_sensitive && g.max_results == max_results && opt_view(
                g.only_in,
            ) == files_wanted(opt_str_view(only_in)),
        },
{
    if is_blank(query) {
        return Err("query is required".to_owned());
    }
    let only_in: Option<String> = match only_in {
        Some(p) => if is_blank(p) {
            None
        } else if glob_check(trim(p)) {
            Some(trim(p).to_owned())
        } else {
            return Err(cat2("invalid include_glob pattern: ", trim(p)));
        },
        None => None,
    };
    let needle: String = if case_sensitive {
        trim(query).to_owned()
    } else {
        to_lowercase(trim(query))
    };
    Ok(Grep { needle, case_sensitive, only_in, max_results })
}

/// The files among some entries.
pub open spec fn files_in(entries: Seq<EntryView>) -> Seq<EntryView>
    decreases entries.len(),
{
    if entries.len() == 0 {
        Seq::empty()
    } else if entries.last().is_file {
        files_in(entries.drop_last()).push(entries.last())
    } else {
        files_in(entries.drop_last())
    }
}

/// The files among what was found, in the order of their paths.
pub fn collect_workspace_files(found: &Vec<Entry>) -> (r: Vec<Entry>)
    ensures
        entry_views(r@) == in_order(files_in(entry_views(found@))),
{
    let mut files: Vec<Entry> = Vec::new();
    let ghost all = entry_views(found@);
    let mut i: usize = 0;
    assert(entry_views(files@) =~= files_in(all.take(0)));
    while i < found.len()
        invariant
            i <= found@.len(),
            all == entry_views(found@),
            entry_views(files@) == files_in(all.take(i as int)),
        decreases found@.len() - i,
    {
        proof {
            assert(all.take(i + 1).drop_last() =~= all.take(i as int));
            assert(all.take(i + 1).last() == found@[i as int]@);
        }
        if found[i].is_file {
            let ghost before = files@;
            files.push(found[i].copy());
            assert(entry_views(files@) =~= entry_views(before).push(all[i as int]));
        }
        i += 1;
    }
    assert(all.take(i as int) =~= all);
    sort_entries(&files)
}

/// Whether a line holds what is looked for.
pub open spec fn line_hit(line: Seq<char>, needle: Seq<char>, case_sensitive: bool) -> bool {
    if case_sensitive {
        contains(line, needle)
    } else {
        contains(lower(line), needle)
    }
}

/// A hit: the file, the number of the line, and as much of the line as is shown.
pub open spec fn hit_text(shown: Seq<char>, number: nat, line: Seq<char>) -> Seq<char> {
    shown + ":"@ + decimal(number) + ": "@ + cut(line, 240, "..."@)
}

/// The hits after the first `n` lines of a file, up to `max` of them.
pub open spec fn hits_after(
    hits: Seq<Seq<char>>,
    shown: Seq<char>,
    lines: Seq<Seq<char>>,
    needle: Seq<char>,
    case_sensitive: bool,
    max: nat,
) -> Seq<Seq<char>>
    decreases lines.len(),
{
    if lines.len() == 0 {
        hits
    } else {
        let before = hits_after(hits, shown, lines.drop_last(), needle, case_sensitive, max);
        if line_hit(lines.last(), needle, case_sensitive) && (before.len() == 0 || before.len() < max) {
            before.push(hit_text(shown, lines.len(), lines.last()))
        } else {
            before
        }
    }
}

impl Grep {
    /// Whether a file is searched.
    pub fn wants(&self, shown: &str) -> (r: bool)
        ensures
            r == is_wanted(opt_view(self.only_in), shown@),
    {
        match &self.only_in {
            Some(p) => {
                let turned: String = turn_slashes(shown);
                glob_match(p.as_str(), turned.as_str())
            },
            None => true,
        }
    }

    /// Whether there are as many hits as may be shown.
    pub fn is_full(&self, hits: &Vec<String>) -> (r: bool)
        ensures
            r == (hits@.len() >= self.max_results),
    {
        hits.len() >= self.max_results
    }

    /// Searches a file.
    pub fn search(&self, hits: &mut Vec<String>, shown: &str, content: &str)
        ensures
            views(final(hits)@) == hits_after(
                views(old(hits)@),
                shown@,
                lines_of(content@),
                self.needle@,
                self.case_sensitive,
                self.max_results as nat,
            ),
    {
        let all: Vec<String> = lines(content);
        let ghost texts = lines_of(content@);
        let ghost start = views(hits@);
        let mut i: usize = 0;
        assert(texts.take(0) =~= Seq::empty());
        while i < all.len()
            invariant
                i <= all@.len(),
                views(all@) == texts,
                views(hits@) == hits_after(
                    start,
                    shown@,
                    texts.take(i as int),
                    self.needle@,
                    self.case_sensitive,
                    self.max_results as nat,
                ),
            decreases all@.len() - i,
        {
            proof {
                assert(texts.take(i + 1).drop_last() =~= texts.take(i as int));
                assert(texts.take(i + 1).last() == all@[i as int]@);
            }
            let line: &str = all[i].as_str();
            let hit: bool = if self.case_sensitive {
                has(line, self.needle.as_str())
            } else {
                let low: String = to_lowercase(line);
                has(low.as_str(), self.needle.as_str())
            };
            if hit && (hits.len() == 0 || hits.len() < self.max_results) {
                let n: String = write_decimal(i as u64 + 1);
                let part: String = truncate_line(line, 240);
                let text: String = cat5(shown, ":", n.as_str(), ": ", part.as_str());
                let ghost before = hits@;
                hits.push(text);
                assert(views(hits@) =~= views(before).push(text@));
            }
            i += 1;
        }
        assert(texts.take(i as int) =~= texts);
    }
}

/// What Rust's `{:?}` writes for a text: in quotes, with its special characters escaped.
pub uninterp spec fn quoted(s: Seq<char>) -> Seq<char>;

/// `format!` with `{:?}` for a text: it depends on the text alone.
#[verifier::external_body]
fn quote(s: &str) -> (r: String)
    ensures
        r@ == quoted(s@),
{
    format!("{:?}", s)
}

/// What a search found.
pub open spec fn searching(hits: Seq<Seq<char>>, quoted_needle: Seq<char>) -> FindingsView {
    if hits.len() == 0 {
        FindingsView { summary: "no matches for query "@ + quoted_needle, output: "(no matches)"@ }
    } else {
        FindingsView {
            summary: "found "@ + decimal(hits.len()) + " match(es) for query "@ + quoted_needle,
            output: joined(hits, "\n"@),
        }
    }
}

/// Writes what a search found; `quoted_needle` is what was looked for, in quotes.
pub fn write_searching(hits: &Vec<String>, quoted_needle: &str) -> (r: Findings)
    ensures
        r@ == searching(views(hits@), quoted_needle@),
{
    if hits.len() == 0 {
        Findings {
            summary: cat2("no matches for query ", quoted_needle),
            output: "(no matches)".to_owned(),
        }
    } else {
        let n: String = write_decimal(hits.len() as u64);
        Findings {
            summary: cat4("found ", n.as_str(), " match(es) for query ", quoted_needle),
            output: join(hits, "\n"),
        }
    }
}

/// What a search for `query` found.
pub fn grep_done(query: &str, hits: &Vec<String>) -> (r: Findings)
    ensures
        r@ == searching(views(hits@), quoted(trimmed(query@))),
{
    let shown: String = quote(trim(query));
    write_searching(hits, shown.as_str())
}

// ---------------------------------------------------------------------------
// Reading
// ---------------------------------------------------------------------------

/// A text with spaces in front of it, up to a width.
pub open spec fn padded(s: Seq<char>, width: nat) -> Seq<char> {
    if s.len() >= width {
        Seq::empty() + s
    } else {
        repeated(' ', (width - s.len()) as nat) + s
    }
}

/// Lines with their numbers in front; the first has number `from`.
pub open spec fn numbered(lines: Seq<Seq<char>>, from: nat) -> Seq<char>
    decreases lines.len(),
{
    if lines.len() == 0 {
        Seq::empty()
    } else {
        numbered(lines.drop_last(), from) + (padded(decimal((from + lines.len() - 1) as nat), 5)
            + " | "@ + lines.last() + "\n"@)
    }
}

/// The larger of two numbers.
pub open spec fn larger(a: nat, b: nat) -> nat {
    if a >= b {
        a
    } else {
        b
    }
}

/// What is read of a file: the lines from `start` to `end`, counted from 1; all of them where nothing
/// is said.
pub open spec fn reading(
    shown: Seq<char>,
    content: Seq<char>,
    start: Option<nat>,
    end: Option<nat>,
) -> Result<FindingsView, Seq<char>> {
    let all = lines_of(content);
    let total = all.len();
    let first = match start {
        Some(n) => larger(n, 1),
        None => 1,
    };
    let wanted = match end {
        Some(n) => larger(n, first),
        None => larger(total, first),
    };
    if total == 0 {
        Ok(
            FindingsView {
                summary: "read "@ + shown + " (empty file)"@,
                output: "(empty file)\n"@,
            },
        )
    } else if first > total {
        Err(
            "start_line "@ + decimal(first) + " exceeds total lines "@ + decimal(total),
        )
    } else {
        let last = if wanted <= total {
            wanted
        } else {
            total
        };
        Ok(
            FindingsView {
                summary: "read "@ + shown + (" (lines "@ + decimal(first) + "-"@ + decimal(last)
                    + " of "@) + decimal(total) + ")"@,
                output: numbered(all.subrange(first - 1, last as int), first),
            },
        )
    }
}

fn pad(s: &str, width: usize) -> (r: String)
    ensures
        r@ == padded(s@, width as nat),
{
    let n: usize = s.unicode_len();
    if n >= width {
        assert(Seq::<char>::empty() + s@ =~= s@);
        s.to_owned()
    } else {
        let space: String = repeat(' ', width - n);
        cat2(space.as_str(), s)
    }
}

/// Reads a part of a file.
pub fn read_lines(shown: &str, content: &str, start: Option<usize>, end: Option<usize>) -> (r: Result<
    Findings,
    String,
>)
    ensures
        match reading(shown@, content@, opt_nat(start), opt_nat(end)) {
            Ok(found) => r matches Ok(f) && f@ == found,
            Err(message) => r matches Err(e) && e@ == message,
        },
{
    let all: Vec<String> = lines(content);
    let ghost texts = lines_of(content@);
    let total: usize = all.len();
    if total == 0 {
        return Ok(
            Findings {
                summary: cat3("read ", shown, " (empty file)"),
                output: "(empty file)\n".to_owned(),
            },
        );
    }
    let first: usize = match start {
        Some(n) => if n >= 1 {
            n
        } else {
            1
        },
        None => 1,
    };
    let wanted: usize = match end {
        Some(n) => if n >= first {
            n
        } else {
            first
        },
        None => if total >= first {
            total
        } else {
            first
        },
    };
    let a: String = write_decimal(first as u64);
    let z: String = write_decimal(total as u64);
    if first > total {
        return Err(cat4("start_line ", a.as_str(), " exceeds total lines ", z.as_str()));
    }
    let last: usize = if wanted <= total {
        wanted
    } else {
        total
    };
    let mut out: String = String::new();
    let mut i: usize = first - 1;
    let ghost part = texts.subrange(first - 1, last as int);
    assert(part.take(0) =~= Seq::empty());
    while i < last
        invariant
            1 <= first <= i + 1,
            i <= last <= total == all@.len(),
            views(all@) == texts,
            part == texts.subrange(first - 1, last as int),
            out@ == numbered(part.take(i - (first - 1)), first as nat),
        decreases last - i,
    {
        proof {
            let k = i - (first - 1);
            assert(part.take(k + 1).drop_last() =~= part.take(k));
            assert(part.take(k + 1).last() == all@[i as int]@);
        }
        let number: String = write_decimal(i as u64 + 1);
        let column: String = pad(number.as_str(), 5);
        let line: String = cat4(column.as_str(), " | ", all[i].as_str(), "\n");
        out = cat2(out.as_str(), line.as_str());
        i += 1;
    }
    assert(part.take(i - (first - 1)) =~= part);
    let b: String = write_decimal(last as u64);
    let range: String = cat5(" (lines ", a.as_str(), "-", b.as_str(), " of ");
    Ok(
        Findings {
            summary: cat5("read ", shown, range.as_str(), z.as_str(), ")"),
            output: out,
        },
    )
}

/// What reading a path gives: a directory or what is no text cannot be read.
pub open spec fn file_reading(
    path: PathView,
    root: PathView,
    is_dir: bool,
    content: Option<Seq<char>>,
    start: Option<nat>,
    end: Option<nat>,
) -> Result<FindingsView, Seq<char>> {
    if is_dir {
        Err(shown_path(path, root) + " is a directory"@)
    } else {
        match content {
            Some(text) => reading(shown_path(path, root), text, start, end),
            None => Err("failed to read "@ + path_text(path) + " as UTF-8 text"@),
        }
    }
}

/// Reads a file, once the disk was asked what it is and what it holds.
pub fn tool_read_file(
    workspace: &Workspace,
    path: &LexPath,
    is_dir: bool,
    content: Option<&str>,
    start: Option<usize>,
    end: Option<usize>,
) -> (r: Result<Findings, String>)
    ensures
        match file_reading(
            path@,
            workspace.root@,
            is_dir,
            opt_str_view(content),
            opt_nat(start),
            opt_nat(end),
        ) {
            Ok(found) => r matches Ok(f) && f@ == found,
            Err(message) => r matches Err(e) && e@ == message,
        },
{
    let shown: String = workspace.relative_display(path);
    if is_dir {
        return Err(cat2(shown.as_str(), " is a directory"));
    }
    match content {
        Some(text) => read_lines(shown.as_str(), text, start, end),
        None => {
            let whole: String = path.text();
            Err(cat3("failed to read ", whole.as_str(), " as UTF-8 text"))
        },
    }
}

} // verus!
