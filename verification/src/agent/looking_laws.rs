//! What listing, matching, searching and reading find, told by what is in the files.

use vstd::prelude::*;

use crate::agent::entries::EntryView;
use crate::agent::looking::{
    dirs_in, entry_hits, entry_line, file_reading, files_in, glob_hits, hit_lines, hit_text,
    hits_after, line_hit, list_directory, list_entries, listed_lines, listing, looked, matching,
    numbered, padded, reading, searching, slashed, FindingsView, ListView,
};
use crate::agent::outcome::cut;
use crate::agent::path::{shown_path, PathView};
use crate::letter::lower;
use crate::lines::{joined, lines_of, repeated};
use crate::number::decimal;
use crate::search::contains;

verus! {

/// A line as a reader sees it: its number, five columns wide or more, a bar, and its text.
pub open spec fn row(number: nat, text: Seq<char>) -> Seq<char> {
    let digits = decimal(number);
    let space = if digits.len() < 5 {
        (5 - digits.len()) as nat
    } else {
        0
    };
    Seq::new(space, |i: int| ' ') + digits + " | "@ + text + "\n"@
}

/// The lines number `first` to `last` of a text, one row for each.
pub open spec fn rows(lines: Seq<Seq<char>>, first: nat, last: nat) -> Seq<char>
    decreases last + 1 - first,
{
    if first > last {
        Seq::empty()
    } else {
        row(first, lines[first - 1]) + rows(lines, first + 1, last)
    }
}

proof fn lemma_row(number: nat, text: Seq<char>)
    ensures
        padded(decimal(number), 5) + " | "@ + text + "\n"@ == row(number, text),
{
    let digits = decimal(number);
    if digits.len() < 5 {
        assert(repeated(' ', (5 - digits.len()) as nat) =~= Seq::new(
            (5 - digits.len()) as nat,
            |i: int| ' ',
        ));
    } else {
        assert(Seq::<char>::empty() + digits =~= Seq::new(0nat, |i: int| ' ') + digits);
    }
}

proof fn lemma_rows_end(lines: Seq<Seq<char>>, first: nat, last: nat)
    requires
        1 <= first <= last,
    ensures
        rows(lines, first, last) == rows(lines, first, (last - 1) as nat) + row(last, lines[last - 1]),
    decreases last - first,
{
    if first < last {
        lemma_rows_end(lines, first + 1, last);
        assert(row(first, lines[first - 1]) + (rows(lines, first + 1, (last - 1) as nat) + row(
            last,
            lines[last - 1],
        )) =~= (row(first, lines[first - 1]) + rows(lines, first + 1, (last - 1) as nat)) + row(
            last,
            lines[last - 1],
        ));
    } else {
        assert(rows(lines, first + 1, last) =~= Seq::empty());
        assert(rows(lines, first, (last - 1) as nat) =~= Seq::empty());
        assert(row(first, lines[first - 1]) + Seq::<char>::empty() =~= Seq::<char>::empty() + row(
            last,
            lines[last - 1],
        ));
    }
}

proof fn lemma_numbered_is_rows(lines: Seq<Seq<char>>, first: nat, last: nat)
    requires
        1 <= first,
        first - 1 <= last <= lines.len(),
    ensures
        numbered(lines.subrange(first - 1, last as int), first) == rows(lines, first, last),
    decreases last,
{
    let part = lines.subrange(first - 1, last as int);
    if first <= last {
        let less = (last - 1) as nat;
        lemma_numbered_is_rows(lines, first, less);
        assert(part.drop_last() =~= lines.subrange(first - 1, less as int));
        assert(part.last() == lines[last - 1]);
        lemma_rows_end(lines, first, last);
        lemma_row(last, lines[last - 1]);
    } else {
        assert(part =~= Seq::empty());
    }
}

/// Reading a file from line `start` to line `end`, where it has both, shows exactly those lines, from
/// the first of them to the last, each with its number; and the summary says so.
pub proof fn law_reading_shows_the_lines(shown: Seq<char>, content: Seq<char>, start: nat, end: nat)
    requires
        1 <= start <= end <= lines_of(content).len(),
    ensures
        reading(shown, content, Some(start), Some(end)) matches Ok(found) && {
            &&& found.output == rows(lines_of(content), start, end)
            &&& found.summary == "read "@ + shown + " (lines "@ + decimal(start) + "-"@ + decimal(end)
                + " of "@ + decimal(lines_of(content).len()) + ")"@
        },
{
    lemma_numbered_is_rows(lines_of(content), start, end);
    if let Ok(found) = reading(shown, content, Some(start), Some(end)) {
        assert(found.summary =~= "read "@ + shown + " (lines "@ + decimal(start) + "-"@ + decimal(end)
            + " of "@ + decimal(lines_of(content).len()) + ")"@);
    }
}

/// Where nothing is said, reading begins at the first line and ends at the last; line 0 is the first
/// line, an end behind the last line is the last, and an end before the start is the start.
pub proof fn law_reading_stays_in_the_file(
    shown: Seq<char>,
    content: Seq<char>,
    start: nat,
    end: nat,
    from: Option<nat>,
    to: Option<nat>,
)
    requires
        lines_of(content).len() > 0,
        1 <= start <= lines_of(content).len(),
    ensures
        reading(shown, content, None, to) == reading(shown, content, Some(1), to),
        reading(shown, content, Some(0), to) == reading(shown, content, Some(1), to),
        reading(shown, content, Some(start), None) == reading(
            shown,
            content,
            Some(start),
            Some(lines_of(content).len()),
        ),
        end >= lines_of(content).len() ==> reading(shown, content, Some(start), Some(end))
            == reading(shown, content, Some(start), Some(lines_of(content).len())),
        end <= start ==> reading(shown, content, Some(start), Some(end)) == reading(
            shown,
            content,
            Some(start),
            Some(start),
        ),
{
}

/// A start behind the last line is refused, unless the file is empty: then there is nothing to read.
pub proof fn law_reading_needs_a_line(
    shown: Seq<char>,
    content: Seq<char>,
    start: nat,
    end: Option<nat>,
)
    ensures
        0 < lines_of(content).len() < start ==> reading(shown, content, Some(start), end) is Err,
        reading(shown, content, Some(start), end) is Err ==> 0 < lines_of(content).len() < start,
        lines_of(content).len() == 0 ==> (reading(shown, content, Some(start), end) matches Ok(found)
            && found.output == "(empty file)\n"@),
{
}

/// Only a file that holds text is read; it is shown by its path in the workspace.
pub proof fn law_only_text_is_read(
    path: PathView,
    root: PathView,
    content: Seq<char>,
    start: Option<nat>,
    end: Option<nat>,
)
    ensures
        file_reading(path, root, true, Some(content), start, end) is Err,
        file_reading(path, root, false, None, start, end) is Err,
        file_reading(path, root, false, Some(content), start, end) == reading(
            shown_path(path, root),
            content,
            start,
            end,
        ),
{
}

/// An entry is listed by its path in the workspace, and a directory has a slash behind it.
pub proof fn law_entries_are_told_apart(entry: EntryView, root: PathView)
    ensures
        entry.is_dir ==> entry_line(entry, root) == shown_path(entry.path, root).push('/'),
        !entry.is_dir ==> entry_line(entry, root) == shown_path(entry.path, root),
{
    reveal_strlit("/");
    reveal_strlit("");
    if entry.is_dir {
        assert(entry_line(entry, root) =~= shown_path(entry.path, root).push('/'));
    } else {
        assert(entry_line(entry, root) =~= shown_path(entry.path, root));
    }
}

/// A listing with room for them takes in every entry, in order, and goes on into every directory
/// exactly where it is recursive.
pub proof fn law_listing_takes_every_entry(
    state: ListView,
    entries: Seq<EntryView>,
    root: PathView,
)
    requires
        !state.truncated,
        state.lines.len() + entries.len() < state.max_entries,
    ensures
        !list_entries(state, entries, root).truncated,
        list_entries(state, entries, root).lines.len() == state.lines.len() + entries.len(),
        forall|i: int|
            0 <= i < state.lines.len() ==> #[trigger] list_entries(state, entries, root).lines[i]
                == state.lines[i],
        forall|i: int|
            0 <= i < entries.len() ==> #[trigger] list_entries(
                state,
                entries,
                root,
            ).lines[state.lines.len() + i] == entry_line(entries[i], root),
        state.recursive ==> list_entries(state, entries, root).queue == state.queue + dirs_in(entries),
        !state.recursive ==> list_entries(state, entries, root).queue == state.queue,
        list_entries(state, entries, root).recursive == state.recursive,
        list_entries(state, entries, root).max_entries == state.max_entries,
    decreases entries.len(),
{
    if entries.len() > 0 {
        let front = entries.drop_last();
        law_listing_takes_every_entry(state, front, root);
        let before = list_entries(state, front, root);
        let after = list_entries(state, entries, root);
        let n = state.lines.len();
        assert forall|i: int| 0 <= i < entries.len() implies #[trigger] after.lines[n + i]
            == entry_line(entries[i], root) by {
            if i < front.len() {
                assert(before.lines[n + i] == entry_line(front[i], root));
                assert(front[i] == entries[i]);
            }
        }
        assert forall|i: int| 0 <= i < n implies #[trigger] after.lines[i] == state.lines[i] by {
            assert(before.lines[i] == state.lines[i]);
        }
        if state.recursive {
            assert(after.queue =~= state.queue + dirs_in(entries));
        }
    } else {
        assert(state.queue + dirs_in(entries) =~= state.queue);
    }
}

/// A listing that is not recursive reads no directory but the one that was asked for.
pub proof fn law_flat_listing_reads_one(state: ListView, entries: Seq<EntryView>, root: PathView)
    requires
        !state.recursive,
    ensures
        list_directory(state, entries, root).queue.len() == 0,
{
    lemma_listing_keeps_its_way(state, crate::agent::entries::in_order(entries), root);
}

proof fn lemma_listing_keeps_its_way(state: ListView, entries: Seq<EntryView>, root: PathView)
    ensures
        list_entries(state, entries, root).recursive == state.recursive,
    decreases entries.len(),
{
    if entries.len() > 0 {
        lemma_listing_keeps_its_way(state, entries.drop_last(), root);
    }
}

/// The directories among some entries are those that are one, and the files those that are one.
pub proof fn law_entries_are_sorted_out(entries: Seq<EntryView>, entry: EntryView, path: PathView)
    ensures
        dirs_in(entries).contains(path) <==> exists|i: int|
            0 <= i < entries.len() && (#[trigger] entries[i]).is_dir && entries[i].path == path,
        files_in(entries).contains(entry) <==> entries.contains(entry) && entry.is_file,
    decreases entries.len(),
{
    if entries.len() > 0 {
        let front = entries.drop_last();
        let last = entries.len() - 1;
        law_entries_are_sorted_out(front, entry, path);
        assert(entries[last] == entries.last());
        if dirs_in(entries).contains(path) {
            let k = choose|k: int| 0 <= k < dirs_in(entries).len() && dirs_in(entries)[k] == path;
            if k < dirs_in(front).len() {
                assert(dirs_in(front)[k] == path);
                let i = choose|i: int|
                    0 <= i < front.len() && (#[trigger] front[i]).is_dir && front[i].path == path;
                assert(entries[i] == front[i]);
            } else {
                assert(entries[last].is_dir && entries[last].path == path);
            }
        }
        if exists|i: int|
            0 <= i < entries.len() && (#[trigger] entries[i]).is_dir && entries[i].path == path {
            let i = choose|i: int|
                0 <= i < entries.len() && (#[trigger] entries[i]).is_dir && entries[i].path == path;
            if i < last {
                assert(front[i].is_dir && front[i].path == path);
                let k = choose|k: int| 0 <= k < dirs_in(front).len() && dirs_in(front)[k] == path;
                assert(dirs_in(entries)[k] == path);
            } else {
                assert(dirs_in(entries)[dirs_in(entries).len() - 1] == path);
            }
        }
        if files_in(entries).contains(entry) {
            let k = choose|k: int| 0 <= k < files_in(entries).len() && files_in(entries)[k] == entry;
            if k < files_in(front).len() {
                assert(files_in(front)[k] == entry);
                let i = choose|i: int| 0 <= i < front.len() && front[i] == entry;
                assert(entries[i] == entry);
            } else {
                assert(entries[last] == entry);
            }
        }
        if entries.contains(entry) && entry.is_file {
            let i = choose|i: int| 0 <= i < entries.len() && entries[i] == entry;
            if i < last {
                assert(front[i] == entry);
                assert(files_in(front).contains(entry));
                let k = choose|k: int| 0 <= k < files_in(front).len() && files_in(front)[k] == entry;
                assert(files_in(entries)[k] == entry);
            } else {
                assert(files_in(entries)[files_in(entries).len() - 1] == entry);
            }
        }
    }
}

/// A finished listing says how many lines it has and shows them all; one that was cut short says so in
/// a last line.
pub proof fn law_listing_shows_its_lines(state: ListView, lines: Seq<Seq<char>>, shown: Seq<char>)
    ensures
        listing(lines, shown).summary == "listed "@ + decimal(lines.len()) + " entries from "@ + shown,
        lines.len() > 0 ==> listing(lines, shown).output == joined(lines, "\n"@),
        lines.len() == 0 ==> listing(lines, shown).output == "(no entries)"@,
        !state.truncated ==> listed_lines(state) == state.lines,
        state.truncated ==> listed_lines(state).len() == state.lines.len() + 1 && listed_lines(
            state,
        ).take(state.lines.len() as int) == state.lines && listed_lines(state).last()
            == "...truncated at "@ + decimal(state.max_entries) + " entries"@,
{
    if state.truncated {
        assert(listed_lines(state).take(state.lines.len() as int) =~= state.lines);
    }
}

/// An entry is hit exactly where the pattern matches its path in the workspace; the root never is.
pub proof fn law_pattern_hits_paths(
    entries: Seq<EntryView>,
    pattern: Seq<char>,
    root: PathView,
    i: int,
)
    requires
        0 <= i < entries.len(),
    ensures
        entry_hits(entries, pattern, root).len() == entries.len(),
        entries[i].path == root ==> !entry_hits(entries, pattern, root)[i],
        shown_path(entries[i].path, root) != "."@ ==> entry_hits(entries, pattern, root)[i]
            == glob_hits(pattern, slashed(shown_path(entries[i].path, root))),
{
}

/// With room for them, what matching finds is what was hit: every entry that was hit is shown, and
/// nothing else is. It never finds more than it may, where it may find any.
pub proof fn law_matching_finds_the_hits(
    entries: Seq<EntryView>,
    hits: Seq<bool>,
    root: PathView,
    max: nat,
    line: Seq<char>,
)
    requires
        hits.len() >= entries.len(),
        max > 0,
    ensures
        hit_lines(entries, hits, root, max).len() <= max,
        hit_lines(entries, hits, root, max).len() <= entries.len(),
        entries.len() <= max ==> (hit_lines(entries, hits, root, max).contains(line) <==> exists|i: int|
            0 <= i < entries.len() && hits[i] && line == entry_line(#[trigger] entries[i], root)),
    decreases entries.len(),
{
    if entries.len() > 0 {
        let front = entries.drop_last();
        let last = entries.len() - 1;
        let before = hit_lines(front, hits, root, max);
        let after = hit_lines(entries, hits, root, max);
        law_matching_finds_the_hits(front, hits, root, max, line);
        if entries.len() <= max {
            if after.contains(line) {
                let k = choose|k: int| 0 <= k < after.len() && after[k] == line;
                if k < before.len() {
                    assert(before[k] == line);
                    let i = choose|i: int|
                        0 <= i < front.len() && hits[i] && line == entry_line(
                            #[trigger] front[i],
                            root,
                        );
                    assert(entries[i] == front[i]);
                } else {
                    assert(line == entry_line(entries[last], root));
                }
            }
            if exists|i: int|
                0 <= i < entries.len() && hits[i] && line == entry_line(
                    #[trigger] entries[i],
                    root,
                ) {
                let i = choose|i: int|
                    0 <= i < entries.len() && hits[i] && line == entry_line(
                        #[trigger] entries[i],
                        root,
                    );
                if i < last {
                    assert(line == entry_line(front[i], root));
                    let k = choose|k: int| 0 <= k < before.len() && before[k] == line;
                    assert(after[k] == line);
                } else {
                    assert(after[after.len() - 1] == line);
                }
            }
        }
    }
}

/// What matching found is told by its number, and shown line by line.
pub proof fn law_matching_shows_its_lines(lines: Seq<Seq<char>>, pattern: Seq<char>)
    ensures
        lines.len() > 0 ==> matching(lines, pattern).output == joined(lines, "\n"@) && matching(
            lines,
            pattern,
        ).summary == "matched "@ + decimal(lines.len()) + " path(s) for pattern "@ + pattern,
        lines.len() == 0 ==> matching(lines, pattern).summary == "no matches for pattern "@ + pattern,
{
}

/// A line is a hit exactly where it holds what is looked for; where case does not matter, its letters
/// are taken as small ones.
pub proof fn law_hits_hold_the_needle(line: Seq<char>, needle: Seq<char>)
    ensures
        line_hit(line, needle, true) <==> contains(line, needle),
        line_hit(line, needle, false) <==> contains(lower(line), needle),
{
}

/// With room for them, a search adds one hit for every line that holds what is looked for, with its
/// file and its number, counted from 1, and nothing else; what was found before stays.
pub proof fn law_searching_finds_the_lines(
    hits: Seq<Seq<char>>,
    shown: Seq<char>,
    lines: Seq<Seq<char>>,
    needle: Seq<char>,
    case_sensitive: bool,
    max: nat,
    hit: Seq<char>,
)
    requires
        hits.len() + lines.len() <= max,
    ensures
        hits.len() <= hits_after(hits, shown, lines, needle, case_sensitive, max).len() <= hits.len()
            + lines.len(),
        hits_after(hits, shown, lines, needle, case_sensitive, max).take(hits.len() as int) == hits,
        hits_after(hits, shown, lines, needle, case_sensitive, max).skip(hits.len() as int).contains(
            hit,
        ) <==> exists|i: int|
            0 <= i < lines.len() && line_hit(#[trigger] lines[i], needle, case_sensitive) && hit
                == hit_text(shown, (i + 1) as nat, lines[i]),
    decreases lines.len(),
{
    let after = hits_after(hits, shown, lines, needle, case_sensitive, max);
    let n = hits.len() as int;
    if lines.len() > 0 {
        let front = lines.drop_last();
        let last = lines.len() - 1;
        let before = hits_after(hits, shown, front, needle, case_sensitive, max);
        law_searching_finds_the_lines(hits, shown, front, needle, case_sensitive, max, hit);
        assert(after.take(n) =~= before.take(n));
        assert(lines[last] == lines.last());
        let new = after.skip(n);
        let old_new = before.skip(n);
        if new.contains(hit) {
            let k = choose|k: int| 0 <= k < new.len() && new[k] == hit;
            if k < old_new.len() {
                assert(old_new[k] == hit);
                let i = choose|i: int|
                    0 <= i < front.len() && line_hit(#[trigger] front[i], needle, case_sensitive)
                        && hit == hit_text(shown, (i + 1) as nat, front[i]);
                assert(lines[i] == front[i]);
            } else {
                assert(hit == hit_text(shown, (last + 1) as nat, lines[last]));
            }
        }
        if exists|i: int|
            0 <= i < lines.len() && line_hit(#[trigger] lines[i], needle, case_sensitive) && hit
                == hit_text(shown, (i + 1) as nat, lines[i]) {
            let i = choose|i: int|
                0 <= i < lines.len() && line_hit(#[trigger] lines[i], needle, case_sensitive) && hit
                    == hit_text(shown, (i + 1) as nat, lines[i]);
            if i < last {
                assert(front[i] == lines[i]);
                let k = choose|k: int| 0 <= k < old_new.len() && old_new[k] == hit;
                assert(new[k] == hit);
            } else {
                assert(new[new.len() - 1] == hit);
            }
        }
    } else {
        assert(after.take(n) =~= hits);
        assert(after.skip(n) =~= Seq::empty());
    }
}

/// A search never has more hits than it may, once it may have any.
pub proof fn law_searching_is_bounded(
    hits: Seq<Seq<char>>,
    shown: Seq<char>,
    lines: Seq<Seq<char>>,
    needle: Seq<char>,
    case_sensitive: bool,
    max: nat,
)
    requires
        0 < max,
        hits.len() <= max,
    ensures
        hits_after(hits, shown, lines, needle, case_sensitive, max).len() <= max,
    decreases lines.len(),
{
    if lines.len() > 0 {
        law_searching_is_bounded(hits, shown, lines.drop_last(), needle, case_sensitive, max);
    }
}

/// A hit names its file, the number of its line, and the line, cut short where it is long.
pub proof fn law_hit_tells_where(shown: Seq<char>, number: nat, line: Seq<char>)
    ensures
        line.len() <= 240 ==> hit_text(shown, number, line) == shown + ":"@ + decimal(number) + ": "@
            + line,
        line.len() > 240 ==> hit_text(shown, number, line) == shown + ":"@ + decimal(number) + ": "@
            + line.take(240) + "..."@,
{
    if line.len() > 240 {
        assert(hit_text(shown, number, line) =~= shown + ":"@ + decimal(number) + ": "@ + line.take(
            240,
        ) + "..."@);
    }
}

/// What a search found is told by its number, and shown hit by hit.
pub proof fn law_searching_shows_its_hits(hits: Seq<Seq<char>>, needle: Seq<char>)
    ensures
        hits.len() > 0 ==> searching(hits, needle).output == joined(hits, "\n"@) && searching(
            hits,
            needle,
        ).summary == "found "@ + decimal(hits.len()) + " match(es) for query "@ + needle,
        hits.len() == 0 ==> searching(hits, needle).summary == "no matches for query "@ + needle,
{
}

/// What a tool found is given back as it was found, and what stopped it is given back as an error.
pub proof fn law_findings_are_given_back(
    tool: Seq<char>,
    failed: Seq<char>,
    found: FindingsView,
    message: Seq<char>,
)
    requires
        found.output.len() <= 24_000,
        message.len() <= 24_000,
    ensures
        looked(tool, failed, Ok(found)).tool == tool,
        looked(tool, failed, Ok(found)).status == "ok"@,
        looked(tool, failed, Ok(found)).summary == found.summary,
        looked(tool, failed, Ok(found)).output == found.output,
        looked(tool, failed, Err(message)).tool == tool,
        looked(tool, failed, Err(message)).status == "error"@,
        looked(tool, failed, Err(message)).summary == failed,
        looked(tool, failed, Err(message)).output == message,
{
}

} // verus!
