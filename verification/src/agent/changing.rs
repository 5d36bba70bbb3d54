//! The tools that change files.
//!
//! What a tool may do is decided here, step by step; doing it is the caller's work.

use vstd::prelude::*;
use vstd::utf8::encode_utf8;

use crate::agent::call::ToolCall;
use crate::agent::label::{came_to_nothing, failed_summary, tool_called, tool_name};
use crate::agent::outcome::{error_view, ok_view, ResultView, ToolResult};
use crate::agent::path::{parent_of, path_text, shown_path, LexPath, PathView, Workspace};
use crate::number::{decimal, write_decimal};
use crate::search::{count, lemma_find, occurrences, replace, replace_once, replaced, replaced_once};
use crate::text::{cat2, cat3, cat4, cat5};

verus! {

/// What a tool that changes files gives back: what it did, or why it failed.
pub open spec fn changed(
    tool: Seq<char>,
    failed: Seq<char>,
    done: Result<Seq<char>, Seq<char>>,
) -> ResultView {
    match done {
        Ok(summary) => ok_view(tool, summary, "ok"@),
        Err(e) => error_view(tool, failed, e),
    }
}

/// What the call of a tool that changes files gives back.
pub fn settle_change(call: &ToolCall, done: Result<String, String>) -> (r: ToolResult)
    ensures
        r@ == changed(
            tool_called(call@),
            came_to_nothing(call@),
            match done {
                Ok(summary) => Ok(summary@),
                Err(e) => Err(e@),
            },
        ),
{
    match done {
        Ok(summary) => ToolResult::ok(tool_name(call), summary, "ok"),
        Err(e) => ToolResult::error(tool_name(call), failed_summary(call), e.as_str()),
    }
}

/// What could not be done to a path.
pub fn failure(what: &str, path: &LexPath) -> (r: String)
    ensures
        r@ == what@ + path_text(path@),
{
    let text: String = path.text();
    cat2(what, text.as_str())
}

/// How many bytes a text takes up.
pub open spec fn byte_count(s: Seq<char>) -> usize {
    encode_utf8(s).len() as usize
}

/// The directory that must be there before a file can be written, or why it cannot be.
pub open spec fn file_parent(path: PathView, root: PathView, is_dir: bool) -> Result<
    PathView,
    Seq<char>,
> {
    if is_dir {
        Err(shown_path(path, root) + " is a directory"@)
    } else {
        match parent_of(path) {
            Some(parent) => Ok(parent),
            None => Err("invalid path "@ + path_text(path)),
        }
    }
}

/// The directory that must be there before a file can be written, or why it cannot be.
pub fn target_parent(workspace: &Workspace, path: &LexPath, is_dir: bool) -> (r: Result<
    LexPath,
    String,
>)
    ensures
        match file_parent(path@, workspace.root@, is_dir) {
            Ok(parent) => r matches Ok(p) && p@ == parent,
            Err(message) => r matches Err(e) && e@ == message,
        },
{
    if is_dir {
        let shown: String = workspace.relative_display(path);
        return Err(cat2(shown.as_str(), " is a directory"));
    }
    match path.parent() {
        Some(parent) => Ok(parent),
        None => Err(failure("invalid path ", path)),
    }
}

/// What is said of a text that came into a file.
pub open spec fn bytes_note(done: Seq<char>, content: Seq<char>, shown: Seq<char>) -> Seq<char> {
    done + decimal(byte_count(content) as nat) + " bytes to "@ + shown
}

/// What was done when a text was written to a file.
pub fn wrote(workspace: &Workspace, path: &LexPath, content: &str) -> (r: String)
    ensures
        r@ == bytes_note("wrote "@, content@, shown_path(path@, workspace.root@)),
{
    let n: String = write_decimal(content.len() as u64);
    let shown: String = workspace.relative_display(path);
    cat4("wrote ", n.as_str(), " bytes to ", shown.as_str())
}

/// What was done when a text was put behind what a file holds.
pub fn appended(workspace: &Workspace, path: &LexPath, content: &str) -> (r: String)
    ensures
        r@ == bytes_note("appended "@, content@, shown_path(path@, workspace.root@)),
{
    let n: String = write_decimal(content.len() as u64);
    let shown: String = workspace.relative_display(path);
    cat4("appended ", n.as_str(), " bytes to ", shown.as_str())
}

/// Why a directory may not be created: something else is there.
pub open spec fn mkdir_complaint(path: PathView, exists_there: bool, is_dir: bool) -> Option<Seq<char>> {
    if exists_there && !is_dir {
        Some(path_text(path) + " exists and is not a directory"@)
    } else {
        None
    }
}

/// Whether a directory may be created: not where something else is.
pub fn check_mkdir(path: &LexPath, exists_there: bool, is_dir: bool) -> (r: Result<(), String>)
    ensures
        match mkdir_complaint(path@, exists_there, is_dir) {
            Some(message) => r matches Err(e) && e@ == message,
            None => r is Ok,
        },
{
    if exists_there && !is_dir {
        let text: String = path.text();
        return Err(cat2(text.as_str(), " exists and is not a directory"));
    }
    Ok(())
}

/// What was done when a directory was created.
pub fn created_directory(workspace: &Workspace, path: &LexPath) -> (r: String)
    ensures
        r@ == "created directory "@ + shown_path(path@, workspace.root@),
{
    let shown: String = workspace.relative_display(path);
    cat2("created directory ", shown.as_str())
}

/// Why a path may not be moved: it is the workspace itself.
pub open spec fn move_complaint(source: PathView, root: PathView) -> Option<Seq<char>> {
    if source == root {
        Some("cannot move workspace root"@)
    } else {
        None
    }
}

/// Whether a path may be moved: the workspace itself may not.
pub fn check_move_source(workspace: &Workspace, source: &LexPath) -> (r: Result<(), String>)
    ensures
        match move_complaint(source@, workspace.root@) {
            Some(message) => r matches Err(e) && e@ == message,
            None => r is Ok,
        },
{
    if source.is_same(&workspace.root) {
        Err("cannot move workspace root".to_owned())
    } else {
        Ok(())
    }
}

/// Where a path may be moved to: not where something is. Gives back the directory that must be
/// there.
pub open spec fn move_target(destination: PathView, exists_there: bool) -> Result<PathView, Seq<char>> {
    if exists_there {
        Err("destination already exists: "@ + path_text(destination))
    } else {
        match parent_of(destination) {
            Some(parent) => Ok(parent),
            None => Err("invalid destination path "@ + path_text(destination)),
        }
    }
}

/// Where a path may be moved to; gives back the directory that must be there.
pub fn check_move_target(destination: &LexPath, exists_there: bool) -> (r: Result<LexPath, String>)
    ensures
        match move_target(destination@, exists_there) {
            Ok(parent) => r matches Ok(p) && p@ == parent,
            Err(message) => r matches Err(e) && e@ == message,
        },
{
    if exists_there {
        return Err(failure("destination already exists: ", destination));
    }
    match destination.parent() {
        Some(parent) => Ok(parent),
        None => Err(failure("invalid destination path ", destination)),
    }
}

/// What could not be moved.
pub fn move_failure(source: &LexPath, destination: &LexPath) -> (r: String)
    ensures
        r@ == "failed to move "@ + path_text(source@) + " -> "@ + path_text(destination@),
{
    let from: String = source.text();
    let to: String = destination.text();
    cat4("failed to move ", from.as_str(), " -> ", to.as_str())
}

/// What is said of a path that was moved.
pub open spec fn move_note(from: Seq<char>, to: Seq<char>) -> Seq<char> {
    "moved "@ + from + " -> "@ + to
}

/// What was done when a path was moved.
pub fn moved(workspace: &Workspace, source: &LexPath, destination: &LexPath) -> (r: String)
    ensures
        r@ == move_note(
            shown_path(source@, workspace.root@),
            shown_path(destination@, workspace.root@),
        ),
{
    let from: String = workspace.relative_display(source);
    let to: String = workspace.relative_display(destination);
    cat4("moved ", from.as_str(), " -> ", to.as_str())
}

/// How a path is deleted.
#[derive(Debug, Clone, Copy, PartialEq, Eq, Structural)]
pub enum Deletion {
    File,
    EmptyDirectory,
    WholeDirectory,
}

/// How a path is deleted; the workspace itself is not, nor what is neither a file nor a directory.
pub open spec fn deletion(
    target: PathView,
    root: PathView,
    is_file: bool,
    is_dir: bool,
    recursive: bool,
) -> Result<Deletion, Seq<char>> {
    if target == root {
        Err("cannot delete workspace root"@)
    } else if is_file {
        Ok(Deletion::File)
    } else if is_dir {
        Ok(
            if recursive {
                Deletion::WholeDirectory
            } else {
                Deletion::EmptyDirectory
            },
        )
    } else {
        Err("unsupported path type: "@ + path_text(target))
    }
}

/// Decides how a path is deleted.
pub fn plan_deletion(
    workspace: &Workspace,
    target: &LexPath,
    is_file: bool,
    is_dir: bool,
    recursive: bool,
) -> (r: Result<Deletion, String>)
    ensures
        match deletion(target@, workspace.root@, is_file, is_dir, recursive) {
            Ok(how) => r == Ok::<Deletion, String>(how),
            Err(message) => r matches Err(e) && e@ == message,
        },
{
    if target.is_same(&workspace.root) {
        return Err("cannot delete workspace root".to_owned());
    }
    if is_file {
        return Ok(Deletion::File);
    }
    if is_dir {
        return if recursive {
            Ok(Deletion::WholeDirectory)
        } else {
            Ok(Deletion::EmptyDirectory)
        };
    }
    Err(failure("unsupported path type: ", target))
}

/// What is said when a deletion was done or could not be done.
pub open spec fn deletion_outcome(
    target: PathView,
    root: PathView,
    how: Deletion,
    done: bool,
) -> Result<Seq<char>, Seq<char>> {
    match (how, done) {
        (Deletion::File, true) => Ok("deleted file "@ + shown_path(target, root)),
        (Deletion::File, false) => Err("failed to delete file "@ + path_text(target)),
        (_, true) => Ok("deleted directory "@ + shown_path(target, root)),
        (Deletion::WholeDirectory, false) => Err("failed to delete directory "@ + path_text(target)),
        (Deletion::EmptyDirectory, false) => Err(
            "failed to delete directory "@ + path_text(target)
                + " (set recursive=true if non-empty)"@,
        ),
    }
}

/// Says that a deletion was done or could not be done.
pub fn report_deletion(workspace: &Workspace, target: &LexPath, how: Deletion, done: bool) -> (r: Result<
    String,
    String,
>)
    ensures
        match deletion_outcome(target@, workspace.root@, how, done) {
            Ok(summary) => r matches Ok(s) && s@ == summary,
            Err(message) => r matches Err(e) && e@ == message,
        },
{
    let shown: String = workspace.relative_display(target);
    match how {
        Deletion::File => if done {
            Ok(cat2("deleted file ", shown.as_str()))
        } else {
            Err(failure("failed to delete file ", target))
        },
        Deletion::WholeDirectory => if done {
            Ok(cat2("deleted directory ", shown.as_str()))
        } else {
            Err(failure("failed to delete directory ", target))
        },
        Deletion::EmptyDirectory => if done {
            Ok(cat2("deleted directory ", shown.as_str()))
        } else {
            let text: String = target.text();
            Err(
                cat3(
                    "failed to delete directory ",
                    text.as_str(),
                    " (set recursive=true if non-empty)",
                ),
            )
        },
    }
}

/// A file with a patch applied.
pub struct Patched {
    pub updated: String,
    pub summary: String,
}

/// Why a file may not be patched at all.
pub open spec fn patch_complaint(
    path: PathView,
    root: PathView,
    is_dir: bool,
    search: Seq<char>,
) -> Option<Seq<char>> {
    if is_dir {
        Some(shown_path(path, root) + " is a directory"@)
    } else if search.len() == 0 {
        Some("search content is required"@)
    } else {
        None
    }
}

/// Whether a file may be patched at all.
pub fn check_patch(workspace: &Workspace, path: &LexPath, is_dir: bool, search: &str) -> (r: Result<
    (),
    String,
>)
    ensures
        match patch_complaint(path@, workspace.root@, is_dir, search@) {
            Some(message) => r matches Err(e) && e@ == message,
            None => r is Ok,
        },
{
    if is_dir {
        let shown: String = workspace.relative_display(path);
        return Err(cat2(shown.as_str(), " is a directory"));
    }
    if search.is_empty() {
        return Err("search content is required".to_owned());
    }
    Ok(())
}

/// How many places a patch changes.
pub open spec fn places_patched(content: Seq<char>, search: Seq<char>, all: bool) -> nat {
    if all {
        occurrences(content, search)
    } else {
        1
    }
}

/// A text with a patch applied: every place where the text stands that is looked for, or the first.
pub open spec fn patched_text(
    content: Seq<char>,
    search: Seq<char>,
    with: Seq<char>,
    all: bool,
) -> Seq<char> {
    if all {
        replaced(content, search, with)
    } else {
        replaced_once(content, search, with)
    }
}

/// What a patch makes of what a file holds, and what is said of it; an error where the text that is
/// looked for is not there.
pub open spec fn patching(
    shown: Seq<char>,
    content: Seq<char>,
    search: Seq<char>,
    with: Seq<char>,
    all: bool,
) -> Result<(Seq<char>, Seq<char>), Seq<char>> {
    if occurrences(content, search) == 0 {
        Err("search text not found in "@ + shown)
    } else {
        Ok(
            (
                patched_text(content, search, with, all),
                "applied patch to "@ + shown + (" ("@ + decimal(
                    places_patched(content, search, all),
                )) + " replacement"@ + (if places_patched(content, search, all) == 1 {
                    ")"@
                } else {
                    "s)"@
                }),
            ),
        )
    }
}

/// Applies a patch to what a file holds.
pub fn apply_patch(
    workspace: &Workspace,
    path: &LexPath,
    content: &str,
    search: &str,
    with: &str,
    all: bool,
) -> (r: Result<Patched, String>)
    requires
        search@.len() > 0,
    ensures
        match patching(shown_path(path@, workspace.root@), content@, search@, with@, all) {
            Ok((updated, summary)) => r matches Ok(p) && p.updated@ == updated && p.summary@
                == summary,
            Err(message) => r matches Err(e) && e@ == message,
        },
{
    let shown: String = workspace.relative_display(path);
    let places: usize = count(content, search);
    if places == 0 {
        return Err(cat2("search text not found in ", shown.as_str()));
    }
    let updated: String = if all {
        replace(content, search, with)
    } else {
        replace_once(content, search, with)
    };
    let applied: usize = if all {
        places
    } else {
        1
    };
    let n: String = write_decimal(applied as u64);
    let number: String = cat2(" (", n.as_str());
    Ok(
        Patched {
            updated,
            summary: cat5(
                "applied patch to ",
                shown.as_str(),
                number.as_str(),
                " replacement",
                if applied == 1 {
                    ")"
                } else {
                    "s)"
                },
            ),
        },
    )
}

/// A patch that is applied to one place leaves everything before and behind that place as it is.
pub proof fn law_one_place_is_patched(content: Seq<char>, search: Seq<char>, with: Seq<char>)
    requires
        search.len() > 0,
        occurrences(content, search) > 0,
    ensures
        crate::search::find(content, search) matches Some(i) && 0 <= i && i + search.len()
            <= content.len() && content.subrange(i, i + search.len()) == search && patched_text(
            content,
            search,
            with,
            false,
        ) == content.take(i) + with + content.skip(i + search.len()),
{
    lemma_find(content, search);
}

} // verus!
