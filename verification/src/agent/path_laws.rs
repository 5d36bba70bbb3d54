//! Which paths are meant, and which lie in the workspace.

use vstd::prelude::*;

use crate::agent::entries::{entry_leq, EntryView};
use crate::agent::path::{
    ancestor_of, extended, is_name, lemma_names_are_walked, lemma_pieces_of_joined, lies_within,
    longest_there, meant_path, parent_of, path_meant, path_of, path_text, read_path, shown_path,
    walked, workspace_meant, write_path, PathView,
};
use crate::lines::joined;
use crate::order::{lex_leq, text_order};
use crate::search::starts;
use crate::text::{blank, trimmed};
use crate::text_laws::law_texts_are_ordered;

verus! {

/// What lies below the workspace lies within it, and so does the workspace itself; what is shorter,
/// what goes another way, and what begins elsewhere does not.
pub proof fn law_what_lies_within(path: PathView, root: PathView, more: Seq<Seq<char>>, i: int)
    ensures
        lies_within(extended(root, more), root),
        lies_within(root, root),
        path.segments.len() < root.segments.len() ==> !lies_within(path, root),
        0 <= i < root.segments.len() && i < path.segments.len() && path.segments[i]
            != root.segments[i] ==> !lies_within(path, root),
        path.absolute != root.absolute ==> !lies_within(path, root),
        lies_within(path, root) ==> path == extended(
            root,
            path.segments.skip(root.segments.len() as int),
        ),
{
    let n = root.segments.len() as int;
    assert((root.segments + more).take(n) =~= root.segments);
    assert(root.segments.take(n) =~= root.segments);
    if 0 <= i < n && i < path.segments.len() && path.segments[i] != root.segments[i] && n
        <= path.segments.len() {
        assert(path.segments.take(n)[i] == path.segments[i]);
    }
    if lies_within(path, root) {
        assert(path.segments =~= path.segments.take(n) + path.segments.skip(n));
    }
}

/// A path is walked segment by segment: a name goes down, `..` goes up as far as there is anything,
/// and `.` and nothing stay.
pub proof fn law_paths_are_walked(from: Seq<Seq<char>>, parts: Seq<Seq<char>>, part: Seq<char>)
    ensures
        walked(from, Seq::empty()) == from,
        is_name(part) ==> walked(from, parts.push(part)) == walked(from, parts).push(part),
        part == ".."@ && walked(from, parts).len() > 0 ==> walked(from, parts.push(part)) == walked(
            from,
            parts,
        ).drop_last(),
        part == ".."@ && walked(from, parts).len() == 0 ==> walked(from, parts.push(part)).len() == 0,
        part == "."@ || part.len() == 0 ==> walked(from, parts.push(part)) == walked(from, parts),
{
    reveal_strlit(".");
    reveal_strlit("..");
    assert("."@.len() == 1);
    assert(".."@.len() == 2);
    assert(parts.push(part).drop_last() =~= parts);
}

/// Names that the user gives are taken from the root of the workspace, whatever spaces stand around
/// them; a path that begins with `/` is taken as it is.
pub proof fn law_relative_paths_start_at_the_root(
    root: PathView,
    names: Seq<Seq<char>>,
    text: Seq<char>,
)
    requires
        names.len() > 0,
        forall|i: int| 0 <= i < names.len() ==> is_name(#[trigger] names[i]),
        trimmed(text) == joined(names, "/"@),
    ensures
        meant_path(root, text) == extended(root, names),
        path_meant(root, text) == Ok::<PathView, Seq<char>>(extended(root, names)),
        lies_within(meant_path(root, text), root),
{
    lemma_pieces_of_joined(names);
    lemma_names_are_walked(root.segments, names);
    reveal_strlit("/");
    let t = trimmed(text);
    if starts(t, "/"@) {
        assert(t.take(1)[0] == "/"@[0]);
    }
    law_what_lies_within(root, root, names, 0);
}

/// A path that begins with `/` does not depend on the workspace; without a path there is a complaint.
pub proof fn law_absolute_paths_stand_alone(root: PathView, other: PathView, text: Seq<char>)
    ensures
        !blank(text) && trimmed(text)[0] == '/' ==> meant_path(root, text) == meant_path(other, text)
            && meant_path(root, text) == path_of(trimmed(text)) && meant_path(root, text).absolute,
        !blank(text) && trimmed(text)[0] != '/' ==> meant_path(root, text).absolute == root.absolute,
        path_meant(root, text) is Err <==> blank(text),
        path_meant(root, text) matches Ok(path) ==> path == meant_path(root, text),
{
    reveal_strlit("/");
    let t = trimmed(text);
    if t.len() > 0 {
        if t[0] == '/' {
            assert(t.take(1) =~= "/"@);
        }
        if starts(t, "/"@) {
            assert(t.take(1)[0] == "/"@[0]);
        }
    }
}

/// A path is read exactly where it is there, can be resolved, and lies within the workspace; what is
/// read is the resolved one.
pub proof fn law_what_may_be_read(
    root: PathView,
    candidate: PathView,
    exists_there: bool,
    canonical: Option<PathView>,
)
    ensures
        read_path(root, candidate, exists_there, canonical) is Ok <==> exists_there && canonical is Some
            && lies_within(canonical.unwrap(), root),
        read_path(root, candidate, exists_there, canonical) matches Ok(path) ==> Some(path) == canonical,
{
}

/// A path is written to exactly where its longest existing beginning can be resolved and lies within
/// the workspace; what does not exist yet goes below that.
pub proof fn law_what_may_be_written(
    root: PathView,
    ancestor: PathView,
    tail: Seq<Seq<char>>,
    canonical: Option<PathView>,
)
    ensures
        write_path(root, ancestor, tail, canonical) is Ok <==> canonical is Some && lies_within(
            canonical.unwrap(),
            root,
        ),
        write_path(root, ancestor, tail, canonical) matches Ok(path) ==> path == extended(
            canonical.unwrap(),
            tail,
        ),
{
}

proof fn lemma_longest(there: Seq<bool>, n: int)
    requires
        -1 <= n < there.len(),
    ensures
        longest_there(there, n) matches Some(k) ==> 0 <= k <= n && there[k] && forall|j: int|
            k < j <= n ==> !#[trigger] there[j],
        longest_there(there, n) is None ==> forall|j: int| 0 <= j <= n ==> !#[trigger] there[j],
    decreases n + 1,
{
    if n >= 0 && !there[n] {
        lemma_longest(there, n - 1);
    }
}

/// The beginning of a path that is found is there, and no longer one is; with what stands behind it,
/// it is the path.
pub proof fn law_longest_beginning_is_found(path: PathView, there: Seq<bool>, j: int)
    requires
        there.len() == path.segments.len() + 1,
    ensures
        ancestor_of(path, there) matches Ok(found) ==> {
            &&& extended(found.0, found.1) == path
            &&& there[found.0.segments.len() as int]
            &&& found.0.segments.len() < j <= path.segments.len() ==> !there[j]
        },
        ancestor_of(path, there) is Err && 0 <= j <= path.segments.len() ==> !there[j],
{
    lemma_longest(there, path.segments.len() as int);
    if let Some(n) = longest_there(there, path.segments.len() as int) {
        assert(path.segments.take(n) + path.segments.skip(n) =~= path.segments);
    }
}

/// The workspace is the resolved directory; what cannot be resolved or is no directory is none.
pub proof fn law_workspace_is_a_directory(given: Seq<char>, text: Seq<char>, is_dir: bool)
    ensures
        workspace_meant(given, None, is_dir) is Err,
        workspace_meant(given, Some(text), false) is Err,
        workspace_meant(given, Some(text), true) == Ok::<PathView, Seq<char>>(path_of(text)),
{
}

/// The parent of a path is what it lies directly below; the root has none.
pub proof fn law_parent_is_one_up(path: PathView, name: Seq<char>)
    ensures
        parent_of(extended(path, seq![name])) == Some(path),
        path.segments.len() == 0 ==> parent_of(path) is None,
{
    assert((path.segments + seq![name]).drop_last() =~= path.segments);
}

/// A path is written with `/` between its segments, and in front where it begins at the root; one
/// outside the workspace is shown in full.
pub proof fn law_paths_are_written(path: PathView, root: PathView)
    ensures
        path.absolute ==> path_text(path) == "/"@ + joined(path.segments, "/"@),
        !path.absolute ==> path_text(path) == joined(path.segments, "/"@),
        !lies_within(path, root) && path != root ==> shown_path(path, root) == path_text(path),
{
}

proof fn lemma_common_beginning(common: Seq<Seq<char>>, a: Seq<Seq<char>>, b: Seq<Seq<char>>)
    ensures
        lex_leq(common + a, common + b, text_order()) == lex_leq(a, b, text_order()),
    decreases common.len(),
{
    if common.len() == 0 {
        assert(common + a =~= a);
        assert(common + b =~= b);
    } else {
        let rest = common.drop_first();
        lemma_common_beginning(rest, a, b);
        assert((common + a).drop_first() =~= rest + a);
        assert((common + b).drop_first() =~= rest + b);
        assert((common + a)[0] == common[0] && (common + b)[0] == common[0]);
    }
}

/// Entries go by their paths: of two in one directory the one with the smaller name goes first, and a
/// directory goes before what it holds.
pub proof fn law_entries_go_by_their_paths(
    dir: PathView,
    x: Seq<char>,
    y: Seq<char>,
    a: EntryView,
    b: EntryView,
    parent: EntryView,
)
    requires
        x.len() > 0,
        y.len() > 0,
        x[0] < y[0],
        a.path == extended(dir, seq![x]),
        b.path == extended(dir, seq![y]),
        parent.path == dir,
    ensures
        entry_leq(a, b),
        !entry_leq(b, a),
        entry_leq(parent, a),
        !entry_leq(a, parent),
{
    let s = dir.segments;
    let none = Seq::<Seq<char>>::empty();
    lemma_common_beginning(s, seq![x], seq![y]);
    lemma_common_beginning(s, seq![y], seq![x]);
    lemma_common_beginning(s, none, seq![x]);
    lemma_common_beginning(s, seq![x], none);
    assert(s + none =~= s);
    law_texts_are_ordered(Seq::empty(), x, y);
    assert(Seq::<char>::empty() + x =~= x);
    assert(Seq::<char>::empty() + y =~= y);
    assert(seq![x][0] != seq![y][0]);
    assert((s + seq![x])[s.len() as int] == x);
    assert((s + seq![y])[s.len() as int] == y);
    assert(s.len() != (s + seq![x]).len());
}

} // verus!
