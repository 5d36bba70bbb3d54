//! Paths, and the workspace that the agent's tools stay in.
//!
//! A path is taken apart at its slashes; looking at the disk is the caller's work.

use vstd::prelude::*;

use crate::lines::{join, joined, pieces, split_on};
use crate::search::{one, starts, starts_with};
use crate::text::{cat2, is_blank, blank, same, trim, trimmed, views};

verus! {

/// A path without `.`, `..` and empty parts.
#[derive(Debug)]
pub struct LexPath {
    /// The path begins at the root of the file system.
    pub absolute: bool,
    pub segments: Vec<String>,
}

/// The view of a [`LexPath`].
pub struct PathView {
    pub absolute: bool,
    pub segments: Seq<Seq<char>>,
}

impl View for LexPath {
    type V = PathView;

    open spec fn view(&self) -> PathView {
        PathView { absolute: self.absolute, segments: views(self.segments@) }
    }
}

/// The views of a list of paths.
pub open spec fn path_views(paths: Seq<LexPath>) -> Seq<PathView> {
    Seq::new(paths.len(), |i: int| paths[i]@)
}

/// Where parts of a path lead: `.` and empty parts stay, `..` goes up where that is possible.
pub open spec fn walked(from: Seq<Seq<char>>, parts: Seq<Seq<char>>) -> Seq<Seq<char>>
    decreases parts.len(),
{
    if parts.len() == 0 {
        from
    } else {
        let before = walked(from, parts.drop_last());
        let part = parts.last();
        if part.len() == 0 || part == "."@ {
            before
        } else if part == ".."@ {
            if before.len() > 0 {
                before.drop_last()
            } else {
                before
            }
        } else {
            before.push(part)
        }
    }
}

/// Whether a path is written from the root of the file system.
pub open spec fn is_absolute(text: Seq<char>) -> bool {
    starts(text, "/"@)
}

/// The path that a text stands for.
pub open spec fn path_of(text: Seq<char>) -> PathView {
    PathView {
        absolute: is_absolute(text),
        segments: walked(Seq::empty(), pieces(text, '/')),
    }
}

/// A path as text.
pub open spec fn path_text(path: PathView) -> Seq<char> {
    if path.absolute {
        "/"@ + joined(path.segments, "/"@)
    } else {
        joined(path.segments, "/"@)
    }
}

/// A segment that leads to an entry of the directory before it.
pub open spec fn is_name(segment: Seq<char>) -> bool {
    segment.len() > 0 && segment != "."@ && segment != ".."@ && !segment.contains('/')
}

/// A path that does not go up, stand still or skip.
pub open spec fn is_plain(path: PathView) -> bool {
    forall|i: int| 0 <= i < path.segments.len() ==> is_name(#[trigger] path.segments[i])
}

/// Whether a path is the directory `root` or lies under it.
pub open spec fn lies_within(path: PathView, root: PathView) -> bool {
    path.absolute == root.absolute && root.segments.len() <= path.segments.len()
        && path.segments.take(root.segments.len() as int) == root.segments
}

/// A path as it is shown to the model: from the workspace's root, where it lies there.
pub open spec fn shown_path(path: PathView, root: PathView) -> Seq<char> {
    if path == root {
        "."@
    } else if lies_within(path, root) {
        joined(path.segments.skip(root.segments.len() as int), "/"@)
    } else {
        path_text(path)
    }
}

/// A path with more segments behind it.
pub open spec fn extended(path: PathView, more: Seq<Seq<char>>) -> PathView {
    PathView { absolute: path.absolute, segments: path.segments + more }
}

/// The directory that a path lies in.
pub open spec fn parent_of(path: PathView) -> Option<PathView> {
    if path.segments.len() == 0 {
        None
    } else {
        Some(PathView { absolute: path.absolute, segments: path.segments.drop_last() })
    }
}

fn walk(segments: &mut Vec<String>, parts: &Vec<String>)
    ensures
        views(final(segments)@) == walked(views(old(segments)@), views(parts@)),
{
    let ghost start = views(segments@);
    let ghost all = views(parts@);
    let mut i: usize = 0;
    assert(all.take(0) =~= Seq::empty());
    proof {
        reveal_strlit("");
    }
    while i < parts.len()
        invariant
            i <= parts@.len(),
            all == views(parts@),
            views(segments@) == walked(start, all.take(i as int)),
        decreases parts@.len() - i,
    {
        let part: &str = parts[i].as_str();
        proof {
            assert(all.take(i + 1).drop_last() =~= all.take(i as int));
            assert(all.take(i + 1).last() == part@);
        }
        let ghost before = segments@;
        if part.is_empty() || same(part, ".") {
        } else if same(part, "..") {
            if segments.len() > 0 {
                segments.pop();
                assert(views(segments@) =~= views(before).drop_last());
            }
        } else {
            segments.push(part.to_owned());
            assert(views(segments@) =~= views(before).push(part@));
        }
        i += 1;
    }
    assert(all.take(i as int) =~= all);
}

fn copy_texts(list: &Vec<String>) -> (r: Vec<String>)
    ensures
        views(r@) == views(list@),
{
    let mut out: Vec<String> = Vec::new();
    let mut i: usize = 0;
    while i < list.len()
        invariant
            i <= list@.len(),
            views(out@) == views(list@).take(i as int),
        decreases list@.len() - i,
    {
        let ghost before = out@;
        out.push(list[i].clone());
        assert(views(out@) =~= views(before).push(list@[i as int]@));
        assert(views(list@).take(i + 1) =~= views(list@).take(i as int).push(list@[i as int]@));
        i += 1;
    }
    out
}

fn same_texts(a: &Vec<String>, b: &Vec<String>) -> (r: bool)
    ensures
        r == (views(a@) == views(b@)),
{
    if a.len() != b.len() {
        assert(views(a@).len() != views(b@).len());
        return false;
    }
    starts_with_texts(a, b)
}

/// Whether the texts of `b` stand in front of `a`.
fn starts_with_texts(a: &Vec<String>, b: &Vec<String>) -> (r: bool)
    ensures
        r == (b@.len() <= a@.len() && views(a@).take(b@.len() as int) == views(b@)),
        a@.len() == b@.len() ==> r == (views(a@) == views(b@)),
{
    if b.len() > a.len() {
        return false;
    }
    assert(a@.len() == b@.len() ==> views(a@).take(b@.len() as int) =~= views(a@));
    let mut i: usize = 0;
    while i < b.len()
        invariant
            i <= b@.len() <= a@.len(),
            forall|k: int| 0 <= k < i ==> #[trigger] views(a@)[k] == views(b@)[k],
        decreases b@.len() - i,
    {
        if !same(a[i].as_str(), b[i].as_str()) {
            proof {
                assert(views(a@)[i as int] != views(b@)[i as int]);
                assert(views(a@).take(b@.len() as int)[i as int] == views(a@)[i as int]);
            }
            return false;
        }
        i += 1;
    }
    assert(views(a@).take(b@.len() as int) =~= views(b@));
    true
}

impl LexPath {
    /// The path that a text stands for.
    pub fn read(text: &str) -> (r: LexPath)
        ensures
            r@ == path_of(text@),
    {
        let parts: Vec<String> = split_on(text, '/');
        let mut segments: Vec<String> = Vec::new();
        assert(views(segments@) =~= Seq::empty());
        walk(&mut segments, &parts);
        LexPath { absolute: starts_with(text, "/"), segments }
    }

    /// The path as text.
    pub fn text(&self) -> (r: String)
        ensures
            r@ == path_text(self@),
    {
        let tail: String = join(&self.segments, "/");
        if self.absolute {
            cat2("/", tail.as_str())
        } else {
            tail
        }
    }

    /// A copy of the path.
    pub fn copy(&self) -> (r: LexPath)
        ensures
            r@ == self@,
    {
        LexPath { absolute: self.absolute, segments: copy_texts(&self.segments) }
    }

    /// Whether two paths are the same.
    pub fn is_same(&self, other: &LexPath) -> (r: bool)
        ensures
            r == (self@ == other@),
    {
        self.absolute == other.absolute && same_texts(&self.segments, &other.segments)
    }

    /// Whether the path is the directory `root` or lies under it.
    pub fn is_within(&self, root: &LexPath) -> (r: bool)
        ensures
            r == lies_within(self@, root@),
    {
        self.absolute == root.absolute && starts_with_texts(&self.segments, &root.segments)
    }

    /// The path with one more segment.
    pub fn child(&self, name: &str) -> (r: LexPath)
        ensures
            r@ == extended(self@, seq![name@]),
    {
        let mut segments: Vec<String> = copy_texts(&self.segments);
        segments.push(name.to_owned());
        assert(views(segments@) =~= self@.segments + seq![name@]);
        LexPath { absolute: self.absolute, segments }
    }

    /// The first `n` segments of the path.
    pub fn first(&self, n: usize) -> (r: LexPath)
        requires
            n <= self@.segments.len(),
        ensures
            r@ == (PathView { absolute: self.absolute, segments: self@.segments.take(n as int) }),
    {
        let mut segments: Vec<String> = Vec::new();
        let mut i: usize = 0;
        while i < n
            invariant
                i <= n <= self.segments@.len(),
                views(segments@) == views(self.segments@).take(i as int),
            decreases n - i,
        {
            let ghost before = segments@;
            segments.push(self.segments[i].clone());
            assert(views(segments@) =~= views(before).push(self.segments@[i as int]@));
            assert(views(self.segments@).take(i + 1) =~= views(self.segments@).take(i as int).push(
                self.segments@[i as int]@,
            ));
            i += 1;
        }
        LexPath { absolute: self.absolute, segments }
    }

    /// The segments behind the first `n`.
    pub fn rest(&self, n: usize) -> (r: Vec<String>)
        requires
            n <= self@.segments.len(),
        ensures
            views(r@) == self@.segments.skip(n as int),
    {
        let mut segments: Vec<String> = Vec::new();
        let mut i: usize = n;
        while i < self.segments.len()
            invariant
                n <= i <= self.segments@.len(),
                views(segments@) == views(self.segments@).subrange(n as int, i as int),
            decreases self.segments@.len() - i,
        {
            let ghost before = segments@;
            segments.push(self.segments[i].clone());
            assert(views(segments@) =~= views(before).push(self.segments@[i as int]@));
            assert(views(self.segments@).subrange(n as int, i + 1) =~= views(
                self.segments@,
            ).subrange(n as int, i as int).push(self.segments@[i as int]@));
            i += 1;
        }
        assert(views(segments@) =~= self@.segments.skip(n as int));
        segments
    }

    /// The directory that the path lies in.
    pub fn parent(&self) -> (r: Option<LexPath>)
        ensures
            match (r, parent_of(self@)) {
                (Some(p), Some(want)) => p@ == want,
                (None, None) => true,
                _ => false,
            },
    {
        if self.segments.len() == 0 {
            None
        } else {
            let p: LexPath = self.first(self.segments.len() - 1);
            assert(self@.segments.take(self@.segments.len() - 1) =~= self@.segments.drop_last());
            Some(p)
        }
    }
}

/// The directory that the agent's tools stay in.
#[derive(Debug)]
pub struct Workspace {
    pub root: LexPath,
}

/// The path that the user of a tool means; it is taken from the workspace's root unless it is
/// written from that of the file system.
pub open spec fn meant_path(root: PathView, user_path: Seq<char>) -> PathView {
    let text = trimmed(user_path);
    if is_absolute(text) {
        path_of(text)
    } else {
        PathView { absolute: root.absolute, segments: walked(root.segments, pieces(text, '/')) }
    }
}

/// The complaint about a path that leaves the workspace.
pub open spec fn outside_complaint(root: PathView) -> Seq<char> {
    "path is outside workspace root "@ + path_text(root)
}

/// Where reading a path leads: it must be there, be resolvable, and lie within the workspace.
pub open spec fn read_path(
    root: PathView,
    candidate: PathView,
    exists_there: bool,
    canonical: Option<PathView>,
) -> Result<PathView, Seq<char>> {
    if !exists_there {
        Err("path does not exist: "@ + path_text(candidate))
    } else {
        match canonical {
            None => Err("failed to resolve "@ + path_text(candidate)),
            Some(path) => if lies_within(path, root) {
                Ok(path)
            } else {
                Err(outside_complaint(root))
            },
        }
    }
}

/// The longest beginning of a path that is there; `there[n]` says of the first `n` segments whether
/// they are.
pub open spec fn longest_there(there: Seq<bool>, n: int) -> Option<int>
    decreases n + 1,
{
    if n < 0 || n >= there.len() {
        None
    } else if there[n] {
        Some(n)
    } else {
        longest_there(there, n - 1)
    }
}

/// Where writing to a path leads: what is there of it must be resolvable and lie within the
/// workspace; the rest of it follows.
pub open spec fn write_path(
    root: PathView,
    ancestor: PathView,
    tail: Seq<Seq<char>>,
    canonical: Option<PathView>,
) -> Result<PathView, Seq<char>> {
    match canonical {
        None => Err("failed to resolve "@ + path_text(ancestor)),
        Some(path) => if lies_within(path, root) {
            Ok(extended(path, tail))
        } else {
            Err(outside_complaint(root))
        },
    }
}

/// The beginning of a path that is there, and the segments behind it.
pub struct Ancestor {
    pub path: LexPath,
    pub tail: Vec<String>,
}

/// The root of the workspace at a resolved path, or why there is none.
pub open spec fn workspace_meant(
    given: Seq<char>,
    canonical: Option<Seq<char>>,
    is_dir: bool,
) -> Result<PathView, Seq<char>> {
    match canonical {
        None => Err("failed to resolve workspace root "@ + given),
        Some(text) => if is_dir {
            Ok(path_of(text))
        } else {
            Err("workspace root is not a directory: "@ + text)
        },
    }
}

/// The path that the user of a tool means, or that none was given.
pub open spec fn path_meant(root: PathView, user_path: Seq<char>) -> Result<PathView, Seq<char>> {
    if blank(user_path) {
        Err("path is required"@)
    } else {
        Ok(meant_path(root, user_path))
    }
}

impl Workspace {
    /// The workspace at a resolved path, or why there is none.
    pub fn new(given: &str, canonical: Option<&str>, is_dir: bool) -> (r: Result<Workspace, String>)
        ensures
            match workspace_meant(given@, crate::text::opt_str_view(canonical), is_dir) {
                Ok(root) => r matches Ok(w) && w.root@ == root,
                Err(message) => r matches Err(e) && e@ == message,
            },
    {
        match canonical {
            None => Err(cat2("failed to resolve workspace root ", given)),
            Some(text) => if is_dir {
                Ok(Workspace { root: LexPath::read(text) })
            } else {
                Err(cat2("workspace root is not a directory: ", text))
            },
        }
    }

    /// The path that the user of a tool means.
    pub fn normalize_user_path(&self, user_path: &str) -> (r: Result<LexPath, String>)
        ensures
            match path_meant(self.root@, user_path@) {
                Ok(path) => r matches Ok(p) && p@ == path,
                Err(message) => r matches Err(e) && e@ == message,
            },
    {
        let text: &str = trim(user_path);
        if is_blank(user_path) {
            return Err("path is required".to_owned());
        }
        if starts_with(text, "/") {
            Ok(LexPath::read(text))
        } else {
            let parts: Vec<String> = split_on(text, '/');
            let mut segments: Vec<String> = copy_texts(&self.root.segments);
            walk(&mut segments, &parts);
            Ok(LexPath { absolute: self.root.absolute, segments })
        }
    }

    /// An error where a path leaves the workspace.
    pub fn ensure_within_root(&self, candidate: &LexPath) -> (r: Result<(), String>)
        ensures
            lies_within(candidate@, self.root@) ==> r is Ok,
            !lies_within(candidate@, self.root@) ==> (r matches Err(e) && e@ == outside_complaint(
                self.root@,
            )),
    {
        if candidate.is_within(&self.root) {
            Ok(())
        } else {
            let text: String = self.root.text();
            Err(cat2("path is outside workspace root ", text.as_str()))
        }
    }

    /// Where reading a path leads, once the disk was asked whether it is there and where it really
    /// lies.
    pub fn resolve_for_read(
        &self,
        candidate: &LexPath,
        exists_there: bool,
        canonical: Option<&str>,
    ) -> (r: Result<LexPath, String>)
        ensures
            match read_path(
                self.root@,
                candidate@,
                exists_there,
                match canonical {
                    Some(text) => Some(path_of(text@)),
                    None => None,
                },
            ) {
                Ok(path) => r matches Ok(p) && p@ == path,
                Err(message) => r matches Err(e) && e@ == message,
            },
    {
        if !exists_there {
            let text: String = candidate.text();
            return Err(cat2("path does not exist: ", text.as_str()));
        }
        match canonical {
            None => {
                let text: String = candidate.text();
                Err(cat2("failed to resolve ", text.as_str()))
            },
            Some(text) => {
                let path: LexPath = LexPath::read(text);
                match self.ensure_within_root(&path) {
                    Ok(_) => Ok(path),
                    Err(e) => Err(e),
                }
            },
        }
    }

    /// Where writing to a path leads, once the disk was asked where its existing beginning really
    /// lies.
    pub fn resolve_for_write(&self, ancestor: &Ancestor, canonical: Option<&str>) -> (r: Result<
        LexPath,
        String,
    >)
        ensures
            match write_path(
                self.root@,
                ancestor.path@,
                views(ancestor.tail@),
                match canonical {
                    Some(text) => Some(path_of(text@)),
                    None => None,
                },
            ) {
                Ok(path) => r matches Ok(p) && p@ == path,
                Err(message) => r matches Err(e) && e@ == message,
            },
    {
        match canonical {
            None => {
                let text: String = ancestor.path.text();
                Err(cat2("failed to resolve ", text.as_str()))
            },
            Some(text) => {
                let path: LexPath = LexPath::read(text);
                match self.ensure_within_root(&path) {
                    Ok(_) => {
                        let mut whole: LexPath = path;
                        let ghost start = whole@;
                        let mut i: usize = 0;
                        assert(start.segments + views(ancestor.tail@).take(0) =~= start.segments);
                        while i < ancestor.tail.len()
                            invariant
                                i <= ancestor.tail@.len(),
                                whole@ == extended(start, views(ancestor.tail@).take(i as int)),
                            decreases ancestor.tail@.len() - i,
                        {
                            let next: LexPath = whole.child(ancestor.tail[i].as_str());
                            proof {
                                assert(next@.segments =~= start.segments + views(
                                    ancestor.tail@,
                                ).take(i + 1));
                            }
                            whole = next;
                            i += 1;
                        }
                        assert(views(ancestor.tail@).take(i as int) =~= views(ancestor.tail@));
                        Ok(whole)
                    },
                    Err(e) => Err(e),
                }
            },
        }
    }

    /// A path as it is shown to the model.
    pub fn relative_display(&self, path: &LexPath) -> (r: String)
        ensures
            r@ == shown_path(path@, self.root@),
    {
        if path.is_same(&self.root) {
            return ".".to_owned();
        }
        if path.is_within(&self.root) {
            let tail: Vec<String> = path.rest(self.root.segments.len());
            join(&tail, "/")
        } else {
            path.text()
        }
    }
}

/// The longest beginning of a path that is there, and the segments behind it; or that there is none.
pub open spec fn ancestor_of(path: PathView, there: Seq<bool>) -> Result<
    (PathView, Seq<Seq<char>>),
    Seq<char>,
> {
    match longest_there(there, path.segments.len() as int) {
        Some(n) => Ok(
            (
                PathView { absolute: path.absolute, segments: path.segments.take(n) },
                path.segments.skip(n),
            ),
        ),
        None => Err("invalid path "@ + path_text(path)),
    }
}

/// The longest beginning of a path that is there, and the segments behind it; `there[n]` says of
/// the first `n` segments whether they are.
pub fn nearest_existing_ancestor(path: &LexPath, there: &Vec<bool>) -> (r: Result<Ancestor, String>)
    requires
        there@.len() == path@.segments.len() + 1,
    ensures
        match ancestor_of(path@, there@) {
            Ok((found, tail)) => r matches Ok(a) && a.path@ == found && views(a.tail@) == tail,
            Err(message) => r matches Err(e) && e@ == message,
        },
{
    let mut n: usize = path.segments.len();
    loop
        invariant
            n <= path@.segments.len(),
            there@.len() == path@.segments.len() + 1,
            longest_there(there@, path@.segments.len() as int) == longest_there(there@, n as int),
        decreases n,
    {
        if there[n] {
            return Ok(Ancestor { path: path.first(n), tail: path.rest(n) });
        }
        if n == 0 {
            assert(longest_there(there@, -1) is None);
            let text: String = path.text();
            return Err(cat2("invalid path ", text.as_str()));
        }
        n -= 1;
    }
}

proof fn lemma_pieces_hold_no_mark(s: Seq<char>, c: char)
    ensures
        forall|i: int| 0 <= i < pieces(s, c).len() ==> !(#[trigger] pieces(s, c)[i]).contains(c),
    decreases s.len(),
{
    crate::search::lemma_find(s, one(c));
    match crate::search::find(s, one(c)) {
        Some(k) => {
            if 0 <= k < s.len() {
                lemma_pieces_hold_no_mark(s.skip(k + 1), c);
                let head = s.take(k);
                assert(!head.contains(c)) by {
                    if head.contains(c) {
                        let j = choose|j: int| 0 <= j < head.len() && head[j] == c;
                        assert(s.subrange(j, j + 1) =~= one(c));
                        assert(crate::search::occurs_at(s, one(c), j));
                    }
                }
                assert forall|i: int| 0 <= i < pieces(s, c).len() implies !(
                #[trigger] pieces(s, c)[i]).contains(c) by {
                    if i > 0 {
                        assert(pieces(s, c)[i] == pieces(s.skip(k + 1), c)[i - 1]);
                    }
                }
            }
        },
        None => {
            assert(!s.contains(c)) by {
                if s.contains(c) {
                    let j = choose|j: int| 0 <= j < s.len() && s[j] == c;
                    assert(s.subrange(j, j + 1) =~= one(c));
                    assert(crate::search::occurs_at(s, one(c), j));
                }
            }
        },
    }
}

proof fn lemma_walked_is_plain(from: Seq<Seq<char>>, parts: Seq<Seq<char>>)
    requires
        forall|i: int| 0 <= i < from.len() ==> is_name(#[trigger] from[i]),
        forall|i: int| 0 <= i < parts.len() ==> !(#[trigger] parts[i]).contains('/'),
    ensures
        forall|i: int| 0 <= i < walked(from, parts).len() ==> is_name(#[trigger] walked(from, parts)[i]),
    decreases parts.len(),
{
    if parts.len() > 0 {
        let front = parts.drop_last();
        assert forall|i: int| 0 <= i < front.len() implies !(#[trigger] front[i]).contains('/') by {
            assert(front[i] == parts[i]);
        }
        lemma_walked_is_plain(from, front);
        let before = walked(from, front);
        let after = walked(from, parts);
        assert(!parts[parts.len() - 1].contains('/'));
        assert forall|i: int| 0 <= i < after.len() implies is_name(#[trigger] after[i]) by {
            if i < before.len() {
                assert(is_name(before[i]));
            }
        }
    }
}

/// Whatever text a path is read from, nothing in it goes up any more.
pub proof fn law_read_paths_are_plain(text: Seq<char>)
    ensures
        is_plain(path_of(text)),
{
    lemma_pieces_hold_no_mark(text, '/');
    lemma_walked_is_plain(Seq::empty(), pieces(text, '/'));
}

proof fn lemma_find_mark(head: Seq<char>, c: char, tail: Seq<char>)
    requires
        !head.contains(c),
    ensures
        crate::search::find(head + one(c) + tail, one(c)) == Some(head.len() as int),
        crate::search::find(head, one(c)) is None,
{
    let s = head + one(c) + tail;
    let n = head.len() as int;
    assert(s.subrange(n, n + 1) =~= one(c));
    assert forall|j: int| 0 <= j < n implies !crate::search::occurs_at(s, one(c), j) by {
        if crate::search::occurs_at(s, one(c), j) {
            assert(s.subrange(j, j + 1)[0] == head[j]);
            assert(one(c)[0] == c);
        }
    }
    crate::search::lemma_find_at(s, one(c), n);
    assert forall|j: int| !crate::search::occurs_at(head, one(c), j) by {
        if crate::search::occurs_at(head, one(c), j) {
            assert(head.subrange(j, j + 1)[0] == head[j]);
            assert(one(c)[0] == c);
        }
    }
    crate::search::lemma_find_none(head, one(c));
}

proof fn lemma_pieces_of_head(head: Seq<char>, c: char, tail: Seq<char>)
    requires
        !head.contains(c),
    ensures
        pieces(head + one(c) + tail, c) == seq![head] + pieces(tail, c),
        pieces(head, c) == seq![head],
{
    let s = head + one(c) + tail;
    let n = head.len() as int;
    lemma_find_mark(head, c, tail);
    assert(s.take(n) =~= head);
    assert(s.skip(n + 1) =~= tail);
}

proof fn lemma_pieces_of_last(front: Seq<char>, c: char, last: Seq<char>)
    requires
        !last.contains(c),
    ensures
        pieces(front + one(c) + last, c) == pieces(front, c).push(last),
    decreases front.len(),
{
    if front.contains(c) {
        crate::search::lemma_find(front, one(c));
        let j = choose|j: int| 0 <= j < front.len() && front[j] == c;
        assert(front.subrange(j, j + 1) =~= one(c));
        assert(crate::search::occurs_at(front, one(c), j));
        let k = crate::search::find(front, one(c)).unwrap();
        let head = front.take(k);
        let rest = front.skip(k + 1);
        assert(!head.contains(c)) by {
            if head.contains(c) {
                let m = choose|m: int| 0 <= m < head.len() && head[m] == c;
                assert(front.subrange(m, m + 1) =~= one(c));
                assert(crate::search::occurs_at(front, one(c), m));
            }
        }
        assert(front.subrange(k, k + 1)[0] == front[k] && one(c)[0] == c);
        assert(front =~= head + one(c) + rest);
        let more = rest + one(c) + last;
        assert(front + one(c) + last =~= head + one(c) + more);
        lemma_pieces_of_head(head, c, rest);
        lemma_pieces_of_head(head, c, more);
        lemma_pieces_of_last(rest, c, last);
        assert(seq![head] + pieces(rest, c).push(last) =~= (seq![head] + pieces(rest, c)).push(
            last,
        ));
    } else {
        lemma_pieces_of_head(front, c, last);
        lemma_pieces_of_head(last, c, last);
        assert(seq![front] + seq![last] =~= seq![front].push(last));
    }
}

/// Joined names are cut apart again.
pub proof fn lemma_pieces_of_joined(names: Seq<Seq<char>>)
    requires
        names.len() > 0,
        forall|i: int| 0 <= i < names.len() ==> is_name(#[trigger] names[i]),
    ensures
        pieces(joined(names, "/"@), '/') == names,
        joined(names, "/"@).len() > 0,
        joined(names, "/"@)[0] != '/',
    decreases names.len(),
{
    reveal_strlit("/");
    assert("/"@ =~= one('/'));
    let last = names[names.len() - 1];
    assert(is_name(last));
    if names.len() == 1 {
        lemma_pieces_of_head(last, '/', last);
        assert(seq![last] =~= names);
        assert(last.contains(last[0]));
    } else {
        let front = names.drop_last();
        assert forall|i: int| 0 <= i < front.len() implies is_name(#[trigger] front[i]) by {
            assert(front[i] == names[i]);
        }
        lemma_pieces_of_joined(front);
        lemma_pieces_of_last(joined(front, "/"@), '/', last);
        assert(front.push(last) =~= names);
    }
}

/// Names are walked one below the other.
pub proof fn lemma_names_are_walked(from: Seq<Seq<char>>, names: Seq<Seq<char>>)
    requires
        forall|i: int| 0 <= i < names.len() ==> is_name(#[trigger] names[i]),
    ensures
        walked(from, names) == from + names,
    decreases names.len(),
{
    if names.len() > 0 {
        let front = names.drop_last();
        assert forall|i: int| 0 <= i < front.len() implies is_name(#[trigger] front[i]) by {
            assert(front[i] == names[i]);
        }
        lemma_names_are_walked(from, front);
        assert(is_name(names[names.len() - 1]));
        assert((from + front).push(names.last()) =~= from + names);
    } else {
        assert(from + names =~= from);
    }
}

proof fn lemma_gap_is_walked(parts: Seq<Seq<char>>)
    ensures
        walked(Seq::empty(), seq![Seq::<char>::empty()] + parts) == walked(Seq::empty(), parts),
    decreases parts.len(),
{
    let all = seq![Seq::<char>::empty()] + parts;
    if parts.len() > 0 {
        lemma_gap_is_walked(parts.drop_last());
        assert(all.drop_last() =~= seq![Seq::<char>::empty()] + parts.drop_last());
    } else {
        assert(all.drop_last() =~= parts);
        assert(all.last().len() == 0);
    }
}

/// The text of a plain path reads back as that path.
pub proof fn law_plain_path_reads_back(path: PathView)
    requires
        is_plain(path),
    ensures
        path_of(path_text(path)) == path,
{
    reveal_strlit("/");
    assert("/"@ =~= one('/'));
    let names = path.segments;
    let tail = joined(names, "/"@);
    let none = Seq::<char>::empty();
    lemma_names_are_walked(Seq::empty(), names);
    assert(Seq::<Seq<char>>::empty() + names =~= names);
    lemma_pieces_of_head(none, '/', tail);
    lemma_gap_is_walked(pieces(tail, '/'));
    assert(none + one('/') + tail =~= "/"@ + tail);
    if names.len() > 0 {
        lemma_pieces_of_joined(names);
        if starts(tail, "/"@) {
            assert(tail.take(1)[0] == tail[0]);
        }
    } else {
        lemma_gap_is_walked(names);
        assert(seq![none] + names =~= seq![none]);
        assert(tail =~= none);
    }
    if path.absolute {
        assert(("/"@ + tail).take(1) =~= "/"@);
    }
}

/// A path that was read reads back from its own text: reading it again changes nothing.
pub proof fn law_read_path_reads_back(text: Seq<char>)
    ensures
        path_of(path_text(path_of(text))) == path_of(text),
{
    law_read_paths_are_plain(text);
    law_plain_path_reads_back(path_of(text));
}

/// A path that may be read lies within the workspace.
pub proof fn law_reading_stays_within(
    root: PathView,
    candidate: PathView,
    exists_there: bool,
    canonical: Option<PathView>,
)
    ensures
        read_path(root, candidate, exists_there, canonical) matches Ok(path) ==> lies_within(path, root),
{
}

/// A path that may be written to lies within the workspace, and nothing in it goes up, where the
/// segments behind its existing beginning are names.
pub proof fn law_writing_stays_within(
    root: PathView,
    ancestor: PathView,
    tail: Seq<Seq<char>>,
    canonical: Option<PathView>,
)
    requires
        forall|i: int| 0 <= i < tail.len() ==> is_name(#[trigger] tail[i]),
        canonical matches Some(path) ==> is_plain(path),
    ensures
        write_path(root, ancestor, tail, canonical) matches Ok(path) ==> lies_within(path, root)
            && is_plain(path),
{
    if let Some(path) = canonical {
        if lies_within(path, root) {
            let whole = extended(path, tail);
            assert(whole.segments.take(root.segments.len() as int) =~= path.segments.take(
                root.segments.len() as int,
            ));
            assert forall|i: int| 0 <= i < whole.segments.len() implies is_name(
                #[trigger] whole.segments[i],
            ) by {
                if i < path.segments.len() {
                    assert(whole.segments[i] == path.segments[i]);
                } else {
                    assert(whole.segments[i] == tail[i - path.segments.len()]);
                }
            }
        }
    }
}

/// The path that the user of a tool means has no segment that goes up, so neither has any part of it.
pub proof fn law_meant_path_is_plain(root: PathView, user_path: Seq<char>)
    requires
        is_plain(root),
    ensures
        is_plain(meant_path(root, user_path)),
{
    let text = trimmed(user_path);
    law_read_paths_are_plain(text);
    lemma_pieces_hold_no_mark(text, '/');
    lemma_walked_is_plain(root.segments, pieces(text, '/'));
}

/// A path that lies within the workspace is shown from its root.
pub proof fn law_shown_path_leads_back(root: PathView, more: Seq<Seq<char>>)
    requires
        more.len() > 0,
    ensures
        shown_path(extended(root, more), root) == joined(more, "/"@),
        shown_path(root, root) == "."@,
{
    let path = extended(root, more);
    assert(path.segments.len() != root.segments.len());
    assert(path.segments.take(root.segments.len() as int) =~= root.segments);
    assert(path.segments.skip(root.segments.len() as int) =~= more);
}

} // verus!
