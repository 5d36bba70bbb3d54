//! A line of text that is edited in place.
//!
//! The cursor counts bytes and moves by one; an edit is possible where it stands between two
//! characters.

use vstd::prelude::*;
use vstd::utf8::{encode_scalar, encode_utf8};

use crate::text::{chars_of, string_of};

verus! {

/// A line of text with a cursor in it.
#[derive(Debug)]
pub struct LineEditor {
    pub text: String,
    pub cursor: usize,
}

/// The view of a [`LineEditor`].
pub struct EditorView {
    pub text: Seq<char>,
    pub cursor: nat,
}

impl View for LineEditor {
    type V = EditorView;

    open spec fn view(&self) -> EditorView {
        EditorView { text: self.text@, cursor: self.cursor as nat }
    }
}

/// What a key does to a line.
#[derive(Debug, Clone, Copy, PartialEq, Eq, Structural)]
pub enum Edit {
    Insert(char),
    Backspace,
    Delete,
    Left,
    Right,
}

/// How many bytes a character takes up.
pub open spec fn char_width(c: char) -> nat {
    encode_scalar(c as u32).len()
}

/// How many bytes a text takes up.
pub open spec fn byte_len(s: Seq<char>) -> nat {
    encode_utf8(s).len()
}

/// The number of the character that begins at a byte, or the number of all of them at the end;
/// nothing inside of a character.
pub open spec fn index_at(s: Seq<char>, byte: nat) -> Option<int>
    decreases s.len(),
{
    if byte == 0 {
        Some(0)
    } else if s.len() == 0 || byte < char_width(s[0]) {
        None
    } else {
        match index_at(s.drop_first(), (byte - char_width(s[0])) as nat) {
            Some(k) => Some(k + 1),
            None => None,
        }
    }
}

/// The empty line.
pub open spec fn empty_line() -> EditorView {
    EditorView { text: Seq::empty(), cursor: 0 }
}

/// Whether the cursor lies in the line.
pub open spec fn cursor_in_line(e: EditorView) -> bool {
    e.cursor <= byte_len(e.text)
}

/// Whether an edit is possible: what is put in or taken out must lie between two characters.
pub open spec fn accepts(e: EditorView, edit: Edit) -> bool {
    match edit {
        Edit::Insert(_) => index_at(e.text, e.cursor) is Some,
        Edit::Backspace => e.cursor == 0 || index_at(e.text, (e.cursor - 1) as nat) is Some,
        Edit::Delete => e.cursor >= byte_len(e.text) || index_at(e.text, e.cursor) is Some,
        Edit::Left => true,
        Edit::Right => true,
    }
}

/// A line after an edit.
pub open spec fn edited(e: EditorView, edit: Edit) -> EditorView {
    match edit {
        Edit::Insert(c) => EditorView {
            text: e.text.insert(index_at(e.text, e.cursor).unwrap(), c),
            cursor: e.cursor + 1,
        },
        Edit::Backspace => if e.cursor == 0 {
            e
        } else {
            EditorView {
                text: e.text.remove(index_at(e.text, (e.cursor - 1) as nat).unwrap()),
                cursor: (e.cursor - 1) as nat,
            }
        },
        Edit::Delete => if e.cursor < byte_len(e.text) {
            EditorView { text: e.text.remove(index_at(e.text, e.cursor).unwrap()), ..e }
        } else {
            e
        },
        Edit::Left => EditorView {
            cursor: if e.cursor == 0 {
                0
            } else {
                (e.cursor - 1) as nat
            },
            ..e
        },
        Edit::Right => EditorView {
            cursor: if e.cursor < byte_len(e.text) {
                e.cursor + 1
            } else {
                byte_len(e.text)
            },
            ..e
        },
    }
}

/// The bytes of a text are those of its first character and of the rest.
pub proof fn lemma_byte_len(s: Seq<char>)
    requires
        s.len() > 0,
    ensures
        byte_len(s) == char_width(s[0]) + byte_len(s.drop_first()),
        1 <= char_width(s[0]) <= 4,
{
}

/// The bytes of two texts add up.
pub proof fn lemma_byte_len_adds(a: Seq<char>, b: Seq<char>)
    ensures
        byte_len(a + b) == byte_len(a) + byte_len(b),
    decreases a.len(),
{
    if a.len() == 0 {
        assert(a + b =~= b);
    } else {
        lemma_byte_len_adds(a.drop_first(), b);
        assert((a + b).drop_first() =~= a.drop_first() + b);
        lemma_byte_len(a);
        lemma_byte_len(a + b);
    }
}

/// The character that begins at a byte has that many bytes before it.
pub proof fn lemma_index_at(s: Seq<char>, byte: nat)
    ensures
        index_at(s, byte) matches Some(k) ==> 0 <= k <= s.len() && byte_len(s.take(k)) == byte,
        index_at(s, byte) matches Some(k) ==> (k < s.len() <==> byte < byte_len(s)),
    decreases s.len(),
{
    if byte == 0 {
        assert(s.take(0) =~= Seq::empty());
        if s.len() > 0 {
            lemma_byte_len(s);
        }
    } else if s.len() > 0 && byte >= char_width(s[0]) {
        let rest = s.drop_first();
        let left = (byte - char_width(s[0])) as nat;
        lemma_index_at(rest, left);
        lemma_byte_len(s);
        if let Some(k) = index_at(rest, left) {
            assert(s.take(k + 1).drop_first() =~= rest.take(k));
            lemma_byte_len(s.take(k + 1));
        }
    }
}

proof fn lemma_insert_len(s: Seq<char>, k: int, c: char)
    requires
        0 <= k <= s.len(),
    ensures
        byte_len(s.insert(k, c)) == byte_len(s) + char_width(c),
{
    assert(s.insert(k, c) =~= s.take(k) + (seq![c] + s.skip(k)));
    assert(s =~= s.take(k) + s.skip(k));
    lemma_byte_len_adds(s.take(k), seq![c] + s.skip(k));
    lemma_byte_len_adds(seq![c], s.skip(k));
    lemma_byte_len_adds(s.take(k), s.skip(k));
    lemma_byte_len(seq![c]);
    assert(seq![c].drop_first() =~= Seq::empty());
}

proof fn lemma_remove_len(s: Seq<char>, k: int)
    requires
        0 <= k < s.len(),
    ensures
        byte_len(s.remove(k)) == byte_len(s) - char_width(s[k]),
        byte_len(s.take(k)) <= byte_len(s.remove(k)),
{
    assert(s.remove(k) =~= s.take(k) + s.skip(k + 1));
    assert(s =~= s.take(k) + (seq![s[k]] + s.skip(k + 1)));
    lemma_byte_len_adds(s.take(k), s.skip(k + 1));
    lemma_byte_len_adds(s.take(k), seq![s[k]] + s.skip(k + 1));
    lemma_byte_len_adds(seq![s[k]], s.skip(k + 1));
    lemma_byte_len(seq![s[k]]);
    assert(seq![s[k]].drop_first() =~= Seq::empty());
}

fn width_of(c: char) -> (r: usize)
    ensures
        r == char_width(c),
        1 <= r <= 4,
{
    let n: u32 = c as u32;
    if n <= 0x7f {
        1
    } else if n <= 0x7ff {
        2
    } else if n <= 0xffff {
        3
    } else {
        4
    }
}

fn locate(chars: &Vec<char>, byte: usize) -> (r: Option<usize>)
    ensures
        match (r, index_at(chars@, byte as nat)) {
            (Some(k), Some(want)) => k == want,
            (None, None) => true,
            _ => false,
        },
{
    let mut left: usize = byte;
    let mut i: usize = 0;
    assert(chars@.skip(0) =~= chars@);
    while left > 0
        invariant
            i <= chars@.len(),
            match index_at(chars@.skip(i as int), left as nat) {
                Some(k) => index_at(chars@, byte as nat) == Some(k + i),
                None => index_at(chars@, byte as nat) is None,
            },
        decreases left,
    {
        let ghost rest = chars@.skip(i as int);
        if i >= chars.len() {
            return None;
        }
        let w: usize = width_of(chars[i]);
        assert(rest[0] == chars@[i as int]);
        if left < w {
            return None;
        }
        assert(rest.drop_first() =~= chars@.skip(i + 1));
        left -= w;
        i += 1;
    }
    Some(i)
}

fn bytes_in(s: &str) -> (r: usize)
    ensures
        r == byte_len(s@),
{
    let bytes: &[u8] = s.as_bytes();
    bytes.len()
}

impl LineEditor {
    /// The cursor lies in the line.
    pub open spec fn well_formed(self) -> bool {
        cursor_in_line(self@)
    }

    /// The empty line.
    pub fn new() -> (r: LineEditor)
        ensures
            r.well_formed(),
            r@ == empty_line(),
    {
        LineEditor { text: String::new(), cursor: 0 }
    }

    /// A line with the cursor at its end.
    pub fn at_end(text: String) -> (r: LineEditor)
        ensures
            r.well_formed(),
            r@ == (EditorView { text: text@, cursor: byte_len(text@) }),
    {
        let cursor: usize = bytes_in(text.as_str());
        LineEditor { text, cursor }
    }

    /// Whether an edit is possible.
    pub fn can(&self, edit: Edit) -> (r: bool)
        ensures
            r == accepts(self@, edit),
    {
        let chars: Vec<char> = chars_of(self.text.as_str());
        match edit {
            Edit::Insert(_) => locate(&chars, self.cursor).is_some(),
            Edit::Backspace => self.cursor == 0 || locate(&chars, self.cursor - 1).is_some(),
            Edit::Delete => self.cursor >= bytes_in(self.text.as_str()) || locate(
                &chars,
                self.cursor,
            ).is_some(),
            Edit::Left => true,
            Edit::Right => true,
        }
    }

    /// Edits the line.
    pub fn edit(&mut self, edit: Edit)
        requires
            old(self).well_formed(),
            accepts(old(self)@, edit),
        ensures
            final(self).well_formed(),
            final(self)@ == edited(old(self)@, edit),
    {
        let mut chars: Vec<char> = chars_of(self.text.as_str());
        let total: usize = bytes_in(self.text.as_str());
        let ghost before = self.text@;
        match edit {
            Edit::Insert(c) => {
                if let Some(k) = locate(&chars, self.cursor) {
                    proof {
                        lemma_index_at(before, self.cursor as nat);
                        lemma_insert_len(before, k as int, c);
                        lemma_byte_len(seq![c]);
                    }
                    chars.insert(k, c);
                    self.text = string_of(&chars);
                    let room: usize = bytes_in(self.text.as_str());
                    assert(self.cursor < room);
                    self.cursor = self.cursor + 1;
                }
            },
            Edit::Backspace => {
                if self.cursor > 0 {
                    if let Some(k) = locate(&chars, self.cursor - 1) {
                        proof {
                            lemma_index_at(before, (self.cursor - 1) as nat);
                            lemma_remove_len(before, k as int);
                        }
                        chars.remove(k);
                        self.text = string_of(&chars);
                        self.cursor = self.cursor - 1;
                    }
                }
            },
            Edit::Delete => {
                if self.cursor < total {
                    if let Some(k) = locate(&chars, self.cursor) {
                        proof {
                            lemma_index_at(before, self.cursor as nat);
                            lemma_remove_len(before, k as int);
                        }
                        chars.remove(k);
                        self.text = string_of(&chars);
                    }
                }
            },
            Edit::Left => {
                if self.cursor > 0 {
                    self.cursor = self.cursor - 1;
                }
            },
            Edit::Right => {
                if self.cursor < total {
                    self.cursor = self.cursor + 1;
                }
            },
        }
    }

    /// Empties the line.
    pub fn clear(&mut self)
        ensures
            final(self).well_formed(),
            final(self)@ == empty_line(),
    {
        self.text = String::new();
        self.cursor = 0;
    }
}

/// Whether every character of a text takes up one byte.
pub open spec fn is_ascii_text(s: Seq<char>) -> bool {
    forall|i: int| 0 <= i < s.len() ==> (#[trigger] s[i]) as u32 <= 0x7f
}

/// In a line of ASCII characters, bytes and characters are counted alike.
pub proof fn lemma_ascii_index(s: Seq<char>, byte: nat)
    requires
        is_ascii_text(s),
        byte <= s.len(),
    ensures
        index_at(s, byte) == Some(byte as int),
        byte_len(s) == s.len(),
    decreases s.len(),
{
    if s.len() > 0 {
        let rest = s.drop_first();
        assert(char_width(s[0]) == 1);
        lemma_byte_len(s);
        assert forall|i: int| 0 <= i < rest.len() implies (#[trigger] rest[i]) as u32 <= 0x7f by {
            assert(rest[i] == s[i + 1]);
        }
        if byte > 0 {
            lemma_ascii_index(rest, (byte - 1) as nat);
        } else {
            lemma_ascii_index(rest, 0);
        }
    }
}

/// In a line of ASCII characters every edit is possible, the cursor counts characters, and an ASCII
/// character that is put in leaves such a line.
pub proof fn law_ascii_lines_can_be_edited(e: EditorView, edit: Edit)
    requires
        is_ascii_text(e.text),
        cursor_in_line(e),
        edit matches Edit::Insert(c) ==> c as u32 <= 0x7f,
    ensures
        accepts(e, edit),
        is_ascii_text(edited(e, edit).text),
        edit matches Edit::Insert(c) ==> edited(e, edit).text == e.text.insert(e.cursor as int, c),
{
    lemma_ascii_index(e.text, 0);
    lemma_ascii_index(e.text, e.cursor);
    if e.cursor > 0 {
        lemma_ascii_index(e.text, (e.cursor - 1) as nat);
    }
    let after = edited(e, edit).text;
    assert forall|i: int| 0 <= i < after.len() implies (#[trigger] after[i]) as u32 <= 0x7f by {
        match edit {
            Edit::Insert(c) => {
                let k = e.cursor as int;
                if i < k {
                    assert(after[i] == e.text[i]);
                } else if i > k {
                    assert(after[i] == e.text[i - 1]);
                }
            },
            Edit::Backspace => {
                if e.cursor > 0 {
                    let k = e.cursor as int - 1;
                    if i < k {
                        assert(after[i] == e.text[i]);
                    } else {
                        assert(after[i] == e.text[i + 1]);
                    }
                }
            },
            Edit::Delete => {
                let k = e.cursor as int;
                if e.cursor < e.text.len() {
                    if i < k {
                        assert(after[i] == e.text[i]);
                    } else {
                        assert(after[i] == e.text[i + 1]);
                    }
                }
            },
            _ => {},
        }
    }
}

/// Taking back the ASCII character that was just put in restores the line.
pub proof fn law_backspace_undoes_insert(e: EditorView, c: char)
    requires
        is_ascii_text(e.text),
        cursor_in_line(e),
        c as u32 <= 0x7f,
    ensures
        edited(edited(e, Edit::Insert(c)), Edit::Backspace) == e,
{
    law_ascii_lines_can_be_edited(e, Edit::Insert(c));
    lemma_ascii_index(e.text, 0);
    lemma_ascii_index(e.text, e.cursor);
    let mid = edited(e, Edit::Insert(c));
    lemma_ascii_index(mid.text, e.cursor);
    assert(mid.text.remove(e.cursor as int) =~= e.text);
}

} // verus!
