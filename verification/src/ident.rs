//! Identifiers: the names under which conversations are stored, and fresh random ones.

use vstd::prelude::*;

use crate::letter::{ascii_lower, ascii_lower_char, to_ascii_lower};
use crate::text::{cat2, chars_of, string_range, trim, trimmed, trimmed_end, trimmed_start};

verus! {

/// A lower-case hexadecimal digit.
pub open spec fn hex_lower(c: char) -> bool {
    '0' <= c <= '9' || 'a' <= c <= 'f'
}

/// One of the four digits that mark the variant of a random identifier.
pub open spec fn variant_digit(c: char) -> bool {
    c == '8' || c == '9' || c == 'a' || c == 'b'
}

/// The text form of a random UUID: groups of 8, 4, 4, 4 and 12 lower-case hexadecimal digits with
/// dashes between them, and the digits that mark version 4.
pub open spec fn uuid_text(s: Seq<char>) -> bool {
    &&& s.len() == 36
    &&& forall|i: int|
        0 <= i < 36 ==> if i == 8 || i == 13 || i == 18 || i == 23 {
            #[trigger] s[i] == '-'
        } else {
            hex_lower(s[i])
        }
    &&& s[14] == '4'
    &&& variant_digit(s[19])
}

/// The text form of a random UUID without dashes.
pub open spec fn uuid_simple_text(s: Seq<char>) -> bool {
    &&& s.len() == 32
    &&& forall|i: int| 0 <= i < 32 ==> hex_lower(#[trigger] s[i])
    &&& s[12] == '4'
    &&& variant_digit(s[16])
}

/// `uuid::Uuid::new_v4`, in its own text form: which one it is rests on chance, its form does not.
#[verifier::external_body]
pub(crate) fn new_uuid() -> (r: String)
    ensures
        uuid_text(r@),
{
    uuid::Uuid::new_v4().to_string()
}

/// `uuid::Uuid::new_v4`, in the text form of `uuid::Uuid::simple`: which one it is rests on chance,
/// its form does not.
#[verifier::external_body]
pub(crate) fn new_uuid_simple() -> (r: String)
    ensures
        uuid_simple_text(r@),
{
    uuid::Uuid::new_v4().simple().to_string()
}

/// The characters that a stored name keeps.
pub open spec fn name_char(c: char) -> bool {
    'a' <= c <= 'z' || 'A' <= c <= 'Z' || '0' <= c <= '9' || c == '-' || c == '_'
}

/// A text with every other character turned into a dash.
pub open spec fn cleaned(s: Seq<char>) -> Seq<char> {
    Seq::new(
        s.len(),
        |i: int|
            if name_char(s[i]) {
                s[i]
            } else {
                '-'
            },
    )
}

/// A text without its leading dashes.
pub open spec fn dashless_start(s: Seq<char>) -> Seq<char>
    decreases s.len(),
{
    if s.len() > 0 && s[0] == '-' {
        dashless_start(s.drop_first())
    } else {
        s
    }
}

/// A text without its trailing dashes.
pub open spec fn dashless_end(s: Seq<char>) -> Seq<char>
    decreases s.len(),
{
    if s.len() > 0 && s.last() == '-' {
        dashless_end(s.drop_last())
    } else {
        s
    }
}

/// The stored name that a text stands for; nothing where no character of it can be kept.
pub open spec fn normal_id(value: Seq<char>) -> Seq<char> {
    ascii_lower(dashless_end(dashless_start(cleaned(trimmed(value)))))
}

/// A fresh random name.
pub open spec fn fresh_id(id: Seq<char>) -> bool {
    exists|u: Seq<char>| #[trigger] uuid_text(u) && id == "chat-"@ + u
}

/// A name that stands for itself.
pub open spec fn settled_id(id: Seq<char>) -> bool {
    id.len() > 0 && normal_id(id) == id
}

/// The stored name that a text stands for, or `fresh` where no character of it can be kept.
pub fn normalize_id_or(value: &str, fresh: String) -> (r: String)
    ensures
        normal_id(value@).len() > 0 ==> r@ == normal_id(value@),
        normal_id(value@).len() == 0 ==> r@ == fresh@,
{
    let chars: Vec<char> = chars_of(trim(value));
    let mut clean: Vec<char> = Vec::new();
    let mut i: usize = 0;
    while i < chars.len()
        invariant
            i <= chars@.len(),
            clean@ =~= cleaned(chars@.take(i as int)),
        decreases chars@.len() - i,
    {
        let c: char = chars[i];
        let keep: bool = ('a' <= c && c <= 'z') || ('A' <= c && c <= 'Z') || ('0' <= c && c <= '9')
            || c == '-' || c == '_';
        clean.push(
            if keep {
                c
            } else {
                '-'
            },
        );
        i += 1;
    }
    assert(chars@.take(i as int) =~= chars@);
    let total: usize = clean.len();
    let mut a: usize = 0;
    assert(clean@.subrange(0, total as int) =~= clean@);
    while a < total && clean[a] == '-'
        invariant
            a <= total == clean@.len(),
            dashless_start(clean@) == dashless_start(clean@.subrange(a as int, total as int)),
        decreases total - a,
    {
        assert(clean@.subrange(a as int, total as int).drop_first() =~= clean@.subrange(
            a + 1,
            total as int,
        ));
        a += 1;
    }
    let mut b: usize = total;
    while b > a && clean[b - 1] == '-'
        invariant
            a <= b <= total == clean@.len(),
            dashless_end(dashless_start(clean@)) == dashless_end(
                clean@.subrange(a as int, b as int),
            ),
        decreases b,
    {
        assert(clean@.subrange(a as int, b as int).drop_last() =~= clean@.subrange(
            a as int,
            b - 1,
        ));
        b -= 1;
    }
    if a == b {
        return fresh;
    }
    to_ascii_lower(string_range(&clean, a, b).as_str())
}

/// The stored name that a text stands for, or a fresh random one where no character of it can be
/// kept.
pub fn normalize_id(value: &str) -> (r: String)
    ensures
        normal_id(value@).len() > 0 ==> r@ == normal_id(value@),
        normal_id(value@).len() == 0 ==> fresh_id(r@),
        settled_id(r@),
{
    let fresh: String = new_id();
    proof {
        law_normal_id_is_settled(value@);
    }
    normalize_id_or(value, fresh)
}

/// A fresh random name.
pub fn new_id() -> (r: String)
    ensures
        fresh_id(r@),
        settled_id(r@),
{
    let u: String = new_uuid();
    let r: String = cat2("chat-", u.as_str());
    proof {
        lemma_fresh_is_settled(u@);
    }
    r
}

/// A text of lower-case name characters that neither begins nor ends with a dash.
spec fn tidy(s: Seq<char>) -> bool {
    &&& forall|i: int|
        0 <= i < s.len() ==> name_char(#[trigger] s[i]) && !('A' <= s[i] <= 'Z')
    &&& s.len() > 0 ==> s[0] != '-' && s.last() != '-'
}

proof fn lemma_tidy_is_settled(s: Seq<char>)
    requires
        tidy(s),
    ensures
        normal_id(s) == s,
{
    if s.len() > 0 {
        assert(name_char(s[0]));
        assert(name_char(s[s.len() - 1]));
        assert(trimmed_start(s) == s);
        assert(trimmed_end(s) == s);
    }
    assert(cleaned(s) =~= s);
    assert(dashless_start(s) == s);
    assert(dashless_end(s) == s);
    assert(ascii_lower(s) =~= s);
}

proof fn lemma_fresh_is_settled(u: Seq<char>)
    requires
        uuid_text(u),
    ensures
        settled_id("chat-"@ + u),
{
    reveal_strlit("chat-");
    let s = "chat-"@ + u;
    assert forall|i: int| 0 <= i < s.len() implies name_char(#[trigger] s[i]) && !('A' <= s[i]
        <= 'Z') by {
        if i >= 5 {
            assert(s[i] == u[i - 5]);
        }
    }
    assert(s.last() == u[35]);
    assert(hex_lower(u[35]));
    lemma_tidy_is_settled(s);
}

proof fn lemma_dashless(s: Seq<char>)
    requires
        forall|i: int| 0 <= i < s.len() ==> name_char(#[trigger] s[i]),
    ensures
        ({
            let r = dashless_end(dashless_start(s));
            &&& forall|i: int| 0 <= i < r.len() ==> name_char(#[trigger] r[i])
            &&& r.len() > 0 ==> r[0] != '-' && r.last() != '-'
        }),
{
    lemma_dashless_start(s);
    lemma_dashless_end(dashless_start(s));
}

proof fn lemma_dashless_start(s: Seq<char>)
    requires
        forall|i: int| 0 <= i < s.len() ==> name_char(#[trigger] s[i]),
    ensures
        forall|i: int| 0 <= i < dashless_start(s).len() ==> name_char(#[trigger] dashless_start(s)[i]),
        dashless_start(s).len() > 0 ==> dashless_start(s)[0] != '-',
    decreases s.len(),
{
    if s.len() > 0 && s[0] == '-' {
        assert forall|i: int| 0 <= i < s.len() - 1 implies name_char(#[trigger] s.drop_first()[i]) by {
            assert(name_char(s[i + 1]));
        }
        lemma_dashless_start(s.drop_first());
    }
}

proof fn lemma_dashless_end(s: Seq<char>)
    requires
        forall|i: int| 0 <= i < s.len() ==> name_char(#[trigger] s[i]),
        s.len() > 0 ==> s[0] != '-',
    ensures
        forall|i: int| 0 <= i < dashless_end(s).len() ==> name_char(#[trigger] dashless_end(s)[i]),
        dashless_end(s).len() > 0 ==> dashless_end(s)[0] != '-' && dashless_end(s).last() != '-',
    decreases s.len(),
{
    if s.len() > 0 && s.last() == '-' {
        lemma_dashless_end(s.drop_last());
    }
}

/// A stored name holds only lower-case letters, digits, dashes and underscores, neither begins nor
/// ends with a dash, and stands for itself: naming it again changes nothing.
pub proof fn law_normal_id_is_settled(value: Seq<char>)
    ensures
        forall|i: int|
            0 <= i < normal_id(value).len() ==> name_char(#[trigger] normal_id(value)[i]) && !('A'
                <= normal_id(value)[i] <= 'Z'),
        normal_id(value).len() > 0 ==> normal_id(value)[0] != '-' && normal_id(value).last() != '-',
        normal_id(normal_id(value)) == normal_id(value),
        normal_id(value).len() > 0 ==> settled_id(normal_id(value)),
{
    let c = cleaned(trimmed(value));
    lemma_dashless(c);
    let d = dashless_end(dashless_start(c));
    let r = normal_id(value);
    assert forall|i: int| 0 <= i < r.len() implies name_char(#[trigger] r[i]) && !('A' <= r[i]
        <= 'Z') by {
        assert(name_char(d[i]));
        assert(r[i] == ascii_lower_char(d[i]));
    }
    if r.len() > 0 {
        assert(r[0] == ascii_lower_char(d[0]));
        assert(r.last() == ascii_lower_char(d.last()));
    }
    lemma_tidy_is_settled(r);
}

/// A fresh name holds only characters that a stored name keeps, and begins with a letter.
pub proof fn lemma_fresh_is_tidy(id: Seq<char>)
    requires
        fresh_id(id),
    ensures
        id.len() > 0,
        id[0] != '-',
        forall|i: int| 0 <= i < id.len() ==> name_char(#[trigger] id[i]),
{
    let u = choose|u: Seq<char>| #[trigger] uuid_text(u) && id == "chat-"@ + u;
    reveal_strlit("chat-");
    assert forall|i: int| 0 <= i < id.len() implies name_char(#[trigger] id[i]) by {
        if i >= 5 {
            assert(id[i] == u[i - 5]);
        }
    }
}

} // verus!
