//! The order of texts and of lists of texts.

use vstd::prelude::*;
use vstd::relations::{antisymmetric, reflexive, strongly_connected, total_ordering, transitive};

use crate::text::{chars_of, same, views};

verus! {

/// Whether a list stands before another or is the same: the first elements that differ decide, and
/// a list stands before those that go on behind it.
pub open spec fn lex_leq<T>(a: Seq<T>, b: Seq<T>, leq: spec_fn(T, T) -> bool) -> bool
    decreases a.len(),
{
    if a.len() == 0 {
        true
    } else if b.len() == 0 {
        false
    } else if a[0] == b[0] {
        lex_leq(a.drop_first(), b.drop_first(), leq)
    } else {
        leq(a[0], b[0])
    }
}

/// The order of lists whose elements have an order.
pub open spec fn lex_order<T>(leq: spec_fn(T, T) -> bool) -> spec_fn(Seq<T>, Seq<T>) -> bool {
    |a: Seq<T>, b: Seq<T>| lex_leq(a, b, leq)
}

/// The order of characters by their code points.
pub open spec fn char_order() -> spec_fn(char, char) -> bool {
    |a: char, b: char| a <= b
}

/// The order of texts.
pub open spec fn text_order() -> spec_fn(Seq<char>, Seq<char>) -> bool {
    lex_order(char_order())
}

proof fn lemma_lex_reflexive<T>(a: Seq<T>, leq: spec_fn(T, T) -> bool)
    ensures
        lex_leq(a, a, leq),
    decreases a.len(),
{
    if a.len() > 0 {
        lemma_lex_reflexive(a.drop_first(), leq);
    }
}

proof fn lemma_lex_antisymmetric<T>(a: Seq<T>, b: Seq<T>, leq: spec_fn(T, T) -> bool)
    requires
        total_ordering(leq),
        lex_leq(a, b, leq),
        lex_leq(b, a, leq),
    ensures
        a == b,
    decreases a.len(),
{
    if a.len() > 0 && b.len() > 0 {
        if a[0] == b[0] {
            lemma_lex_antisymmetric(a.drop_first(), b.drop_first(), leq);
            assert(a =~= seq![a[0]] + a.drop_first());
            assert(b =~= seq![b[0]] + b.drop_first());
        } else {
            assert(leq(a[0], b[0]) && leq(b[0], a[0]));
        }
    } else {
        assert(a =~= b);
    }
}

proof fn lemma_lex_transitive<T>(a: Seq<T>, b: Seq<T>, c: Seq<T>, leq: spec_fn(T, T) -> bool)
    requires
        total_ordering(leq),
        lex_leq(a, b, leq),
        lex_leq(b, c, leq),
    ensures
        lex_leq(a, c, leq),
    decreases a.len(),
{
    if a.len() > 0 && b.len() > 0 && c.len() > 0 {
        if a[0] == b[0] && b[0] == c[0] {
            lemma_lex_transitive(a.drop_first(), b.drop_first(), c.drop_first(), leq);
        } else if a[0] != b[0] && b[0] != c[0] {
            assert(leq(a[0], b[0]) && leq(b[0], c[0]));
            assert(leq(a[0], c[0]));
            if a[0] == c[0] {
                assert(leq(b[0], a[0]));
            }
        }
    }
}

proof fn lemma_lex_connected<T>(a: Seq<T>, b: Seq<T>, leq: spec_fn(T, T) -> bool)
    requires
        total_ordering(leq),
    ensures
        lex_leq(a, b, leq) || lex_leq(b, a, leq),
    decreases a.len(),
{
    if a.len() > 0 && b.len() > 0 {
        if a[0] == b[0] {
            lemma_lex_connected(a.drop_first(), b.drop_first(), leq);
        } else {
            assert(leq(a[0], b[0]) || leq(b[0], a[0]));
        }
    }
}

/// Lists are totally ordered where their elements are.
pub proof fn lemma_lex_is_total<T>(leq: spec_fn(T, T) -> bool)
    requires
        total_ordering(leq),
    ensures
        total_ordering(lex_order(leq)),
{
    let o = lex_order(leq);
    assert forall|a: Seq<T>| #[trigger] o(a, a) by {
        lemma_lex_reflexive(a, leq);
    }
    assert forall|a: Seq<T>, b: Seq<T>| #[trigger] o(a, b) && #[trigger] o(b, a) implies a == b by {
        lemma_lex_antisymmetric(a, b, leq);
    }
    assert forall|a: Seq<T>, b: Seq<T>, c: Seq<T>| #[trigger] o(a, b) && #[trigger] o(b, c) implies o(
        a,
        c,
    ) by {
        lemma_lex_transitive(a, b, c, leq);
    }
    assert forall|a: Seq<T>, b: Seq<T>| #[trigger] o(a, b) || #[trigger] o(b, a) by {
        lemma_lex_connected(a, b, leq);
    }
    assert(reflexive(o));
    assert(antisymmetric(o));
    assert(transitive(o));
    assert(strongly_connected(o));
}

/// Texts are totally ordered.
pub proof fn lemma_text_order_is_total()
    ensures
        total_ordering(text_order()),
        total_ordering(lex_order(text_order())),
{
    let o = char_order();
    assert(reflexive(o));
    assert(antisymmetric(o));
    assert(transitive(o));
    assert(strongly_connected(o));
    lemma_lex_is_total(o);
    lemma_lex_is_total(text_order());
}

/// Whether a text stands before another or is the same.
pub fn text_leq(a: &str, b: &str) -> (r: bool)
    ensures
        r == text_order()(a@, b@),
{
    let x: Vec<char> = chars_of(a);
    let y: Vec<char> = chars_of(b);
    let mut i: usize = 0;
    assert(a@.skip(0) =~= a@);
    assert(b@.skip(0) =~= b@);
    while i < x.len()
        invariant
            x@ == a@,
            y@ == b@,
            i <= x@.len(),
            i <= y@.len(),
            lex_leq(a@, b@, char_order()) == lex_leq(
                a@.skip(i as int),
                b@.skip(i as int),
                char_order(),
            ),
        decreases x@.len() - i,
    {
        assert(a@.skip(i as int).len() > 0);
        if i >= y.len() {
            return false;
        }
        assert(a@.skip(i as int)[0] == a@[i as int]);
        assert(b@.skip(i as int)[0] == b@[i as int]);
        if x[i] != y[i] {
            return x[i] <= y[i];
        }
        assert(a@.skip(i as int).drop_first() =~= a@.skip(i + 1));
        assert(b@.skip(i as int).drop_first() =~= b@.skip(i + 1));
        i += 1;
    }
    assert(a@.skip(i as int).len() == 0);
    true
}

/// Whether a list of texts stands before another or is the same.
pub fn texts_leq(a: &Vec<String>, b: &Vec<String>) -> (r: bool)
    ensures
        r == lex_order(text_order())(views(a@), views(b@)),
{
    let ghost va = views(a@);
    let ghost vb = views(b@);
    let mut i: usize = 0;
    assert(va.skip(0) =~= va);
    assert(vb.skip(0) =~= vb);
    while i < a.len()
        invariant
            va == views(a@),
            vb == views(b@),
            i <= a@.len(),
            i <= b@.len(),
            lex_leq(va, vb, text_order()) == lex_leq(
                va.skip(i as int),
                vb.skip(i as int),
                text_order(),
            ),
        decreases a@.len() - i,
    {
        assert(va.skip(i as int).len() > 0);
        if i >= b.len() {
            return false;
        }
        assert(va.skip(i as int)[0] == a@[i as int]@);
        assert(vb.skip(i as int)[0] == b@[i as int]@);
        if !same(a[i].as_str(), b[i].as_str()) {
            return text_leq(a[i].as_str(), b[i].as_str());
        }
        assert(va.skip(i as int).drop_first() =~= va.skip(i + 1));
        assert(vb.skip(i as int).drop_first() =~= vb.skip(i + 1));
        i += 1;
    }
    assert(va.skip(i as int).len() == 0);
    true
}

} // verus!
