//! The markup in which a model calls tools and reads their results.

use vstd::prelude::*;

use crate::search::{
    ends, lemma_find, replace, replaced, split_at_first, split_once, starts, strip_prefix,
    strip_suffix,
};
use crate::text::{cat3, trim, trimmed, views};

verus! {

/// A text with the characters that markup uses written as entities.
pub open spec fn escaped(s: Seq<char>) -> Seq<char> {
    replaced(
        replaced(
            replaced(replaced(replaced(s, "&"@, "&amp;"@), "<"@, "&lt;"@), ">"@, "&gt;"@),
            "\""@,
            "&quot;"@,
        ),
        "'"@,
        "&apos;"@,
    )
}

/// A text with entities read as the characters that they stand for.
pub open spec fn unescaped(s: Seq<char>) -> Seq<char> {
    replaced(
        replaced(
            replaced(replaced(replaced(s, "&lt;"@, "<"@), "&gt;"@, ">"@), "&quot;"@, "\""@),
            "&apos;"@,
            "'"@,
        ),
        "&amp;"@,
        "&"@,
    )
}

/// A text that can stand in a CDATA section: its ends of such a section are split over two.
pub open spec fn cdata_escaped(s: Seq<char>) -> Seq<char> {
    replaced(s, "]]>"@, "]]]]><![CDATA[>"@)
}

/// Writes the characters that markup uses as entities.
pub fn escape_xml(input: &str) -> (r: String)
    ensures
        r@ == escaped(input@),
{
    proof {
        reveal_strlit("&");
        reveal_strlit("<");
        reveal_strlit(">");
        reveal_strlit("\"");
        reveal_strlit("'");
    }
    let a: String = replace(input, "&", "&amp;");
    let b: String = replace(a.as_str(), "<", "&lt;");
    let c: String = replace(b.as_str(), ">", "&gt;");
    let d: String = replace(c.as_str(), "\"", "&quot;");
    replace(d.as_str(), "'", "&apos;")
}

/// Reads entities as the characters that they stand for.
pub fn unescape_xml(input: &str) -> (r: String)
    ensures
        r@ == unescaped(input@),
{
    proof {
        reveal_strlit("&lt;");
        reveal_strlit("&gt;");
        reveal_strlit("&quot;");
        reveal_strlit("&apos;");
        reveal_strlit("&amp;");
    }
    let a: String = replace(input, "&lt;", "<");
    let b: String = replace(a.as_str(), "&gt;", ">");
    let c: String = replace(b.as_str(), "&quot;", "\"");
    let d: String = replace(c.as_str(), "&apos;", "'");
    replace(d.as_str(), "&amp;", "&")
}

/// Makes a text fit to stand in a CDATA section.
pub fn escape_cdata(input: &str) -> (r: String)
    ensures
        r@ == cdata_escaped(input@),
{
    proof {
        reveal_strlit("]]>");
    }
    replace(input, "]]>", "]]]]><![CDATA[>")
}

/// The insides of the tool calls in a text, from the left; a call that does not end, and what stands
/// behind it, is left out.
pub open spec fn call_blocks(s: Seq<char>) -> Seq<Seq<char>>
    decreases s.len(),
{
    match split_at_first(s, "<tool_call"@) {
        None => Seq::empty(),
        Some((_, tag)) => match split_at_first(tag, ">"@) {
            None => Seq::empty(),
            Some((_, inner)) => match split_at_first(inner, "</tool_call>"@) {
                None => Seq::empty(),
                Some((block, rest)) => {
                    proof {
                        reveal_strlit("<tool_call");
                        lemma_find(s, "<tool_call"@);
                        lemma_find(tag, ">"@);
                        lemma_find(inner, "</tool_call>"@);
                    }
                    seq![block] + call_blocks(rest)
                },
            },
        },
    }
}

/// The insides of the tool calls in a text.
pub fn extract_tool_call_blocks(input: &str) -> (r: Vec<String>)
    ensures
        views(r@) == call_blocks(input@),
{
    let mut blocks: Vec<String> = Vec::new();
    let mut rest: &str = input;
    assert(views(blocks@) + call_blocks(rest@) =~= call_blocks(input@));
    proof {
        reveal_strlit("<tool_call");
    }
    loop
        invariant
            views(blocks@) + call_blocks(rest@) == call_blocks(input@),
            "<tool_call"@.len() > 0,
        ensures
            views(blocks@) == call_blocks(input@),
        decreases rest@.len(),
    {
        proof {
            lemma_find(rest@, "<tool_call"@);
        }
        match split_once(rest, "<tool_call") {
            None => {
                assert(views(blocks@) + Seq::<Seq<char>>::empty() =~= views(blocks@));
                break ;
            },
            Some((_, tag)) => match split_once(tag, ">") {
                None => {
                    assert(views(blocks@) + Seq::<Seq<char>>::empty() =~= views(blocks@));
                    break ;
                },
                Some((_, inner)) => match split_once(inner, "</tool_call>") {
                    None => {
                        assert(views(blocks@) + Seq::<Seq<char>>::empty() =~= views(blocks@));
                        break ;
                    },
                    Some((block, after)) => {
                        proof {
                            lemma_find(tag@, ">"@);
                            lemma_find(inner@, "</tool_call>"@);
                            assert(call_blocks(rest@) == seq![block@] + call_blocks(after@));
                        }
                        let ghost before = blocks@;
                        blocks.push(block.to_owned());
                        assert(views(blocks@) =~= views(before).push(block@));
                        assert(views(blocks@) + call_blocks(after@) =~= views(before) + (seq![block@]
                            + call_blocks(after@)));
                        rest = after;
                    },
                },
            },
        }
    }
    blocks
}

/// What stands between the first `<tag>` of a block and the next `</tag>`.
pub open spec fn tag_raw(block: Seq<char>, tag: Seq<char>) -> Option<Seq<char>> {
    match split_at_first(block, "<"@ + tag + ">"@) {
        None => None,
        Some((_, inner)) => match split_at_first(inner, "</"@ + tag + ">"@) {
            None => None,
            Some((raw, _)) => Some(raw),
        },
    }
}

/// Whether a text is one CDATA section.
pub open spec fn is_cdata(s: Seq<char>) -> bool {
    starts(s, "<![CDATA["@) && ends(s.skip("<![CDATA["@.len() as int), "]]>"@)
}

/// What a text between two tags says: a CDATA section holds it as it is, else entities are read.
pub open spec fn raw_meaning(raw: Seq<char>) -> Seq<char> {
    let s = trimmed(raw);
    if is_cdata(s) {
        let inner = s.skip("<![CDATA["@.len() as int);
        inner.take(inner.len() - "]]>"@.len())
    } else {
        unescaped(s)
    }
}

/// The value of a tag in a block.
#[verifier::opaque]
pub open spec fn tag_value(block: Seq<char>, tag: Seq<char>) -> Option<Seq<char>> {
    match tag_raw(block, tag) {
        Some(raw) => Some(raw_meaning(raw)),
        None => None,
    }
}

/// The value of a tag in a block.
pub fn extract_tag_value(block: &str, tag: &str) -> (r: Option<String>)
    ensures
        crate::text::opt_view(r) == tag_value(block@, tag@),
{
    reveal(tag_value);
    let open: String = cat3("<", tag, ">");
    let close: String = cat3("</", tag, ">");
    let inner: &str = match split_once(block, open.as_str()) {
        Some((_, inner)) => inner,
        None => return None,
    };
    let raw: &str = match split_once(inner, close.as_str()) {
        Some((raw, _)) => trim(raw),
        None => return None,
    };
    if let Some(rest) = strip_prefix(raw, "<![CDATA[") {
        if let Some(cdata) = strip_suffix(rest, "]]>") {
            return Some(cdata.to_owned());
        }
    }
    Some(unescape_xml(raw))
}

} // verus!
