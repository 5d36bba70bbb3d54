//! What holds of web routing as a whole.

use vstd::prelude::*;

use crate::letter::{all_ascii, ascii_lower, lower};
use crate::model_mode::{
    dashed, is_preset_key, key_of_mode, mode_of_arg, mode_of_flags, mode_of_key, mode_of_model,
    mode_text, model_base, model_by_flags, normal_key, presets, with_mode, without_colons,
    without_leading, ModeView,
};
use crate::search::{
    find, lemma_find, lemma_find_at, lemma_find_none, occurs_at, split_at_first, starts,
};
use crate::text::{trimmed, trimmed_end, trimmed_start};

verus! {

/// A mode that a model identifier can carry: it is off, or its suffix begins with `online`.
pub open spec fn carried(mode: ModeView) -> bool {
    match mode {
        ModeView::Off => true,
        ModeView::Enabled(suffix) => starts(suffix, "online"@),
    }
}

/// Every mode that the library makes can be carried by a model identifier.
pub proof fn law_modes_are_carried(key: Seq<char>, model: Seq<char>, arg: Seq<char>, web: bool, deep: bool)
    ensures
        carried(mode_of_key(key)),
        carried(mode_of_flags(web, deep)),
        mode_of_model(model) matches Some(mode) ==> carried(mode),
        mode_of_arg(arg) matches Some(mode) ==> carried(mode),
{
    lemma_key_carried(key);
    lemma_key_carried("online"@);
    lemma_key_carried("linkup-deep"@);
    lemma_key_carried(normal_key(lower(trimmed(arg))));
    if let Some((_, suffix)) = split_at_first(model, ":online"@) {
        assert(("online"@ + suffix).take("online"@.len() as int) =~= "online"@);
    }
}

proof fn lemma_key_carried(key: Seq<char>)
    ensures
        carried(mode_of_key(key)),
{
    reveal_strlit("online");
    reveal_strlit("online/");
    assert("online"@.take("online"@.len() as int) =~= "online"@);
    assert(("online/"@ + key).take("online"@.len() as int) =~= "online"@);
}

/// A base holds no routing mark.
proof fn lemma_base_is_plain(model: Seq<char>)
    ensures
        forall|j: int| !occurs_at(model_base(model), ":online"@, j),
        model_base(model_base(model)) == model_base(model),
{
    let mark = ":online"@;
    let base = model_base(model);
    lemma_find(model, mark);
    reveal_strlit(":online");
    if let Some(i) = find(model, mark) {
        assert forall|j: int| !occurs_at(base, mark, j) by {
            if occurs_at(base, mark, j) {
                assert(base.subrange(j, j + mark.len()) =~= model.subrange(j, j + mark.len()));
                assert(occurs_at(model, mark, j));
            }
        }
    }
    lemma_find_none(base, mark);
}

/// The mark that a routed model identifier is split at is the one that was written.
proof fn lemma_split_routed(model: Seq<char>, suffix: Seq<char>)
    requires
        starts(suffix, "online"@),
    ensures
        split_at_first(model_base(model) + ":"@ + suffix, ":online"@) == Some(
            (model_base(model), suffix.skip("online"@.len() as int)),
        ),
{
    let mark = ":online"@;
    let base = model_base(model);
    let routed = base + ":"@ + suffix;
    let at = base.len() as int;
    reveal_strlit(":online");
    reveal_strlit("online");
    reveal_strlit(":");
    lemma_base_is_plain(model);
    assert(routed.subrange(at, at + mark.len()) =~= mark) by {
        assert forall|k: int| 0 <= k < mark.len() implies routed[at + k] == mark[k] by {
            if k > 0 {
                assert(suffix.take("online"@.len() as int)[k - 1] == "online"@[k - 1]);
            }
        }
    }
    assert forall|j: int| 0 <= j < at implies !occurs_at(routed, mark, j) by {
        if occurs_at(routed, mark, j) {
            if j + mark.len() <= at {
                assert(base.subrange(j, j + mark.len()) =~= routed.subrange(j, j + mark.len()));
                assert(occurs_at(base, mark, j));
            } else {
                assert(routed.subrange(j, j + mark.len())[at - j] == ':');
                assert(mark[at - j] != ':');
            }
        }
    }
    lemma_find_at(routed, mark, at);
    assert(routed.take(at) =~= base);
    assert(routed.skip(at + mark.len()) =~= suffix.skip("online"@.len() as int));
}

/// Setting a routing replaces the one that was there.
pub proof fn law_routing_is_replaced(model: Seq<char>, first: ModeView, second: ModeView)
    requires
        carried(first),
    ensures
        with_mode(with_mode(model, first), second) == with_mode(model, second),
{
    match first {
        ModeView::Off => {
            lemma_base_is_plain(model);
        },
        ModeView::Enabled(suffix) => {
            lemma_split_routed(model, suffix);
        },
    }
}

/// The routing that was set is the one that is read back; where it was switched off there is none.
pub proof fn law_routing_reads_back(model: Seq<char>, mode: ModeView)
    requires
        carried(mode),
    ensures
        mode_of_model(with_mode(model, mode)) == (match mode {
            ModeView::Off => None,
            ModeView::Enabled(_) => Some(mode),
        }),
        model_base(with_mode(model, mode)) == model_base(model),
{
    match mode {
        ModeView::Off => {
            lemma_base_is_plain(model);
            lemma_find_none(model_base(model), ":online"@);
        },
        ModeView::Enabled(suffix) => {
            lemma_split_routed(model, suffix);
            let word = "online"@;
            assert(word + suffix.skip(word.len() as int) =~= suffix) by {
                assert(suffix.take(word.len() as int) + suffix.skip(word.len() as int) =~= suffix);
            }
        },
    }
}

/// A key can be read off the mode that it stands for.
pub proof fn law_key_reads_back(key: Seq<char>)
    ensures
        key_of_mode(mode_of_key(key)) == Some(key),
        mode_text(mode_of_key(key)) == key,
{
    reveal_strlit("online");
    reveal_strlit("online/");
    let prefix = "online/"@;
    assert((prefix + key).take(prefix.len() as int) =~= prefix);
    assert((prefix + key).skip(prefix.len() as int) =~= key);
    assert((prefix + key).len() >= 7);
}

/// A key of lower-case letters and dashes.
spec fn plain_key(key: Seq<char>) -> bool {
    key.len() > 0 && forall|i: int|
        0 <= i < key.len() ==> ('a' <= #[trigger] key[i] <= 'z' || key[i] == '-')
}

proof fn lemma_plain_key(key: Seq<char>)
    requires
        plain_key(key),
    ensures
        lower(trimmed(key)) == key,
        normal_key(key) == key,
{
    assert('a' <= key[0] <= 'z' || key[0] == '-');
    assert('a' <= key.last() <= 'z' || key.last() == '-') by {
        assert(key.last() == key[key.len() - 1]);
    }
    assert(trimmed_start(key) == key);
    assert(trimmed_end(key) == key);
    assert(all_ascii(key));
    assert(ascii_lower(key) =~= key);
    assert(without_colons(key) == key);
    reveal_strlit("online/");
    assert(!starts(key, "online/"@)) by {
        if starts(key, "online/"@) {
            assert(key.take(7)[6] == '/');
            assert(key[6] == '/');
        }
    }
    assert(without_leading(key, "online/"@) == key);
    assert(dashed(key) =~= key);
}

/// Every preset key is accepted as an argument and stands for its own mode, whatever shows that mode.
pub proof fn law_preset_keys_are_accepted(i: int)
    requires
        0 <= i < presets().len(),
    ensures
        mode_of_arg(presets()[i].key) == Some(mode_of_key(presets()[i].key)),
        mode_of_arg(mode_text(mode_of_key(presets()[i].key))) == Some(mode_of_key(presets()[i].key)),
{
    let key = presets()[i].key;
    law_key_reads_back(key);
    reveal_strlit("online");
    reveal_strlit("linkup");
    reveal_strlit("linkup-deep");
    reveal_strlit("tavily");
    reveal_strlit("tavily-deep");
    reveal_strlit("brave");
    reveal_strlit("brave-deep");
    reveal_strlit("exa-fast");
    reveal_strlit("exa-auto");
    reveal_strlit("exa-neural");
    reveal_strlit("exa-deep");
    reveal_strlit("kagi");
    reveal_strlit("kagi-web");
    reveal_strlit("kagi-news");
    reveal_strlit("kagi-search");
    reveal_strlit("perplexity");
    reveal_strlit("perplexity-deep");
    reveal_strlit("valyu");
    reveal_strlit("valyu-deep");
    reveal_strlit("valyu-web");
    reveal_strlit("valyu-web-deep");
    reveal_strlit("off");
    reveal_strlit("none");
    reveal_strlit("disable");
    reveal_strlit("disabled");
    reveal_strlit("on");
    reveal_strlit("standard");
    reveal_strlit("auto");
    reveal_strlit("deep");
    assert(plain_key(key));
    lemma_plain_key(key);
    assert(is_preset_key(key));
    if key != "online"@ {
        assert(key[0] == 'l' || key[0] == 't' || key[0] == 'b' || key[0] == 'e' || key[0] == 'k'
            || key[0] == 'p' || key[0] == 'v');
    }
}

/// The word that shows the switched-off mode is accepted and switches it off.
pub proof fn law_off_is_accepted()
    ensures
        mode_of_arg(mode_text(ModeView::Off)) == Some(ModeView::Off),
{
    reveal_strlit("off");
    lemma_plain_key("off"@);
}

/// The place of a preset's key among the presets.
spec fn key_place(key: Seq<char>) -> int {
    if key == "online"@ {
        0
    } else if key == "linkup"@ {
        1
    } else if key == "linkup-deep"@ {
        2
    } else if key == "tavily"@ {
        3
    } else if key == "tavily-deep"@ {
        4
    } else if key == "brave"@ {
        5
    } else if key == "brave-deep"@ {
        6
    } else if key == "exa-fast"@ {
        7
    } else if key == "exa-auto"@ {
        8
    } else if key == "exa-neural"@ {
        9
    } else if key == "exa-deep"@ {
        10
    } else if key == "kagi"@ {
        11
    } else if key == "kagi-web"@ {
        12
    } else if key == "kagi-news"@ {
        13
    } else if key == "kagi-search"@ {
        14
    } else if key == "perplexity"@ {
        15
    } else if key == "perplexity-deep"@ {
        16
    } else if key == "valyu"@ {
        17
    } else if key == "valyu-deep"@ {
        18
    } else if key == "valyu-web"@ {
        19
    } else if key == "valyu-web-deep"@ {
        20
    } else {
        -1
    }
}

proof fn lemma_key_place(i: int)
    requires
        0 <= i < presets().len(),
    ensures
        key_place(presets()[i].key) == i,
{
    reveal_strlit("online");
    reveal_strlit("linkup");
    reveal_strlit("linkup-deep");
    reveal_strlit("tavily");
    reveal_strlit("tavily-deep");
    reveal_strlit("brave");
    reveal_strlit("brave-deep");
    reveal_strlit("exa-fast");
    reveal_strlit("exa-auto");
    reveal_strlit("exa-neural");
    reveal_strlit("exa-deep");
    reveal_strlit("kagi");
    reveal_strlit("kagi-web");
    reveal_strlit("kagi-news");
    reveal_strlit("kagi-search");
    reveal_strlit("perplexity");
    reveal_strlit("perplexity-deep");
    reveal_strlit("valyu");
    reveal_strlit("valyu-deep");
    reveal_strlit("valyu-web");
    reveal_strlit("valyu-web-deep");
    if i == 0 {
        assert(presets()[0].key == "online"@);
        assert(key_place("online"@) == 0);
    } else if i == 1 {
        assert(presets()[1].key == "linkup"@);
        assert("online"@[0] != "linkup"@[0]);
        assert(key_place("linkup"@) == 1);
    } else if i == 2 {
        assert(presets()[2].key == "linkup-deep"@);
        assert(key_place("linkup-deep"@) == 2);
    } else if i == 3 {
        assert(presets()[3].key == "tavily"@);
        assert("online"@[0] != "tavily"@[0]);
        assert("linkup"@[0] != "tavily"@[0]);
        assert(key_place("tavily"@) == 3);
    } else if i == 4 {
        assert(presets()[4].key == "tavily-deep"@);
        assert("linkup-deep"@[0] != "tavily-deep"@[0]);
        assert(key_place("tavily-deep"@) == 4);
    } else if i == 5 {
        assert(presets()[5].key == "brave"@);
        assert(key_place("brave"@) == 5);
    } else if i == 6 {
        assert(presets()[6].key == "brave-deep"@);
        assert(key_place("brave-deep"@) == 6);
    } else if i == 7 {
        assert(presets()[7].key == "exa-fast"@);
        assert(key_place("exa-fast"@) == 7);
    } else if i == 8 {
        assert(presets()[8].key == "exa-auto"@);
        assert("exa-fast"@[4] != "exa-auto"@[4]);
        assert(key_place("exa-auto"@) == 8);
    } else if i == 9 {
        assert(presets()[9].key == "exa-neural"@);
        assert("brave-deep"@[0] != "exa-neural"@[0]);
        assert(key_place("exa-neural"@) == 9);
    } else if i == 10 {
        assert(presets()[10].key == "exa-deep"@);
        assert("exa-fast"@[4] != "exa-deep"@[4]);
        assert("exa-auto"@[4] != "exa-deep"@[4]);
        assert(key_place("exa-deep"@) == 10);
    } else if i == 11 {
        assert(presets()[11].key == "kagi"@);
        assert(key_place("kagi"@) == 11);
    } else if i == 12 {
        assert(presets()[12].key == "kagi-web"@);
        assert("exa-fast"@[0] != "kagi-web"@[0]);
        assert("exa-auto"@[0] != "kagi-web"@[0]);
        assert("exa-deep"@[0] != "kagi-web"@[0]);
        assert(key_place("kagi-web"@) == 12);
    } else if i == 13 {
        assert(presets()[13].key == "kagi-news"@);
        assert(key_place("kagi-news"@) == 13);
    } else if i == 14 {
        assert(presets()[14].key == "kagi-search"@);
        assert("linkup-deep"@[0] != "kagi-search"@[0]);
        assert("tavily-deep"@[0] != "kagi-search"@[0]);
        assert(key_place("kagi-search"@) == 14);
    } else if i == 15 {
        assert(presets()[15].key == "perplexity"@);
        assert("brave-deep"@[0] != "perplexity"@[0]);
        assert("exa-neural"@[0] != "perplexity"@[0]);
        assert(key_place("perplexity"@) == 15);
    } else if i == 16 {
        assert(presets()[16].key == "perplexity-deep"@);
        assert(key_place("perplexity-deep"@) == 16);
    } else if i == 17 {
        assert(presets()[17].key == "valyu"@);
        assert("brave"@[0] != "valyu"@[0]);
        assert(key_place("valyu"@) == 17);
    } else if i == 18 {
        assert(presets()[18].key == "valyu-deep"@);
        assert("brave-deep"@[0] != "valyu-deep"@[0]);
        assert("exa-neural"@[0] != "valyu-deep"@[0]);
        assert("perplexity"@[0] != "valyu-deep"@[0]);
        assert(key_place("valyu-deep"@) == 18);
    } else if i == 19 {
        assert(presets()[19].key == "valyu-web"@);
        assert("kagi-news"@[0] != "valyu-web"@[0]);
        assert(key_place("valyu-web"@) == 19);
    } else if i == 20 {
        assert(presets()[20].key == "valyu-web-deep"@);
        assert("valyu-web-deep"@.len() == 14);
        assert(key_place("valyu-web-deep"@) == 20);
    }
}

/// No two presets have the same key.
pub proof fn law_preset_keys_differ(i: int, j: int)
    requires
        0 <= i < j < presets().len(),
    ensures
        presets()[i].key != presets()[j].key,
{
    lemma_key_place(i);
    lemma_key_place(j);
}

/// A start-up flag switches web search on and keeps a routing that the model already carries; without
/// a flag there is none.
pub proof fn law_flags_keep_a_routing(model: Seq<char>, web: bool, deep_web: bool)
    ensures
        web || deep_web ==> mode_of_model(model_by_flags(model, web, deep_web)) is Some,
        (web || deep_web) && mode_of_model(model) is Some ==> model_by_flags(model, web, deep_web)
            == model,
        (web || deep_web) && mode_of_model(model) is None ==> mode_of_model(
            model_by_flags(model, web, deep_web),
        ) == Some(mode_of_flags(web, deep_web)),
        !web && !deep_web ==> mode_of_model(model_by_flags(model, web, deep_web)) is None,
        model_base(model_by_flags(model, web, deep_web)) == model_base(model),
{
    law_modes_are_carried("online"@, model, "online"@, web, deep_web);
    law_routing_reads_back(model, mode_of_flags(web, deep_web));
}

} // verus!
