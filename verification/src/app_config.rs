//! What the program remembers between runs.

use std::path::PathBuf;

use vstd::prelude::*;

use crate::home::{own_way, under_home, way_to, Place, Root};
use crate::text::same;

verus! {

/// The provider that was picked for one model.
#[derive(Debug, Clone)]
pub struct ProviderOverride {
    pub model: String,
    pub provider: String,
}

/// The providers that were picked, by model; in the order of the models' names when stored.
#[derive(Debug, Clone)]
pub struct Overrides {
    pub entries: Vec<ProviderOverride>,
}

/// What a list of picks says, where no model occurs twice.
pub open spec fn picks(entries: Seq<ProviderOverride>) -> Map<Seq<char>, Seq<char>>
    decreases entries.len(),
{
    if entries.len() == 0 {
        Map::empty()
    } else {
        picks(entries.drop_last()).insert(entries.last().model@, entries.last().provider@)
    }
}

impl View for Overrides {
    type V = Map<Seq<char>, Seq<char>>;

    open spec fn view(&self) -> Map<Seq<char>, Seq<char>> {
        picks(self.entries@)
    }
}

/// No model occurs twice.
pub open spec fn models_differ(entries: Seq<ProviderOverride>) -> bool {
    forall|i: int, j: int|
        0 <= i < j < entries.len() ==> (#[trigger] entries[i]).model@ != (
        #[trigger] entries[j]).model@
}

proof fn lemma_picks(entries: Seq<ProviderOverride>)
    requires
        models_differ(entries),
    ensures
        forall|i: int|
            0 <= i < entries.len() ==> picks(entries).contains_key(
                (#[trigger] entries[i]).model@,
            ) && picks(entries)[entries[i].model@] == entries[i].provider@,
        forall|key: Seq<char>| #[trigger]
            picks(entries).contains_key(key) ==> exists|i: int|
                0 <= i < entries.len() && (#[trigger] entries[i]).model@ == key,
    decreases entries.len(),
{
    if entries.len() > 0 {
        let front = entries.drop_last();
        let n = entries.len() - 1;
        assert(models_differ(front)) by {
            assert forall|i: int, j: int| 0 <= i < j < front.len() implies (#[trigger] front[i]).model@ != (
            #[trigger] front[j]).model@ by {
                assert(entries[i].model@ != entries[j].model@);
            }
        }
        lemma_picks(front);
        assert forall|i: int| 0 <= i < entries.len() implies picks(entries).contains_key(
            (#[trigger] entries[i]).model@,
        ) && picks(entries)[entries[i].model@] == entries[i].provider@ by {
            if i < n {
                assert(front[i] == entries[i]);
                assert(entries[i].model@ != entries[n].model@);
            }
        }
        assert forall|key: Seq<char>| #[trigger] picks(entries).contains_key(key) implies exists|i: int|
            0 <= i < entries.len() && (#[trigger] entries[i]).model@ == key by {
            if key == entries[n].model@ {
                assert(entries[n].model@ == key);
            } else {
                assert(picks(front).contains_key(key));
                let i = choose|i: int| 0 <= i < front.len() && (#[trigger] front[i]).model@ == key;
                assert(entries[i].model@ == key);
            }
        }
    }
}

proof fn lemma_picks_agree(a: Seq<ProviderOverride>, m: Map<Seq<char>, Seq<char>>)
    requires
        models_differ(a),
        forall|i: int|
            0 <= i < a.len() ==> m.contains_key((#[trigger] a[i]).model@) && m[a[i].model@]
                == a[i].provider@,
        forall|key: Seq<char>| #[trigger]
            m.contains_key(key) ==> exists|i: int|
                0 <= i < a.len() && (#[trigger] a[i]).model@ == key,
    ensures
        picks(a) == m,
{
    lemma_picks(a);
    assert forall|key: Seq<char>| picks(a).contains_key(key) == m.contains_key(key) && (m.contains_key(
        key,
    ) ==> picks(a)[key] == m[key]) by {
        if picks(a).contains_key(key) {
            let i = choose|i: int| 0 <= i < a.len() && (#[trigger] a[i]).model@ == key;
            assert(a[i].model@ == key);
        }
        if m.contains_key(key) {
            let i = choose|i: int| 0 <= i < a.len() && (#[trigger] a[i]).model@ == key;
            assert(a[i].model@ == key);
        }
    }
    assert(picks(a) =~= m);
}

impl Overrides {
    /// No model occurs twice.
    pub open spec fn well_formed(self) -> bool {
        models_differ(self.entries@)
    }

    /// Nothing is picked.
    pub fn new() -> (r: Overrides)
        ensures
            r.well_formed(),
            r@ == Map::<Seq<char>, Seq<char>>::empty(),
    {
        Overrides { entries: Vec::new() }
    }

    fn position(&self, model: &str) -> (r: Option<usize>)
        requires
            self.well_formed(),
        ensures
            match r {
                Some(i) => i < self.entries@.len() && self.entries@[i as int].model@ == model@
                    && self@.contains_key(model@) && self@[model@] == self.entries@[i as int].provider@,
                None => !self@.contains_key(model@) && forall|k: int|
                    0 <= k < self.entries@.len() ==> (#[trigger] self.entries@[k]).model@ != model@,
            },
    {
        proof {
            lemma_picks(self.entries@);
        }
        let mut i: usize = 0;
        while i < self.entries.len()
            invariant
                i <= self.entries@.len(),
                forall|k: int| 0 <= k < i ==> (#[trigger] self.entries@[k]).model@ != model@,
                forall|k: int|
                    0 <= k < self.entries@.len() ==> self@.contains_key(
                        (#[trigger] self.entries@[k]).model@,
                    ) && self@[self.entries@[k].model@] == self.entries@[k].provider@,
            decreases self.entries@.len() - i,
        {
            if same(self.entries[i].model.as_str(), model) {
                return Some(i);
            }
            i += 1;
        }
        None
    }

    /// The provider that was picked for a model.
    pub fn get(&self, model: &str) -> (r: Option<&str>)
        requires
            self.well_formed(),
        ensures
            crate::text::opt_str_view(r) == (if self@.contains_key(model@) {
                Some(self@[model@])
            } else {
                None
            }),
    {
        match self.position(model) {
            Some(i) => Some(self.entries[i].provider.as_str()),
            None => None,
        }
    }

    /// Picks a provider for a model.
    pub fn insert(&mut self, model: String, provider: String)
        requires
            old(self).well_formed(),
        ensures
            final(self).well_formed(),
            final(self)@ == old(self)@.insert(model@, provider@),
    {
        let ghost before = self.entries@;
        let ghost goal = self@.insert(model@, provider@);
        let found: Option<usize> = self.position(model.as_str());
        proof {
            lemma_picks(before);
        }
        match found {
            Some(i) => {
                self.entries.set(i, ProviderOverride { model, provider });
                proof {
                    let after = self.entries@;
                    assert forall|a: int, b: int| 0 <= a < b < after.len() implies (
                    #[trigger] after[a]).model@ != (#[trigger] after[b]).model@ by {
                        assert(before[a].model@ != before[b].model@);
                    }
                    assert forall|a: int| 0 <= a < after.len() implies goal.contains_key(
                        (#[trigger] after[a]).model@,
                    ) && goal[after[a].model@] == after[a].provider@ by {
                        if a != i {
                            assert(before[a] == after[a]);
                            if a < i {
                                assert(before[a].model@ != before[i as int].model@);
                            } else {
                                assert(before[i as int].model@ != before[a].model@);
                            }
                        }
                    }
                    assert forall|key: Seq<char>| #[trigger] goal.contains_key(key) implies exists|a: int|
                        0 <= a < after.len() && (#[trigger] after[a]).model@ == key by {
                        if key == model@ {
                            assert(after[i as int].model@ == key);
                        } else {
                            let a = choose|a: int|
                                0 <= a < before.len() && (#[trigger] before[a]).model@ == key;
                            assert(after[a].model@ == key);
                        }
                    }
                    lemma_picks_agree(after, goal);
                }
            },
            None => {
                self.entries.push(ProviderOverride { model, provider });
                proof {
                    let after = self.entries@;
                    assert(after.drop_last() =~= before);
                    assert forall|a: int, b: int| 0 <= a < b < after.len() implies (
                    #[trigger] after[a]).model@ != (#[trigger] after[b]).model@ by {
                        assert(before[a] == after[a]);
                        if b < before.len() {
                            assert(before[b] == after[b]);
                        }
                    }
                }
            },
        }
    }

    /// Forgets the pick for a model.
    pub fn remove(&mut self, model: &str)
        requires
            old(self).well_formed(),
        ensures
            final(self).well_formed(),
            final(self)@ == old(self)@.remove(model@),
    {
        let ghost before = self.entries@;
        let ghost goal = self@.remove(model@);
        let found: Option<usize> = self.position(model);
        proof {
            lemma_picks(before);
        }
        if let Some(i) = found {
            self.entries.remove(i);
            proof {
                let after = self.entries@;
                let at = i as int;
                assert forall|a: int| 0 <= a < after.len() implies (#[trigger] after[a]) == (if a < at {
                    before[a]
                } else {
                    before[a + 1]
                }) by {}
                assert forall|a: int, b: int| 0 <= a < b < after.len() implies (
                #[trigger] after[a]).model@ != (#[trigger] after[b]).model@ by {
                    let p = if a < at { a } else { a + 1 };
                    let q = if b < at { b } else { b + 1 };
                    assert(before[p].model@ != before[q].model@);
                }
                assert forall|a: int| 0 <= a < after.len() implies goal.contains_key(
                    (#[trigger] after[a]).model@,
                ) && goal[after[a].model@] == after[a].provider@ by {
                    let p = if a < at { a } else { a + 1 };
                    assert(after[a] == before[p]);
                    if p < at {
                        assert(before[p].model@ != before[at].model@);
                    } else {
                        assert(before[at].model@ != before[p].model@);
                    }
                }
                assert forall|key: Seq<char>| #[trigger] goal.contains_key(key) implies exists|a: int|
                    0 <= a < after.len() && (#[trigger] after[a]).model@ == key by {
                    assert(picks(before).contains_key(key));
                    let p = choose|p: int| 0 <= p < before.len() && (#[trigger] before[p]).model@ == key;
                    let a = if p < at { p } else { p - 1 };
                    assert(after[a].model@ == key);
                }
                lemma_picks_agree(after, goal);
            }
        } else {
            assert(goal =~= picks(before));
        }
    }
}

/// What the program remembers between runs.
#[derive(Debug, Clone)]
pub struct AppConfig {
    pub api_key: Option<String>,
    pub default_model: Option<String>,
    pub provider_overrides: Overrides,
}

impl Default for AppConfig {
    fn default() -> (r: Self)
        ensures
            r.api_key is None,
            r.default_model is None,
            r.provider_overrides.well_formed(),
            r.provider_overrides@ == Map::<Seq<char>, Seq<char>>::empty(),
    {
        AppConfig { api_key: None, default_model: None, provider_overrides: Overrides::new() }
    }
}

/// The file of what is remembered, in the user's home directory.
pub fn config_path() -> (r: Result<Place, String>)
    ensures
        match r {
            Ok(place) => place.root is Home && way_to(place) == own_way("config.json"@),
            Err(e) => e@ == "failed to resolve home directory"@,
        },
{
    config_path_in(dirs::home_dir())
}

/// The file of what is remembered, in the home directory `home`.
pub fn config_path_in(home: Option<PathBuf>) -> (r: Result<Place, String>)
    ensures
        match home {
            Some(dir) => r matches Ok(place) && place.root == Root::Home(dir) && way_to(place)
                == own_way("config.json"@),
            None => r matches Err(e) && e@ == "failed to resolve home directory"@,
        },
{
    under_home(home, "config.json")
}

} // verus!
