//! The engine's configuration surface as the library sees it, and the
//! projection of a settings document onto it.

use vstd::prelude::*;

use crate::setting::{
    first_index, flatten, lemma_first_index, lemma_set_entries, CategoryView, DocumentView,
    SettingView, WebkitSettings,
};
use crate::toggle::{
    lemma_index_injective, lemma_of_key_round_trip, lemma_of_key_sound, Toggle, TOGGLE_COUNT,
};

verus! {

/// The positions that the toggles of an engine were given. A toggle that
/// was never set is absent: the engine keeps its own default for it.
#[derive(Debug, PartialEq, Eq)]
pub struct EngineSettings {
    flags: Vec<Option<bool>>,
}

/// An engine view that settings are applied to. A view can be without a
/// settings object; applying to such a view changes nothing.
#[derive(Debug, PartialEq, Eq)]
pub struct EngineTarget {
    pub settings: Option<EngineSettings>,
}

impl View for EngineSettings {
    type V = Map<Toggle, bool>;

    closed spec fn view(&self) -> Map<Toggle, bool> {
        Map::new(
            |t: Toggle| self.flags@[t.spec_index()] is Some,
            |t: Toggle| self.flags@[t.spec_index()]->0,
        )
    }
}

impl EngineSettings {
    #[verifier::type_invariant]
    spec fn one_flag_per_toggle(self) -> bool {
        self.flags@.len() == TOGGLE_COUNT
    }

    /// Settings in which no toggle was set.
    pub fn new() -> (fresh: EngineSettings)
        ensures
            fresh@ == Map::<Toggle, bool>::empty(),
    {
        let mut flags: Vec<Option<bool>> = Vec::new();
        while flags.len() < TOGGLE_COUNT
            invariant
                flags@.len() <= TOGGLE_COUNT,
                forall|k: int| 0 <= k < flags@.len() ==> flags@[k] is None,
            decreases TOGGLE_COUNT - flags@.len(),
        {
            flags.push(None);
        }
        let fresh = EngineSettings { flags };
        assert(fresh@ =~= Map::<Toggle, bool>::empty());
        fresh
    }

    /// The position that `toggle` was given, if it was set.
    pub fn get(&self, toggle: Toggle) -> (position: Option<bool>)
        ensures
            position == (if self@.contains_key(toggle) {
                Some(self@[toggle])
            } else {
                None
            }),
    {
        proof {
            use_type_invariant(self);
        }
        self.flags[toggle.index()]
    }

    /// Gives `toggle` the position `on`.
    pub fn set(&mut self, toggle: Toggle, on: bool)
        ensures
            final(self)@ == old(self)@.insert(toggle, on),
    {
        proof {
            use_type_invariant(&*self);
        }
        self.flags[toggle.index()] = Some(on);
        proof {
            assert forall|t: Toggle| t != toggle implies t.spec_index()
                != toggle.spec_index() by {
                if t.spec_index() == toggle.spec_index() {
                    lemma_index_injective(t, toggle);
                }
            }
            assert(self@ =~= old(self)@.insert(toggle, on));
        }
    }
}

/// The configuration after `entry` was applied to `config`: the toggle of
/// its key takes its position; a key of no toggle changes nothing.
pub open spec fn apply_entry(config: Map<Toggle, bool>, entry: SettingView) -> Map<Toggle, bool> {
    match Toggle::of_key(entry.key) {
        Some(toggle) => config.insert(toggle, entry.enabled()),
        None => config,
    }
}

/// The configuration after `entries` were applied to `config` in order.
pub open spec fn apply_entries(config: Map<Toggle, bool>, entries: Seq<SettingView>) -> Map<
    Toggle,
    bool,
>
    decreases entries.len(),
{
    if entries.len() == 0 {
        config
    } else {
        apply_entry(apply_entries(config, entries.drop_last()), entries.last())
    }
}

/// The keys of `entries` that belong to no toggle, in order.
pub open spec fn unknown_keys(entries: Seq<SettingView>) -> Seq<Seq<char>>
    decreases entries.len(),
{
    if entries.len() == 0 {
        Seq::empty()
    } else if Toggle::of_key(entries.last().key) is None {
        unknown_keys(entries.drop_last()).push(entries.last().key)
    } else {
        unknown_keys(entries.drop_last())
    }
}

/// Settings whose keys all belong to toggles leave no unknown key.
pub proof fn lemma_no_unknown_keys(entries: Seq<SettingView>)
    requires
        forall|k: int| 0 <= k < entries.len() ==> Toggle::of_key(#[trigger] entries[k].key) is Some,
    ensures
        unknown_keys(entries) == Seq::<Seq<char>>::empty(),
    decreases entries.len(),
{
    if entries.len() > 0 {
        assert forall|k: int| 0 <= k < entries.len() - 1 implies Toggle::of_key(
            #[trigger] entries.drop_last()[k].key,
        ) is Some by {
            assert(entries.drop_last()[k] == entries[k]);
        }
        lemma_no_unknown_keys(entries.drop_last());
        assert(Toggle::of_key(entries[entries.len() - 1].key) is Some);
    }
}

/// The position that the last setting of `entries` for `toggle` gives it,
/// if any setting of `entries` is stored under the key of `toggle`.
pub open spec fn last_position(entries: Seq<SettingView>, toggle: Toggle) -> Option<bool>
    decreases entries.len(),
{
    if entries.len() == 0 {
        None
    } else if Toggle::of_key(entries.last().key) == Some(toggle) {
        Some(entries.last().enabled())
    } else {
        last_position(entries.drop_last(), toggle)
    }
}

/// Applying settings gives a toggle the position of the last setting for
/// it, and leaves a toggle without a setting as it was.
pub proof fn lemma_apply_entries(
    config: Map<Toggle, bool>,
    entries: Seq<SettingView>,
    toggle: Toggle,
)
    ensures
        apply_entries(config, entries).contains_key(toggle) <==> last_position(entries, toggle)
            is Some || config.contains_key(toggle),
        last_position(entries, toggle) matches Some(on) ==> apply_entries(config, entries)[toggle]
            == on,
        last_position(entries, toggle) is None && config.contains_key(toggle) ==> apply_entries(
            config,
            entries,
        )[toggle] == config[toggle],
    decreases entries.len(),
{
    if entries.len() > 0 {
        lemma_apply_entries(config, entries.drop_last(), toggle);
    }
}

/// Applying the same settings a second time changes nothing.
pub proof fn lemma_apply_idempotent(config: Map<Toggle, bool>, entries: Seq<SettingView>)
    ensures
        apply_entries(apply_entries(config, entries), entries) == apply_entries(config, entries),
{
    let once = apply_entries(config, entries);
    let twice = apply_entries(once, entries);
    assert forall|t: Toggle| #[trigger]
        twice.dom().contains(t) == once.dom().contains(t) && (once.dom().contains(t) ==> twice[t]
            == once[t]) by {
        lemma_apply_entries(config, entries, t);
        lemma_apply_entries(once, entries, t);
    }
    assert(twice =~= once);
}

/// Where the key of `toggle` is stored at `at` and nowhere else, the
/// setting at `at` decides the position of `toggle`.
pub proof fn lemma_last_position_single(entries: Seq<SettingView>, toggle: Toggle, at: int)
    requires
        0 <= at < entries.len(),
        entries[at].key == toggle.spec_key(),
        forall|k: int| 0 <= k < entries.len() && k != at ==> entries[k].key != toggle.spec_key(),
    ensures
        last_position(entries, toggle) == Some(entries[at].enabled()),
    decreases entries.len(),
{
    lemma_of_key_round_trip(toggle);
    if at < entries.len() - 1 {
        let init = entries.drop_last();
        if Toggle::of_key(entries.last().key) == Some(toggle) {
            lemma_of_key_sound(entries.last().key, toggle);
        }
        lemma_last_position_single(init, toggle, at);
    }
}

/// After `value` was set under the key of `toggle`, in a document that
/// stores that key once, applying the document gives the toggle the
/// position that `value` stands for.
pub proof fn lemma_set_then_apply(
    config: Map<Toggle, bool>,
    doc: DocumentView,
    toggle: Toggle,
    value: Seq<char>,
)
    requires
        doc.holds(toggle.spec_key()),
        forall|k: int|
            0 <= k < doc.entries().len() && k != first_index(doc.entries(), toggle.spec_key())
                ==> doc.entries()[k].key != toggle.spec_key(),
    ensures
        apply_entries(config, doc.set(toggle.spec_key(), value).entries()).contains_key(toggle),
        apply_entries(config, doc.set(toggle.spec_key(), value).entries())[toggle] == (value
            == "true"@),
{
    let key = toggle.spec_key();
    let after = doc.set(key, value).entries();
    let at = first_index(doc.entries(), key);
    lemma_set_entries(doc, key, value);
    lemma_first_index(doc.entries(), key);
    lemma_last_position_single(after, toggle, at);
    lemma_apply_entries(config, after, toggle);
}

/// The texts of `keys`.
pub open spec fn texts(keys: Seq<String>) -> Seq<Seq<char>> {
    keys.map_values(|key: String| key@)
}

/// The settings of the first `i` categories followed by the first `j`
/// settings of the next one.
spec fn walked(categories: Seq<CategoryView>, i: int, j: int) -> Seq<SettingView> {
    flatten(categories.take(i)) + categories[i].settings.take(j)
}

proof fn lemma_walked_step(categories: Seq<CategoryView>, i: int, j: int)
    requires
        0 <= i < categories.len(),
        0 <= j < categories[i].settings.len(),
    ensures
        walked(categories, i, j + 1) == walked(categories, i, j).push(categories[i].settings[j]),
        walked(categories, i, j + 1).drop_last() == walked(categories, i, j),
{
    let s = categories[i].settings;
    assert(s.take(j + 1) =~= s.take(j).push(s[j]));
    assert(walked(categories, i, j + 1) =~= walked(categories, i, j).push(s[j]));
    assert(walked(categories, i, j).push(s[j]).drop_last() =~= walked(categories, i, j));
}

proof fn lemma_walked_category(categories: Seq<CategoryView>, i: int)
    requires
        0 <= i < categories.len(),
    ensures
        walked(categories, i, 0) == flatten(categories.take(i)),
        walked(categories, i, categories[i].settings.len() as int) == flatten(
            categories.take(i + 1),
        ),
{
    let s = categories[i].settings;
    assert(s.take(0) =~= Seq::<SettingView>::empty());
    assert(walked(categories, i, 0) =~= flatten(categories.take(i)));
    assert(s.take(s.len() as int) =~= s);
    assert(categories.take(i + 1).drop_last() =~= categories.take(i));
    assert(categories.take(i + 1).last() == categories[i]);
}

/// Applies every setting of the document, in order, to the settings object
/// of `target`, and returns the keys that belong to no toggle. Without a
/// settings object nothing is applied and nothing returned.
pub fn apply_settings(target: &mut EngineTarget, settings: &WebkitSettings) -> (unknown: Vec<
    String,
>)
    ensures
        match old(target).settings {
            Some(before) => {
                &&& final(target).settings matches Some(after)
                &&& after@ == apply_entries(before@, settings@.entries())
                &&& texts(unknown@) == unknown_keys(settings@.entries())
            },
            None => final(target).settings is None && unknown@.len() == 0,
        },
{
    let mut unknown: Vec<String> = Vec::new();
    match target.settings.take() {
        None => {},
        Some(mut config) => {
            let ghost before = config@;
            let ghost cats = settings@.categories;
            let mut i: usize = 0;
            assert(cats.take(0) =~= Seq::<CategoryView>::empty());
            while i < settings.categories.len()
                invariant
                    i <= settings.categories.len(),
                    cats == settings@.categories,
                    config@ == apply_entries(before, flatten(cats.take(i as int))),
                    texts(unknown@) == unknown_keys(flatten(cats.take(i as int))),
                decreases settings.categories.len() - i,
            {
                let category = &settings.categories[i];
                let mut j: usize = 0;
                proof {
                    lemma_walked_category(cats, i as int);
                }
                while j < category.settings.len()
                    invariant
                        i < settings.categories.len(),
                        j <= category.settings.len(),
                        cats == settings@.categories,
                        *category == settings.categories[i as int],
                        config@ == apply_entries(before, walked(cats, i as int, j as int)),
                        texts(unknown@) == unknown_keys(walked(cats, i as int, j as int)),
                    decreases category.settings.len() - j,
                {
                    let setting = &category.settings[j];
                    proof {
                        lemma_walked_step(cats, i as int, j as int);
                        assert(cats[i as int].settings[j as int] == setting@);
                    }
                    match Toggle::from_key(setting.key.as_str()) {
                        Some(toggle) => {
                            config.set(toggle, setting.is_enabled());
                        },
                        None => {
                            let ghost known = texts(unknown@);
                            unknown.push(setting.key.clone());
                            assert(texts(unknown@) =~= known.push(setting.key@));
                        },
                    }
                    j += 1;
                }
                proof {
                    lemma_walked_category(cats, i as int);
                }
                i += 1;
            }
            assert(cats.take(i as int) =~= cats);
            target.settings = Some(config);
        },
    }
    unknown
}

} // verus!
