//! The settings document: categories of key/value settings, kept in order.

use vstd::prelude::*;

use crate::text::str_eq;

verus! {

/// What a `Setting` holds.
pub struct SettingView {
    pub key: Seq<char>,
    pub value: Seq<char>,
}

/// What a `CategorySettings` holds.
pub struct CategoryView {
    pub name: Seq<char>,
    pub settings: Seq<SettingView>,
}

/// What a `WebkitSettings` holds.
pub struct DocumentView {
    pub categories: Seq<CategoryView>,
}

/// One key with its value. Consumers read the value `"true"` as on and
/// every other value as off.
#[derive(Debug, Clone, PartialEq, Eq)]
pub struct Setting {
    pub key: String,
    pub value: String,
}

/// A named group of settings.
#[derive(Debug, Clone, PartialEq, Eq)]
pub struct CategorySettings {
    pub name: String,
    pub settings: Vec<Setting>,
}

/// The whole document. The order of categories and of the settings in each
/// is part of the value.
#[derive(Debug, Clone, PartialEq, Eq)]
pub struct WebkitSettings {
    pub categories: Vec<CategorySettings>,
}

impl View for Setting {
    type V = SettingView;

    open spec fn view(&self) -> SettingView {
        SettingView { key: self.key@, value: self.value@ }
    }
}

impl View for CategorySettings {
    type V = CategoryView;

    open spec fn view(&self) -> CategoryView {
        CategoryView { name: self.name@, settings: self.settings@.map_values(|s: Setting| s@) }
    }
}

impl View for WebkitSettings {
    type V = DocumentView;

    open spec fn view(&self) -> DocumentView {
        DocumentView { categories: self.categories@.map_values(|c: CategorySettings| c@) }
    }
}

/// How a switch position is stored: `"true"` or `"false"`.
pub open spec fn token(on: bool) -> Seq<char> {
    if on {
        "true"@
    } else {
        "false"@
    }
}

/// Whether `value` is the stored form of a switch position.
pub open spec fn is_token(value: Seq<char>) -> bool {
    value == token(true) || value == token(false)
}

/// The index of the first setting of `settings` stored under `key`, or the
/// length of `settings` if there is none.
pub open spec fn first_index(settings: Seq<SettingView>, key: Seq<char>) -> int
    decreases settings.len(),
{
    if settings.len() == 0 {
        0
    } else if settings[0].key == key {
        0
    } else {
        1 + first_index(settings.skip(1), key)
    }
}

/// The index of the first category of `categories` that holds `key`, or the
/// length of `categories` if none does.
pub open spec fn first_category(categories: Seq<CategoryView>, key: Seq<char>) -> int
    decreases categories.len(),
{
    if categories.len() == 0 {
        0
    } else if categories[0].holds(key) {
        0
    } else {
        1 + first_category(categories.skip(1), key)
    }
}

/// The settings of `categories`, one category after the other.
pub open spec fn flatten(categories: Seq<CategoryView>) -> Seq<SettingView>
    decreases categories.len(),
{
    if categories.len() == 0 {
        Seq::empty()
    } else {
        flatten(categories.drop_last()) + categories.last().settings
    }
}

impl SettingView {
    /// Whether the setting is switched on: whether its value is `"true"`.
    pub open spec fn enabled(self) -> bool {
        self.value == token(true)
    }
}

impl CategoryView {
    /// Whether some setting of the category is stored under `key`.
    pub open spec fn holds(self, key: Seq<char>) -> bool {
        first_index(self.settings, key) < self.settings.len()
    }

    /// The category with `value` in its first setting under `key`; the
    /// category itself if it does not hold `key`.
    pub open spec fn set(self, key: Seq<char>, value: Seq<char>) -> CategoryView {
        if self.holds(key) {
            CategoryView {
                name: self.name,
                settings: self.settings.update(
                    first_index(self.settings, key),
                    SettingView { key, value },
                ),
            }
        } else {
            self
        }
    }
}

impl DocumentView {
    /// All settings of the document in order.
    pub open spec fn entries(self) -> Seq<SettingView> {
        flatten(self.categories)
    }

    /// Whether some setting of the document is stored under `key`.
    pub open spec fn holds(self, key: Seq<char>) -> bool {
        first_category(self.categories, key) < self.categories.len()
    }

    /// The value of the first setting under `key`, if the document holds
    /// the key.
    pub open spec fn get(self, key: Seq<char>) -> Option<Seq<char>> {
        if self.holds(key) {
            let c = self.categories[first_category(self.categories, key)];
            Some(c.settings[first_index(c.settings, key)].value)
        } else {
            None
        }
    }

    /// The document with `value` in its first setting under `key`; the
    /// document itself if it does not hold `key`.
    pub open spec fn set(self, key: Seq<char>, value: Seq<char>) -> DocumentView {
        if self.holds(key) {
            let i = first_category(self.categories, key);
            DocumentView { categories: self.categories.update(i, self.categories[i].set(key, value)) }
        } else {
            self
        }
    }

    /// No key is stored twice, in one category or in two.
    pub open spec fn keys_unique(self) -> bool {
        forall|i: int, j: int|
            0 <= i < j < self.entries().len() ==> self.entries()[i].key != self.entries()[j].key
    }

    /// No two categories share a name.
    pub open spec fn names_unique(self) -> bool {
        forall|i: int, j: int|
            0 <= i < j < self.categories.len() ==> self.categories[i].name
                != self.categories[j].name
    }

    /// Every value is `"true"` or `"false"`.
    pub open spec fn values_are_tokens(self) -> bool {
        forall|i: int| 0 <= i < self.entries().len() ==> is_token(#[trigger] self.entries()[i].value)
    }

    /// What a document is expected to satisfy. `default_settings` gives a
    /// document that does, and `set` keeps it so where the new value is
    /// `"true"` or `"false"`. A document that does not is still read and
    /// written: the first setting under a key stands for the key, and a
    /// value other than `"true"` counts as off.
    pub open spec fn wf(self) -> bool {
        self.keys_unique() && self.names_unique() && self.values_are_tokens()
    }
}

/// `first_index` is the least index under `key`.
pub proof fn lemma_first_index(settings: Seq<SettingView>, key: Seq<char>)
    ensures
        0 <= first_index(settings, key) <= settings.len(),
        first_index(settings, key) < settings.len() ==> settings[first_index(settings, key)].key
            == key,
        forall|k: int| 0 <= k < first_index(settings, key) ==> settings[k].key != key,
    decreases settings.len(),
{
    if settings.len() > 0 && settings[0].key != key {
        let rest = settings.skip(1);
        lemma_first_index(rest, key);
        assert forall|k: int| 0 <= k < first_index(settings, key) implies settings[k].key
            != key by {
            if k > 0 {
                assert(settings[k] == rest[k - 1]);
            }
        }
    }
}

/// An index under `key` with none before it is the `first_index`.
pub proof fn lemma_first_index_is(settings: Seq<SettingView>, key: Seq<char>, j: int)
    requires
        0 <= j <= settings.len(),
        j < settings.len() ==> settings[j].key == key,
        forall|k: int| 0 <= k < j ==> settings[k].key != key,
    ensures
        first_index(settings, key) == j,
{
    lemma_first_index(settings, key);
}

/// `first_category` is the least index of a category that holds `key`.
pub proof fn lemma_first_category(categories: Seq<CategoryView>, key: Seq<char>)
    ensures
        0 <= first_category(categories, key) <= categories.len(),
        first_category(categories, key) < categories.len() ==> categories[first_category(
            categories,
            key,
        )].holds(key),
        forall|k: int| 0 <= k < first_category(categories, key) ==> !categories[k].holds(key),
    decreases categories.len(),
{
    if categories.len() > 0 && !categories[0].holds(key) {
        let rest = categories.skip(1);
        lemma_first_category(rest, key);
        assert forall|k: int| 0 <= k < first_category(categories, key) implies !categories[k].holds(
            key,
        ) by {
            if k > 0 {
                assert(categories[k] == rest[k - 1]);
            }
        }
    }
}

/// An index of a category that holds `key`, with none before it, is the
/// `first_category`.
pub proof fn lemma_first_category_is(categories: Seq<CategoryView>, key: Seq<char>, i: int)
    requires
        0 <= i <= categories.len(),
        i < categories.len() ==> categories[i].holds(key),
        forall|k: int| 0 <= k < i ==> !categories[k].holds(key),
    ensures
        first_category(categories, key) == i,
{
    lemma_first_category(categories, key);
}

/// In a concatenation the first setting under `key` is the first one of
/// the left part, or else the first one of the right part.
pub proof fn lemma_first_index_concat(left: Seq<SettingView>, right: Seq<SettingView>, key: Seq<char>)
    ensures
        first_index(left + right, key) == if first_index(left, key) < left.len() {
            first_index(left, key)
        } else {
            left.len() + first_index(right, key)
        },
{
    lemma_first_index(left, key);
    lemma_first_index(right, key);
    let j = if first_index(left, key) < left.len() {
        first_index(left, key)
    } else {
        left.len() + first_index(right, key)
    };
    assert forall|k: int| 0 <= k < j implies (left + right)[k].key != key by {
        if k >= left.len() {
            assert((left + right)[k] == right[k - left.len()]);
        }
    }
    lemma_first_index_is(left + right, key, j);
}

/// With one more category at the end, the first category that holds
/// `key` is the one it was, or else the new one.
pub proof fn lemma_first_category_push(categories: Seq<CategoryView>, key: Seq<char>)
    requires
        categories.len() > 0,
    ensures
        first_category(categories, key) == if first_category(categories.drop_last(), key)
            < categories.len() - 1 {
            first_category(categories.drop_last(), key)
        } else if categories.last().holds(key) {
            categories.len() - 1
        } else {
            categories.len() as int
        },
{
    let init = categories.drop_last();
    lemma_first_category(init, key);
    let i = if first_category(init, key) < init.len() {
        first_category(init, key)
    } else if categories.last().holds(key) {
        init.len() as int
    } else {
        categories.len() as int
    };
    assert forall|k: int| 0 <= k < i implies !categories[k].holds(key) by {
        if k < init.len() {
            assert(categories[k] == init[k]);
        }
    }
    if i < init.len() {
        assert(categories[i] == init[i]);
    }
    lemma_first_category_is(categories, key, i);
}

/// Setting a value changes one setting of the document read in order: the
/// first one under the key. The document holds a key if and only if its
/// settings read in order do.
pub proof fn lemma_set_entries(doc: DocumentView, key: Seq<char>, value: Seq<char>)
    ensures
        doc.holds(key) <==> first_index(doc.entries(), key) < doc.entries().len(),
        doc.set(key, value).entries() == if doc.holds(key) {
            doc.entries().update(first_index(doc.entries(), key), SettingView { key, value })
        } else {
            doc.entries()
        },
    decreases doc.categories.len(),
{
    let cats = doc.categories;
    if cats.len() > 0 {
        let init = cats.drop_last();
        let last = cats.last();
        let head = DocumentView { categories: init };
        lemma_set_entries(head, key, value);
        lemma_first_category_push(cats, key);
        lemma_first_category(init, key);
        lemma_first_index(flatten(init), key);
        lemma_first_index(last.settings, key);
        lemma_first_index_concat(flatten(init), last.settings, key);
        let entry = SettingView { key, value };
        if head.holds(key) {
            let i = first_category(init, key);
            let changed = cats.update(i, cats[i].set(key, value));
            assert(cats[i] == init[i]);
            assert(changed.drop_last() =~= init.update(i, init[i].set(key, value)));
            assert(changed.last() == last);
            assert(doc.set(key, value).entries() =~= doc.entries().update(
                first_index(doc.entries(), key),
                entry,
            ));
        } else if last.holds(key) {
            let i = cats.len() - 1;
            let changed = cats.update(i, last.set(key, value));
            assert(changed.drop_last() =~= init);
            assert(changed.last() == last.set(key, value));
            assert(doc.set(key, value).entries() =~= doc.entries().update(
                first_index(doc.entries(), key),
                entry,
            ));
        }
    }
}

/// Setting `"true"` or `"false"` keeps a well-formed document well formed.
pub proof fn lemma_set_keeps_wf(doc: DocumentView, key: Seq<char>, value: Seq<char>)
    ensures
        doc.wf() && is_token(value) ==> doc.set(key, value).wf(),
{
    lemma_set_entries(doc, key, value);
    lemma_first_index(doc.entries(), key);
    lemma_first_category(doc.categories, key);
}

/// After a value was set under a key that the document holds, the key
/// reads as that value.
pub proof fn lemma_set_then_get(doc: DocumentView, key: Seq<char>, value: Seq<char>)
    ensures
        doc.set(key, value).holds(key) == doc.holds(key),
        doc.holds(key) ==> doc.set(key, value).get(key) == Some(value),
{
    if doc.holds(key) {
        lemma_first_category(doc.categories, key);
        let i = first_category(doc.categories, key);
        let was = doc.categories[i];
        let now = was.set(key, value);
        lemma_first_index(was.settings, key);
        let j = first_index(was.settings, key);
        lemma_first_index_is(now.settings, key, j);
        lemma_first_category_is(doc.set(key, value).categories, key, i);
    }
}

/// The stored form of a switch position.
pub fn switch_value(on: bool) -> (value: String)
    ensures
        value@ == token(on),
{
    if on {
        "true".to_owned()
    } else {
        "false".to_owned()
    }
}

impl Setting {
    /// Whether the setting is switched on.
    pub fn is_enabled(&self) -> (on: bool)
        ensures
            on == self@.enabled(),
    {
        str_eq(self.value.as_str(), "true")
    }
}

impl WebkitSettings {
    /// The value of the first setting stored under `key`, if there is one.
    pub fn get(&self, key: &str) -> (value: Option<&String>)
        ensures
            match value {
                Some(text) => self@.get(key@) == Some(text@),
                None => self@.get(key@) is None,
            },
    {
        let mut i: usize = 0;
        while i < self.categories.len()
            invariant
                i <= self.categories.len(),
                forall|k: int| 0 <= k < i ==> !self@.categories[k].holds(key@),
            decreases self.categories.len() - i,
        {
            let category = &self.categories[i];
            let mut j: usize = 0;
            while j < category.settings.len()
                invariant
                    i < self.categories.len(),
                    *category == self.categories[i as int],
                    j <= category.settings.len(),
                    forall|k: int| 0 <= k < i ==> !self@.categories[k].holds(key@),
                    forall|k: int| 0 <= k < j ==> category@.settings[k].key != key@,
                decreases category.settings.len() - j,
            {
                if str_eq(category.settings[j].key.as_str(), key) {
                    proof {
                        lemma_first_index_is(category@.settings, key@, j as int);
                        lemma_first_category_is(self@.categories, key@, i as int);
                    }
                    return Some(&category.settings[j].value);
                }
                j += 1;
            }
            proof {
                lemma_first_index_is(category@.settings, key@, j as int);
            }
            i += 1;
        }
        proof {
            lemma_first_category_is(self@.categories, key@, i as int);
        }
        None
    }

    /// Overwrites the value of the first setting stored under `key`. Does
    /// nothing if the document does not hold `key`.
    pub fn set(&mut self, key: &str, value: String)
        ensures
            final(self)@ == old(self)@.set(key@, value@),
            old(self)@.wf() && is_token(value@) ==> final(self)@.wf(),
    {
        let mut i: usize = 0;
        while i < self.categories.len()
            invariant
                i <= self.categories.len(),
                *self == *old(self),
                forall|k: int| 0 <= k < i ==> !self@.categories[k].holds(key@),
            decreases self.categories.len() - i,
        {
            let mut j: usize = 0;
            while j < self.categories[i].settings.len()
                invariant
                    i < self.categories.len(),
                    j <= self.categories[i as int].settings.len(),
                    *self == *old(self),
                    forall|k: int| 0 <= k < i ==> !self@.categories[k].holds(key@),
                    forall|k: int| 0 <= k < j ==> self@.categories[i as int].settings[k].key != key@,
                decreases self.categories[i as int].settings.len() - j,
            {
                if str_eq(self.categories[i].settings[j].key.as_str(), key) {
                    proof {
                        lemma_first_index_is(self@.categories[i as int].settings, key@, j as int);
                        lemma_first_category_is(self@.categories, key@, i as int);
                    }
                    let ghost text = value@;
                    self.categories[i].settings[j].value = value;
                    proof {
                        let was = old(self).categories@[i as int];
                        let now = self.categories@[i as int];
                        assert(now@.settings =~= was@.set(key@, text).settings);
                        assert(self@.categories =~= old(self)@.set(key@, text).categories);
                        lemma_set_keeps_wf(old(self)@, key@, text);
                    }
                    return ;
                }
                j += 1;
            }
            proof {
                lemma_first_index_is(self@.categories[i as int].settings, key@, j as int);
            }
            i += 1;
        }
        proof {
            lemma_first_category_is(self@.categories, key@, i as int);
        }
    }
}

} // verus!
