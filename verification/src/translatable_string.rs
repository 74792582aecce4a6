//! Text that is given once for each locale.
use vstd::prelude::*;
use crate::element::{markup_in, Element};
use crate::string_map::{lemma_same_map, StringMap};
use crate::views::{lemma_views_push, lemma_views_take, views};
use crate::model::{lemma_same_attribute, lemma_same_markup_in, lemma_same_text};

verus! {

/// The key under which text without a locale is kept.
pub const DEFAULT_LOCALE: &'static str = "C";

/// The key of a locale: the locale itself, or the reserved key where none is
/// given.
pub open spec fn locale_key(locale: Option<Seq<char>>) -> Seq<char> {
    match locale {
        Some(l) => l,
        None => DEFAULT_LOCALE@,
    }
}

/// The key under which the text of `element` is kept: its `lang` attribute, or
/// the reserved key.
pub open spec fn element_locale(element: Element) -> Seq<char> {
    locale_key(element.spec_attribute("lang"@))
}

/// The text of `element`, empty where it has none.
pub open spec fn element_text(element: Element) -> Seq<char> {
    match element.spec_text() {
        Some(t) => t,
        None => Seq::empty(),
    }
}

/// The map of the texts of `elements`, each under its key; of two elements
/// with one key the later one counts.
pub open spec fn collected_texts(elements: Seq<Element>) -> Map<Seq<char>, Seq<char>>
    decreases elements.len(),
{
    if elements.len() == 0 {
        Map::empty()
    } else {
        collected_texts(elements.drop_last()).insert(
            element_locale(elements.last()),
            element_text(elements.last()),
        )
    }
}

/// Elements whose keys differ from one another give a map with one entry for
/// each of them: the text of the element, under its key. An element without a
/// `lang` attribute counts under the reserved key.
pub proof fn lemma_distinct_locales_collected(elements: Seq<Element>)
    requires
        forall|i: int, j: int|
            0 <= i < j < elements.len() ==> element_locale(elements[i]) != element_locale(
                elements[j],
            ),
    ensures
        collected_texts(elements).dom().finite(),
        collected_texts(elements).dom().len() == elements.len(),
        forall|i: int|
            0 <= i < elements.len() ==> collected_texts(elements).dom().contains(
                #[trigger] element_locale(elements[i]),
            ) && collected_texts(elements)[element_locale(elements[i])] == element_text(
                elements[i],
            ),
        forall|k: Seq<char>| #[trigger]
            collected_texts(elements).dom().contains(k) ==> exists|i: int|
                0 <= i < elements.len() && #[trigger] element_locale(elements[i]) == k,
    decreases elements.len(),
{
    if elements.len() > 0 {
        let front = elements.drop_last();
        let last = elements.last();
        assert forall|i: int, j: int| 0 <= i < j < front.len() implies element_locale(front[i])
            != element_locale(front[j]) by {
            assert(front[i] == elements[i] && front[j] == elements[j]);
        }
        lemma_distinct_locales_collected(front);
        let m = collected_texts(front);
        assert(!m.dom().contains(element_locale(last))) by {
            if m.dom().contains(element_locale(last)) {
                let i = choose|i: int|
                    0 <= i < front.len() && #[trigger] element_locale(front[i]) == element_locale(
                        last,
                    );
                assert(front[i] == elements[i]);
                assert(elements[elements.len() - 1] == last);
            }
        }
        assert forall|i: int| 0 <= i < elements.len() implies collected_texts(
            elements,
        ).dom().contains(#[trigger] element_locale(elements[i])) && collected_texts(
            elements,
        )[element_locale(elements[i])] == element_text(elements[i]) by {
            if i < front.len() {
                assert(front[i] == elements[i]);
                assert(m.dom().contains(element_locale(front[i])));
            }
        }
        assert forall|k: Seq<char>| #[trigger]
            collected_texts(elements).dom().contains(k) implies exists|i: int|
            0 <= i < elements.len() && #[trigger] element_locale(elements[i]) == k by {
            if k == element_locale(last) {
                assert(element_locale(elements[elements.len() - 1]) == k);
            } else {
                let i = choose|i: int|
                    0 <= i < front.len() && #[trigger] element_locale(front[i]) == k;
                assert(front[i] == elements[i]);
                assert(element_locale(elements[i]) == k);
            }
        }
    }
}

/// A map with the views of the strings that `m` holds.
pub open spec fn string_views(m: Map<Seq<char>, String>) -> Map<Seq<char>, Seq<char>> {
    Map::new(|k: Seq<char>| m.dom().contains(k), |k: Seq<char>| m[k]@)
}

/// A map with the views of the lists of strings that `m` holds.
pub open spec fn list_views(m: Map<Seq<char>, Vec<String>>) -> Map<Seq<char>, Seq<Seq<char>>> {
    Map::new(|k: Seq<char>| m.dom().contains(k), |k: Seq<char>| views(m[k]@))
}

/// The map `m` with `text` after the list under `key`, which is empty where
/// the map has none.
pub open spec fn list_added(
    m: Map<Seq<char>, Seq<Seq<char>>>,
    key: Seq<char>,
    text: Seq<char>,
) -> Map<Seq<char>, Seq<Seq<char>>> {
    m.insert(
        key,
        (if m.dom().contains(key) {
            m[key]
        } else {
            Seq::empty()
        }).push(text),
    )
}

/// The map `m` with each of `words` added in turn under `key`.
pub open spec fn list_added_all(
    m: Map<Seq<char>, Seq<Seq<char>>>,
    key: Seq<char>,
    words: Seq<Seq<char>>,
) -> Map<Seq<char>, Seq<Seq<char>>>
    decreases words.len(),
{
    if words.len() == 0 {
        m
    } else {
        list_added(list_added_all(m, key, words.drop_last()), key, words.last())
    }
}

/// Words added in turn under one key stand, in their order, after the list
/// that was under the key; no words change nothing.
pub proof fn lemma_list_added_all(
    m: Map<Seq<char>, Seq<Seq<char>>>,
    key: Seq<char>,
    words: Seq<Seq<char>>,
)
    ensures
        list_added_all(m, key, words) == if words.len() == 0 {
            m
        } else {
            m.insert(
                key,
                (if m.dom().contains(key) {
                    m[key]
                } else {
                    Seq::empty()
                }) + words,
            )
        },
    decreases words.len(),
{
    if words.len() > 0 {
        let front = words.drop_last();
        lemma_list_added_all(m, key, front);
        let start = if m.dom().contains(key) {
            m[key]
        } else {
            Seq::empty()
        };
        assert((start + front).push(words.last()) =~= start + words);
        if front.len() == 0 {
            assert(start.push(words.last()) =~= start + words);
        }
        assert(list_added_all(m, key, words) =~= m.insert(key, start + words));
    }
}

/// A translatable string: one text for each locale.
#[derive(Clone, Debug, PartialEq)]
pub struct TranslatableString(StringMap<String>);

impl View for TranslatableString {
    type V = Map<Seq<char>, Seq<char>>;

    closed spec fn view(&self) -> Map<Seq<char>, Seq<char>> {
        string_views(self.0@)
    }
}

impl Default for TranslatableString {
    fn default() -> (r: Self)
        ensures
            r@ == Map::<Seq<char>, Seq<char>>::empty(),
    {
        let r = TranslatableString(StringMap::new());
        assert(r@ =~= Map::<Seq<char>, Seq<char>>::empty());
        r
    }
}

impl TranslatableString {
    /// Create a new `TranslatableString` using the default locale.
    pub fn with_default(text: &str) -> (r: Self)
        ensures
            r@ == Map::<Seq<char>, Seq<char>>::empty().insert(DEFAULT_LOCALE@, text@),
    {
        let mut t = TranslatableString::default();
        t.add_for_locale(None, text);
        t
    }

    /// Adds a new translation for a specific locale.
    pub fn and_locale(self, locale: &str, text: &str) -> (r: Self)
        ensures
            r@ == self@.insert(locale@, text@),
    {
        let mut t = self;
        t.add_for_locale(Some(locale), text);
        t
    }

    /// Adds the text of `element` under its `lang` attribute, or under the
    /// default locale where it has none. An element without text counts as
    /// empty text.
    pub fn add_for_element(&mut self, element: &Element)
        ensures
            final(self)@ == old(self)@.insert(element_locale(*element), element_text(*element)),
    {
        let text = match element.get_text() {
            Some(t) => t,
            None => String::new(),
        };
        match element.attribute("lang") {
            Some(l) => self.add_for_locale(Some(l.as_str()), text.as_str()),
            None => self.add_for_locale(None, text.as_str()),
        }
    }

    /// Adds a new translation for a specific locale; the default locale is
    /// used where `locale` is `None`.
    pub fn add_for_locale(&mut self, locale: Option<&str>, text: &str)
        ensures
            final(self)@ == old(self)@.insert(
                locale_key(
                    match locale {
                        Some(l) => Some(l@),
                        None => None,
                    },
                ),
                text@,
            ),
    {
        let key = match locale {
            Some(l) => l.to_owned(),
            None => DEFAULT_LOCALE.to_owned(),
        };
        let ghost before = self.0@;
        let value = text.to_owned();
        self.0.insert(key, value);
        proof {
            lemma_same_map(self@, string_views(before).insert(key@, text@));
        }
    }

    /// Returns the text corresponding to the default locale `C`.
    pub fn get_default(&self) -> (r: Option<&String>)
        ensures
            match r {
                Some(t) => self@.dom().contains(DEFAULT_LOCALE@) && self@[DEFAULT_LOCALE@] == t@,
                None => !self@.dom().contains(DEFAULT_LOCALE@),
            },
    {
        self.0.get(DEFAULT_LOCALE)
    }

    /// Retrieve the corresponding text for a specific locale if available.
    pub fn get_for_locale(&self, locale: &str) -> (r: Option<&String>)
        ensures
            match r {
                Some(t) => self@.dom().contains(locale@) && self@[locale@] == t@,
                None => !self@.dom().contains(locale@),
            },
    {
        self.0.get(locale)
    }

    /// Whether `self` contains any translatable strings.
    pub fn is_empty(&self) -> (r: bool)
        ensures
            r == (self@ == Map::<Seq<char>, Seq<char>>::empty()),
    {
        let r = self.0.is_empty();
        proof {
            if r {
                assert(self@ =~= Map::<Seq<char>, Seq<char>>::empty());
            } else {
                assert(self.0@.dom() =~= self@.dom());
            }
        }
        r
    }

    /// The number of locales that have a text.
    pub fn len(&self) -> (r: usize)
        ensures
            self@.dom().finite(),
            r == self@.dom().len(),
    {
        let r = self.0.len();
        proof {
            assert(self.0@.dom() =~= self@.dom());
        }
        r
    }
}

/// A translatable string that can hold markup: one text for each locale.
#[derive(Clone, Debug, PartialEq)]
pub struct MarkupTranslatableString(StringMap<String>);

impl View for MarkupTranslatableString {
    type V = Map<Seq<char>, Seq<char>>;

    closed spec fn view(&self) -> Map<Seq<char>, Seq<char>> {
        string_views(self.0@)
    }
}

impl Default for MarkupTranslatableString {
    fn default() -> (r: Self)
        ensures
            r@ == Map::<Seq<char>, Seq<char>>::empty(),
    {
        let r = MarkupTranslatableString(StringMap::new());
        assert(r@ =~= Map::<Seq<char>, Seq<char>>::empty());
        r
    }
}

impl MarkupTranslatableString {
    /// Create a new `MarkupTranslatableString` using the default locale.
    pub fn with_default(text: &str) -> (r: Self)
        ensures
            r@ == Map::<Seq<char>, Seq<char>>::empty().insert(DEFAULT_LOCALE@, text@),
    {
        let mut t = MarkupTranslatableString::default();
        t.add_for_locale(None, text);
        t
    }

    /// Adds a new translation for a specific locale.
    pub fn and_locale(self, locale: &str, text: &str) -> (r: Self)
        ensures
            r@ == self@.insert(locale@, text@),
    {
        let mut t = self;
        t.add_for_locale(Some(locale), text);
        t
    }

    /// Adds the content of `element` under its `lang` attribute, or under the
    /// default locale where it has none. The content keeps the tags of nested
    /// elements as markup.
    pub fn add_for_element(&mut self, element: &Element)
        ensures
            final(self)@ == old(self)@.insert(
                element_locale(*element),
                markup_in(element.children@),
            ),
    {
        let text = element.inner_markup();
        match element.attribute("lang") {
            Some(l) => self.add_for_locale(Some(l.as_str()), text.as_str()),
            None => self.add_for_locale(None, text.as_str()),
        }
    }

    /// Adds a new translation for a specific locale; the default locale is
    /// used where `locale` is `None`.
    pub fn add_for_locale(&mut self, locale: Option<&str>, text: &str)
        ensures
            final(self)@ == old(self)@.insert(
                locale_key(
                    match locale {
                        Some(l) => Some(l@),
                        None => None,
                    },
                ),
                text@,
            ),
    {
        let key = match locale {
            Some(l) => l.to_owned(),
            None => DEFAULT_LOCALE.to_owned(),
        };
        let ghost before = self.0@;
        let value = text.to_owned();
        self.0.insert(key, value);
        proof {
            lemma_same_map(self@, string_views(before).insert(key@, text@));
        }
    }

    /// Returns the text corresponding to the default locale `C`.
    pub fn get_default(&self) -> (r: Option<&String>)
        ensures
            match r {
                Some(t) => self@.dom().contains(DEFAULT_LOCALE@) && self@[DEFAULT_LOCALE@] == t@,
                None => !self@.dom().contains(DEFAULT_LOCALE@),
            },
    {
        self.0.get(DEFAULT_LOCALE)
    }

    /// Retrieve the corresponding text for a specific locale if available.
    pub fn get_for_locale(&self, locale: &str) -> (r: Option<&String>)
        ensures
            match r {
                Some(t) => self@.dom().contains(locale@) && self@[locale@] == t@,
                None => !self@.dom().contains(locale@),
            },
    {
        self.0.get(locale)
    }

    /// Whether `self` contains any translatable strings.
    pub fn is_empty(&self) -> (r: bool)
        ensures
            r == (self@ == Map::<Seq<char>, Seq<char>>::empty()),
    {
        let r = self.0.is_empty();
        proof {
            if r {
                assert(self@ =~= Map::<Seq<char>, Seq<char>>::empty());
            } else {
                assert(self.0@.dom() =~= self@.dom());
            }
        }
        r
    }

    /// The number of locales that have a text.
    pub fn len(&self) -> (r: usize)
        ensures
            self@.dom().finite(),
            r == self@.dom().len(),
    {
        let r = self.0.len();
        proof {
            assert(self.0@.dom() =~= self@.dom());
        }
        r
    }
}


/// A list of strings for each locale.
#[derive(Clone, Debug, PartialEq)]
pub struct TranslatableList(StringMap<Vec<String>>);

impl View for TranslatableList {
    type V = Map<Seq<char>, Seq<Seq<char>>>;

    closed spec fn view(&self) -> Map<Seq<char>, Seq<Seq<char>>> {
        list_views(self.0@)
    }
}

impl Default for TranslatableList {
    fn default() -> (r: Self)
        ensures
            r@ == Map::<Seq<char>, Seq<Seq<char>>>::empty(),
    {
        let r = TranslatableList(StringMap::new());
        assert(r@ =~= Map::<Seq<char>, Seq<Seq<char>>>::empty());
        r
    }
}

impl TranslatableList {
    /// Create a new `TranslatableList` using the default locale.
    pub fn with_default(words: Vec<&str>) -> (r: Self)
        ensures
            r@ == list_added_all(Map::empty(), DEFAULT_LOCALE@, views(words@)),
            r@ == if words@.len() == 0 {
                Map::<Seq<char>, Seq<Seq<char>>>::empty()
            } else {
                Map::<Seq<char>, Seq<Seq<char>>>::empty().insert(DEFAULT_LOCALE@, views(words@))
            },
    {
        proof {
            lemma_list_added_all(Map::empty(), DEFAULT_LOCALE@, views(words@));
            assert(Seq::<Seq<char>>::empty() + views(words@) =~= views(words@));
        }
        let mut t = TranslatableList::default();
        let mut i: usize = 0;
        proof {
            assert(views(words@).take(0) =~= Seq::<Seq<char>>::empty());
        }
        while i < words.len()
            invariant
                i <= words@.len(),
                t@ == list_added_all(Map::empty(), DEFAULT_LOCALE@, views(words@).take(i as int)),
            decreases words@.len() - i,
        {
            proof {
                lemma_views_take(words@, i as int);
                assert(views(words@).take(i + 1).drop_last() =~= views(words@).take(i as int));
            }
            t.add_for_locale(None, words[i]);
            i += 1;
        }
        proof {
            assert(views(words@).take(i as int) =~= views(words@));
        }
        t
    }

    /// Adds a list of strings for a specific locale, after those that the
    /// locale has.
    pub fn and_locale(self, locale: &str, words: Vec<&str>) -> (r: Self)
        ensures
            r@ == list_added_all(self@, locale@, views(words@)),
            r@ == if words@.len() == 0 {
                self@
            } else {
                self@.insert(
                    locale@,
                    (if self@.dom().contains(locale@) {
                        self@[locale@]
                    } else {
                        Seq::empty()
                    }) + views(words@),
                )
            },
    {
        proof {
            lemma_list_added_all(self@, locale@, views(words@));
        }
        let mut t = self;
        let mut i: usize = 0;
        proof {
            assert(views(words@).take(0) =~= Seq::<Seq<char>>::empty());
        }
        while i < words.len()
            invariant
                i <= words@.len(),
                t@ == list_added_all(self@, locale@, views(words@).take(i as int)),
            decreases words@.len() - i,
        {
            proof {
                lemma_views_take(words@, i as int);
                assert(views(words@).take(i + 1).drop_last() =~= views(words@).take(i as int));
            }
            t.add_for_locale(Some(locale), words[i]);
            i += 1;
        }
        proof {
            assert(views(words@).take(i as int) =~= views(words@));
        }
        t
    }

    /// Adds the text of `element` after the list under its `lang` attribute,
    /// or under the default locale where it has none. An element without text
    /// counts as empty text.
    pub fn add_for_element(&mut self, element: &Element)
        ensures
            final(self)@ == list_added(
                old(self)@,
                element_locale(*element),
                element_text(*element),
            ),
    {
        let text = match element.get_text() {
            Some(t) => t,
            None => String::new(),
        };
        match element.attribute("lang") {
            Some(l) => self.add_for_locale(Some(l.as_str()), text.as_str()),
            None => self.add_for_locale(None, text.as_str()),
        }
    }

    /// Adds a new string for a specific locale, after those that the locale
    /// has; the default locale is used where `locale` is `None`.
    pub fn add_for_locale(&mut self, locale: Option<&str>, text: &str)
        ensures
            final(self)@ == list_added(
                old(self)@,
                locale_key(
                    match locale {
                        Some(l) => Some(l@),
                        None => None,
                    },
                ),
                text@,
            ),
    {
        let key = match locale {
            Some(l) => l.to_owned(),
            None => DEFAULT_LOCALE.to_owned(),
        };
        let ghost before = self.0@;
        let mut words = match self.0.remove(key.as_str()) {
            Some(w) => w,
            None => Vec::new(),
        };
        let ghost had = words@;
        words.push(text.to_owned());
        proof {
            lemma_views_push(had, words@.last());
            if !before.dom().contains(key@) {
                assert(views(had) =~= Seq::<Seq<char>>::empty());
            }
        }
        self.0.insert(key, words);
        proof {
            lemma_same_map(self@, list_added(list_views(before), key@, text@));
        }
    }

    /// Returns the strings corresponding to the default locale `C`.
    pub fn get_default(&self) -> (r: Option<&Vec<String>>)
        ensures
            match r {
                Some(w) => self@.dom().contains(DEFAULT_LOCALE@) && self@[DEFAULT_LOCALE@] == views(
                    w@,
                ),
                None => !self@.dom().contains(DEFAULT_LOCALE@),
            },
    {
        self.0.get(DEFAULT_LOCALE)
    }

    /// Retrieve the strings for a specific locale if available.
    pub fn get_for_locale(&self, locale: &str) -> (r: Option<&Vec<String>>)
        ensures
            match r {
                Some(w) => self@.dom().contains(locale@) && self@[locale@] == views(w@),
                None => !self@.dom().contains(locale@),
            },
    {
        self.0.get(locale)
    }

    /// Whether `self` contains any translatable strings.
    pub fn is_empty(&self) -> (r: bool)
        ensures
            r == (self@ == Map::<Seq<char>, Seq<Seq<char>>>::empty()),
    {
        let r = self.0.is_empty();
        proof {
            if r {
                assert(self@ =~= Map::<Seq<char>, Seq<Seq<char>>>::empty());
            } else {
                assert(self.0@.dom() =~= self@.dom());
            }
        }
        r
    }

    /// The number of locales that have a list.
    pub fn len(&self) -> (r: usize)
        ensures
            self@.dom().finite(),
            r == self@.dom().len(),
    {
        let r = self.0.len();
        proof {
            assert(self.0@.dom() =~= self@.dom());
        }
        r
    }
}

/// Elements with the same model have the same locale and the same text.
pub proof fn lemma_same_locale_and_text(a: Element, b: Element)
    requires
        a.model() == b.model(),
    ensures
        element_locale(a) == element_locale(b),
        element_text(a) == element_text(b),
        markup_in(a.children@) == markup_in(b.children@),
{
    lemma_same_attribute(a, b, "lang"@);
    lemma_same_text(a, b);
    lemma_same_markup_in(a.children@, b.children@);
}

} // verus!
