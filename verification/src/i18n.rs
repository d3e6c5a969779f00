//! Locale selection and the translated texts that the interface shows.

use vstd::prelude::*;

use crate::config::Language;

verus! {

/// The text for `key` in `entries`: the last entry for that key wins, and a
/// key without an entry stands for itself.
pub open spec fn lookup_in(entries: Seq<(Seq<char>, Seq<char>)>, key: Seq<char>) -> Seq<char>
    decreases entries.len(),
{
    if entries.len() == 0 {
        key
    } else if entries.last().0 == key {
        entries.last().1
    } else {
        lookup_in(entries.drop_last(), key)
    }
}

/// Translated message texts, keyed by message id. A message id without a
/// text translates to itself, so a missing text shows as its id.
pub struct Translations {
    entries: Vec<(String, String)>,
}

impl View for Translations {
    type V = Seq<(Seq<char>, Seq<char>)>;

    closed spec fn view(&self) -> Seq<(Seq<char>, Seq<char>)> {
        self.entries@.map_values(|e: (String, String)| (e.0@, e.1@))
    }
}

impl Translations {
    /// The text for `key`.
    pub open spec fn lookup(&self, key: Seq<char>) -> Seq<char> {
        lookup_in(self@, key)
    }

    /// No texts: every message id stands for itself.
    pub fn new() -> (t: Self)
        ensures
            t@ == Seq::<(Seq<char>, Seq<char>)>::empty(),
    {
        let t = Translations { entries: Vec::new() };
        assert(t@ =~= Seq::<(Seq<char>, Seq<char>)>::empty());
        t
    }

    /// Records `text` as the translation of `key`.
    pub fn insert(&mut self, key: String, text: String)
        ensures
            final(self)@ == old(self)@.push((key@, text@)),
    {
        self.entries.push((key, text));
        assert(final(self)@ =~= old(self)@.push((key@, text@)));
    }

    /// The translation of `key`, or `key` itself where there is none.
    pub fn get(&self, key: &str) -> (s: String)
        ensures
            s@ == self.lookup(key@),
    {
        let k = String::from_str(key);
        let mut i: usize = self.entries.len();
        assert(self@.take(i as int) =~= self@);
        while i > 0
            invariant
                i <= self.entries@.len(),
                k@ == key@,
                lookup_in(self@, key@) == lookup_in(self@.take(i as int), key@),
            decreases i,
        {
            let ghost pre = self@.take(i as int);
            assert(pre.drop_last() =~= self@.take(i - 1));
            assert(pre.last() == self@[i - 1]);
            if self.entries[i - 1].0 == k {
                return self.entries[i - 1].1.clone();
            }
            i = i - 1;
        }
        k
    }
}

/// After recording `text` for `key`, the key translates to `text`, and
/// every other key translates as before.
pub proof fn lemma_lookup_after_insert(
    entries: Seq<(Seq<char>, Seq<char>)>,
    key: Seq<char>,
    text: Seq<char>,
    other: Seq<char>,
)
    ensures
        lookup_in(entries.push((key, text)), key) == text,
        other != key ==> lookup_in(entries.push((key, text)), other) == lookup_in(entries, other),
{
    assert(entries.push((key, text)).drop_last() =~= entries);
}

/// A key without any text translates to itself.
pub proof fn lemma_missing_key_is_itself(entries: Seq<(Seq<char>, Seq<char>)>, key: Seq<char>)
    requires
        forall|i: int| 0 <= i < entries.len() ==> (#[trigger] entries[i]).0 != key,
    ensures
        lookup_in(entries, key) == key,
    decreases entries.len(),
{
    if entries.len() > 0 {
        let rest = entries.drop_last();
        assert forall|i: int| 0 <= i < rest.len() implies (#[trigger] rest[i]).0 != key by {
            assert(rest[i] == entries[i]);
        }
        assert(entries.last() == entries[entries.len() - 1]);
        lemma_missing_key_is_itself(rest, key);
    }
}

/// The locale that `Language::Auto` falls back to: English.
pub open spec fn fallback_locale() -> Seq<char> {
    "en"@
}

/// The canonical form that `unic_langid` gives a language identifier parsed
/// from these characters, or `None` where they do not parse as one.
pub uninterp spec fn canonical_language_tag_of(s: Seq<char>) -> Option<Seq<char>>;

/// Calls `LanguageIdentifier::from_str` (unic-langid) and writes the parsed
/// identifier back with its `Display`; the result is named
/// `canonical_language_tag_of`, a function of the characters alone.
#[verifier::external_body]
fn canonical_language_tag(s: &str) -> (r: Option<String>)
    ensures
        r.is_some() == canonical_language_tag_of(s@).is_some(),
        r.is_some() ==> r.unwrap()@ == canonical_language_tag_of(s@).unwrap(),
{
    s.parse::<unic_langid::LanguageIdentifier>().ok().map(|l| l.to_string())
}

/// The locale detected from what the operating system reports.
pub open spec fn detected_locale(os_locale: Option<Seq<char>>) -> Seq<char> {
    match os_locale {
        Some(s) => match canonical_language_tag_of(s) {
            Some(t) => t,
            None => fallback_locale(),
        },
        None => fallback_locale(),
    }
}

/// The locale that a language setting selects.
pub open spec fn resolved_locale(lang: Language, os_locale: Option<Seq<char>>) -> Seq<char> {
    match lang {
        Language::Auto => detected_locale(os_locale),
        Language::Czech => "cs"@,
        Language::English => "en"@,
    }
}

/// The locale to use when the operating system reports `os_locale`: its
/// parsed identifier, or English where there is none or it does not parse.
pub fn detect_locale(os_locale: Option<&str>) -> (tag: String)
    ensures
        tag@ == detected_locale(
            match os_locale {
                Some(s) => Some(s@),
                None => None,
            },
        ),
{
    match os_locale {
        Some(s) => match canonical_language_tag(s) {
            Some(t) => t,
            None => String::from_str("en"),
        },
        None => String::from_str("en"),
    }
}

/// The locale that `lang` selects; `Auto` follows the operating system's
/// locale `os_locale`.
pub fn resolve(lang: Language, os_locale: Option<&str>) -> (tag: String)
    ensures
        tag@ == resolved_locale(
            lang,
            match os_locale {
                Some(s) => Some(s@),
                None => None,
            },
        ),
{
    match lang {
        Language::Auto => detect_locale(os_locale),
        Language::Czech => String::from_str("cs"),
        Language::English => String::from_str("en"),
    }
}

} // verus!
