//! The pages of the settings window and how the sidebar search filters them.

use vstd::prelude::*;

use crate::i18n::Translations;
use crate::text::{contains, contains_spec, lowercase_of, to_lowercase, trim, trim_spec};

verus! {

/// A category in the settings sidebar.
#[derive(Debug, Clone, Copy, PartialEq, Eq, Structural)]
pub enum SettingsPage {
    Operator,
    Appearance,
    Radio,
    Cluster,
    Maps,
    Backup,
    About,
}

impl Default for SettingsPage {
    fn default() -> (p: Self)
        ensures
            p == SettingsPage::Operator,
    {
        SettingsPage::Operator
    }
}

/// Every page, in sidebar order.
pub open spec fn all_pages() -> Seq<SettingsPage> {
    seq![SettingsPage::Operator, SettingsPage::Appearance, SettingsPage::Radio, SettingsPage::Cluster, SettingsPage::Maps, SettingsPage::Backup, SettingsPage::About]
}

/// Whether `query` is empty or, lower-cased, occurs in one of `terms`
/// lower-cased.
pub open spec fn terms_match(terms: Seq<Seq<char>>, query: Seq<char>) -> bool {
    query.len() == 0 || exists|i: int|
        0 <= i < terms.len() && contains_spec(lowercase_of(#[trigger] terms[i]), lowercase_of(query))
}

/// The first of `pages` whose search terms match `query`.
pub open spec fn first_matching(pages: Seq<SettingsPage>, query: Seq<char>, tr: Translations) -> Option<
    SettingsPage,
>
    decreases pages.len(),
{
    if pages.len() == 0 {
        None
    } else if pages[0].matches_spec(query, tr) {
        Some(pages[0])
    } else {
        first_matching(pages.drop_first(), query, tr)
    }
}

impl SettingsPage {
    /// Every page, in sidebar order.
    pub const ALL: [SettingsPage; 7] = [
        SettingsPage::Operator,
        SettingsPage::Appearance,
        SettingsPage::Radio,
        SettingsPage::Cluster,
        SettingsPage::Maps,
        SettingsPage::Backup,
        SettingsPage::About,
    ];

    /// The message id of this page's title.
    pub open spec fn title_key_spec(self) -> Seq<char> {
        match self {
            SettingsPage::Operator => "settings-page-operator"@,
            SettingsPage::Appearance => "settings-page-appearance"@,
            SettingsPage::Radio => "settings-page-radio"@,
            SettingsPage::Cluster => "settings-page-cluster"@,
            SettingsPage::Maps => "settings-page-maps"@,
            SettingsPage::Backup => "settings-page-backup"@,
            SettingsPage::About => "settings-page-about"@,
        }
    }

    /// The message ids whose texts the search looks at: the title, then the
    /// page's section headers and field labels.
    pub open spec fn search_term_keys_spec(self) -> Seq<Seq<char>> {
        match self {
            SettingsPage::Operator => seq!["settings-page-operator"@, "settings-section-identity"@, "field-callsign"@, "field-name"@, "settings-section-location"@, "field-qth"@, "field-locator"@, "settings-section-license"@, "field-license-class"@],
            SettingsPage::Appearance => seq!["settings-page-appearance"@, "settings-section-theme"@, "setting-theme"@, "setting-window-border"@, "settings-section-language"@, "setting-language"@],
            SettingsPage::Radio => seq!["settings-page-radio"@],
            SettingsPage::Cluster => seq!["settings-page-cluster"@],
            SettingsPage::Maps => seq!["settings-page-maps"@],
            SettingsPage::Backup => seq!["settings-page-backup"@],
            SettingsPage::About => seq!["settings-page-about"@, "settings-section-about"@, "about-version"@, "about-license"@, "about-repository"@],
        }
    }

    /// The translated search terms of this page.
    pub open spec fn search_terms_spec(self, tr: Translations) -> Seq<Seq<char>> {
        self.search_term_keys_spec().map_values(|k: Seq<char>| tr.lookup(k))
    }

    /// Whether the sidebar lists this page for `query`.
    pub open spec fn matches_spec(self, query: Seq<char>, tr: Translations) -> bool {
        terms_match(self.search_terms_spec(tr), query)
    }

    /// Every page, in sidebar order.
    pub fn all() -> (v: Vec<SettingsPage>)
        ensures
            v@ == all_pages(),
    {
        let mut v: Vec<SettingsPage> = Vec::new();
    v.push(SettingsPage::Operator);
    v.push(SettingsPage::Appearance);
    v.push(SettingsPage::Radio);
    v.push(SettingsPage::Cluster);
    v.push(SettingsPage::Maps);
    v.push(SettingsPage::Backup);
    v.push(SettingsPage::About);
        assert(v@ =~= all_pages());
        v
    }

    /// The message id of this page's title.
    pub fn title_key(self) -> (s: &'static str)
        ensures
            s@ == self.title_key_spec(),
    {
        match self {
            SettingsPage::Operator => "settings-page-operator",
            SettingsPage::Appearance => "settings-page-appearance",
            SettingsPage::Radio => "settings-page-radio",
            SettingsPage::Cluster => "settings-page-cluster",
            SettingsPage::Maps => "settings-page-maps",
            SettingsPage::Backup => "settings-page-backup",
            SettingsPage::About => "settings-page-about",
        }
    }

    /// This page's title in the given translations.
    pub fn title(self, tr: &Translations) -> (s: String)
        ensures
            s@ == tr.lookup(self.title_key_spec()),
    {
        tr.get(self.title_key())
    }

    /// The message ids the search looks at.
    pub fn search_term_keys(self) -> (v: Vec<&'static str>)
        ensures
            v@.len() == self.search_term_keys_spec().len(),
            forall|i: int| 0 <= i < v@.len() ==> (#[trigger] v@[i])@ == self.search_term_keys_spec()[i],
    {
        let mut v: Vec<&'static str> = Vec::new();
        v.push(self.title_key());
        match self {
            SettingsPage::Operator => {
                v.push("settings-section-identity");
                v.push("field-callsign");
                v.push("field-name");
                v.push("settings-section-location");
                v.push("field-qth");
                v.push("field-locator");
                v.push("settings-section-license");
                v.push("field-license-class");
            },
            SettingsPage::Appearance => {
                v.push("settings-section-theme");
                v.push("setting-theme");
                v.push("setting-window-border");
                v.push("settings-section-language");
                v.push("setting-language");
            },
            SettingsPage::About => {
                v.push("settings-section-about");
                v.push("about-version");
                v.push("about-license");
                v.push("about-repository");
            },
            _ => {},
        }
        assert(v@.map_values(|s: &'static str| s@) =~= self.search_term_keys_spec());
        assert forall|i: int| 0 <= i < v@.len() implies (#[trigger] v@[i])@ == self.search_term_keys_spec()[i] by {
            assert(v@.map_values(|s: &'static str| s@)[i] == v@[i]@);
        }
        v
    }

    /// Every translated string of the page (title, section headers, field
    /// labels): the search index.
    pub fn search_terms(self, tr: &Translations) -> (v: Vec<String>)
        ensures
            v@.len() == self.search_term_keys_spec().len(),
            forall|i: int| 0 <= i < v@.len() ==> (#[trigger] v@[i])@ == self.search_terms_spec(*tr)[i],
    {
        let keys = self.search_term_keys();
        let mut v: Vec<String> = Vec::new();
        let mut i: usize = 0;
        while i < keys.len()
            invariant
                keys@.len() == self.search_term_keys_spec().len(),
                forall|j: int| 0 <= j < keys@.len() ==> (#[trigger] keys@[j])@ == self.search_term_keys_spec()[j],
                i <= keys@.len(),
                v@.len() == i,
                forall|j: int| 0 <= j < i ==> (#[trigger] v@[j])@ == self.search_terms_spec(*tr)[j],
            decreases keys@.len() - i,
        {
            let t = tr.get(keys[i]);
            v.push(t);
            i = i + 1;
        }
        v
    }

    /// Whether the sidebar lists this page for `query`: an empty query lists
    /// every page; otherwise some search term, lower-cased, contains the
    /// lower-cased query.
    pub fn matches(self, query: &str, tr: &Translations) -> (b: bool)
        ensures
            b == self.matches_spec(query@, *tr),
    {
        if query.unicode_len() == 0 {
            return true;
        }
        let needle = to_lowercase(query);
        let terms = self.search_terms(tr);
        let mut lowered: Vec<String> = Vec::new();
        let mut i: usize = 0;
        while i < terms.len()
            invariant
                terms@.len() == self.search_terms_spec(*tr).len(),
                forall|j: int| 0 <= j < terms@.len() ==> (#[trigger] terms@[j])@ == self.search_terms_spec(*tr)[j],
                i <= terms@.len(),
                lowered@.len() == i,
                forall|j: int| 0 <= j < i ==> (#[trigger] lowered@[j])@ == lowercase_of(self.search_terms_spec(*tr)[j]),
            decreases terms@.len() - i,
        {
            lowered.push(to_lowercase(terms[i].as_str()));
            i = i + 1;
        }
        let b = some_term_contains(&lowered, needle.as_str());
        proof {
            if b {
                let j = choose|j: int| 0 <= j < lowered@.len() && contains_spec((#[trigger] lowered@[j])@, needle@);
                assert(contains_spec(lowercase_of(self.search_terms_spec(*tr)[j]), lowercase_of(query@)));
            } else {
                assert forall|j: int| 0 <= j < self.search_terms_spec(*tr).len() implies !contains_spec(
                    lowercase_of(#[trigger] self.search_terms_spec(*tr)[j]),
                    lowercase_of(query@),
                ) by {
                    assert(lowered@[j]@ == lowercase_of(self.search_terms_spec(*tr)[j]));
                }
            }
        }
        b
    }

    /// The first page, in sidebar order, that the sidebar lists for `query`.
    pub fn first_matching(query: &str, tr: &Translations) -> (p: Option<SettingsPage>)
        ensures
            p == first_matching(all_pages(), query@, *tr),
    {
        let pages = SettingsPage::all();
        let mut i: usize = 0;
        assert(pages@.skip(0) =~= pages@);
        while i < pages.len()
            invariant
                pages@ == all_pages(),
                i <= pages@.len(),
                first_matching(all_pages(), query@, *tr) == first_matching(pages@.skip(i as int), query@, *tr),
            decreases pages@.len() - i,
        {
            let ghost rest = pages@.skip(i as int);
            assert(rest.drop_first() =~= pages@.skip(i + 1));
            if pages[i].matches(query, tr) {
                return Some(pages[i]);
            }
            i = i + 1;
        }
        assert(pages@.skip(i as int).len() == 0);
        None
    }
}

/// Whether some of `lowered_terms` (search terms already lower-cased)
/// contains `needle` (the query already lower-cased).
pub fn some_term_contains(lowered_terms: &Vec<String>, needle: &str) -> (b: bool)
    ensures
        b == exists|j: int|
            0 <= j < lowered_terms@.len() && contains_spec((#[trigger] lowered_terms@[j])@, needle@),
{
    let mut i: usize = 0;
    while i < lowered_terms.len()
        invariant
            i <= lowered_terms@.len(),
            forall|j: int| 0 <= j < i ==> !contains_spec((#[trigger] lowered_terms@[j])@, needle@),
        decreases lowered_terms@.len() - i,
    {
        if contains(lowered_terms[i].as_str(), needle) {
            return true;
        }
        i = i + 1;
    }
    false
}

/// Whether a field's label is shown for `query`: an empty query shows every
/// field; otherwise the lower-cased label must contain the query as typed.
pub fn label_matches(label: &str, query: &str) -> (b: bool)
    ensures
        b == (query@.len() == 0 || contains_spec(lowercase_of(label@), query@)),
{
    if query.unicode_len() == 0 {
        return true;
    }
    let lower = to_lowercase(label);
    contains(lower.as_str(), query)
}

/// The pages the sidebar lists for `query`, in sidebar order.
pub fn visible_pages(query: &str, tr: &Translations) -> (v: Vec<SettingsPage>)
    ensures
        v@ == all_pages().filter(|p: SettingsPage| p.matches_spec(query@, *tr)),
{
    let pages = SettingsPage::all();
    let mut v: Vec<SettingsPage> = Vec::new();
    let mut i: usize = 0;
    while i < pages.len()
        invariant
            pages@ == all_pages(),
            i <= pages@.len(),
            v@ == pages@.take(i as int).filter(|p: SettingsPage| p.matches_spec(query@, *tr)),
        decreases pages@.len() - i,
    {
        let ghost pre = pages@.take(i as int);
        let ghost next = pages@.take(i + 1);
        assert(next.drop_last() =~= pre);
        assert(next.last() == pages@[i as int]);
        reveal_with_fuel(Seq::filter, 1);
        if pages[i].matches(query, tr) {
            v.push(pages[i]);
        }
        i = i + 1;
    }
    assert(pages@.take(pages@.len() as int) =~= pages@);
    v
}

/// The filter that the settings content applies to its fields: the search
/// query trimmed and lower-cased.
pub fn content_filter(search: &str) -> (q: String)
    ensures
        q@ == lowercase_of(trim_spec(search@)),
{
    let t = trim(search);
    to_lowercase(t.as_str())
}

/// Whether a settings section is shown for the content filter `query`:
/// when some of its fields are shown, or its title matches as a field
/// label would.
pub fn section_shown(title: &str, query: &str, shown_fields: usize) -> (b: bool)
    ensures
        b == (shown_fields > 0 || query@.len() == 0 || contains_spec(lowercase_of(title@), query@)),
{
    shown_fields > 0 || label_matches(title, query)
}

/// A text that occurs in `mid`, where `mid` occurs in `hay`, occurs in
/// `hay`.
pub proof fn lemma_contains_transitive(hay: Seq<char>, mid: Seq<char>, needle: Seq<char>)
    requires
        contains_spec(hay, mid),
        contains_spec(mid, needle),
    ensures
        contains_spec(hay, needle),
{
    let i = choose|i: int| 0 <= i && i + mid.len() <= hay.len() && #[trigger] hay.subrange(i, i + mid.len()) == mid;
    let k = choose|k: int|
        0 <= k && k + needle.len() <= mid.len() && #[trigger] mid.subrange(k, k + needle.len()) == needle;
    assert(hay.subrange(i + k, i + k + needle.len()) =~= needle) by {
        assert forall|t: int| 0 <= t < needle.len() implies hay.subrange(i + k, i + k + needle.len())[t]
            == needle[t] by {
            assert(hay.subrange(i, i + mid.len())[k + t] == hay[i + k + t]);
            assert(mid.subrange(k, k + needle.len())[t] == mid[k + t]);
        }
    }
}

/// Cutting the search query down to a piece of it (compared lower-cased)
/// never hides a page that the sidebar listed.
pub proof fn lemma_shorter_query_keeps_page(
    page: SettingsPage,
    query: Seq<char>,
    shorter: Seq<char>,
    tr: Translations,
)
    requires
        page.matches_spec(query, tr),
        query.len() > 0 || shorter.len() == 0,
        contains_spec(lowercase_of(query), lowercase_of(shorter)),
    ensures
        page.matches_spec(shorter, tr),
{
    if shorter.len() > 0 {
        let terms = page.search_terms_spec(tr);
        let i = choose|i: int|
            0 <= i < terms.len() && contains_spec(lowercase_of(#[trigger] terms[i]), lowercase_of(query));
        lemma_contains_transitive(lowercase_of(terms[i]), lowercase_of(query), lowercase_of(shorter));
    }
}

} // verus!
