//! The catalog of precompiled archives: reading the feed, choosing an
//! archive, naming its source.

use vstd::prelude::*;
use vstd::string::*;
use itertools::Itertools;
use crate::text::{
    chars_of, contains_text, count_digits, digit_run, has_text, lines_of, matches_at, occurs_at,
    same_text, split_lines, text_of,
};

verus! {

/// One archive on offer.
#[derive(Clone, Debug, PartialEq, Eq)]
pub struct PrecompiledEntry {
    /// The version of the runtime inside.
    pub version: String,
    /// The release that published the archive.
    pub tag: String,
    /// The archive's file name.
    pub filename: String,
}

/// The model of a [`PrecompiledEntry`].
pub struct PrecompiledEntryView {
    pub version: Seq<char>,
    pub tag: Seq<char>,
    pub filename: Seq<char>,
}

impl View for PrecompiledEntry {
    type V = PrecompiledEntryView;

    open spec fn view(&self) -> PrecompiledEntryView {
        PrecompiledEntryView { version: self.version@, tag: self.tag@, filename: self.filename@ }
    }
}

impl DeepView for PrecompiledEntry {
    type V = PrecompiledEntryView;

    open spec fn deep_view(&self) -> PrecompiledEntryView {
        self@
    }
}

/// Where the feed of precompiled archives is fetched from.
pub open spec fn feed_url() -> Seq<char> {
    "http://mise-versions.jdx.dev/python-precompiled"@
}

/// What every archive name begins with.
pub open spec fn name_prefix() -> Seq<char> {
    "cpython-"@
}

/// The entry that an archive name stands for. A name reads `cpython-`, then
/// three numbers with a `.` between them (the version), a `+`, a number (the
/// release), and anything after that. Other lines stand for no entry.
pub open spec fn parse_entry(line: Seq<char>) -> Option<PrecompiledEntryView> {
    let a = name_prefix().len() as int;
    let b = a + digit_run(line, a) + 1;
    let c = b + digit_run(line, b) + 1;
    let d = c + digit_run(line, c) + 1;
    let e = d + digit_run(line, d);
    if occurs_at(line, name_prefix(), 0)
        && digit_run(line, a) > 0 && b <= line.len() && line[b - 1] == '.'
        && digit_run(line, b) > 0 && c <= line.len() && line[c - 1] == '.'
        && digit_run(line, c) > 0 && d <= line.len() && line[d - 1] == '+'
        && digit_run(line, d) > 0 {
        Some(
            PrecompiledEntryView {
                version: line.subrange(a, d - 1),
                tag: line.subrange(d, e),
                filename: line,
            },
        )
    } else {
        None
    }
}

/// Whether a line of the feed offers an archive for the platform `tag`.
pub open spec fn offers(line: Seq<char>, tag: Seq<char>) -> bool {
    contains_text(line, tag) && parse_entry(line) is Some
}

/// The entries that `lines` offer for the platform `tag`, in feed order.
pub open spec fn entries_of(lines: Seq<Seq<char>>, tag: Seq<char>) -> Seq<PrecompiledEntryView>
    decreases lines.len(),
{
    if lines.len() == 0 {
        seq![]
    } else {
        let before = entries_of(lines.drop_last(), tag);
        if offers(lines.last(), tag) {
            before.push(parse_entry(lines.last())->0)
        } else {
            before
        }
    }
}

/// The catalog that the feed's text holds for the platform `tag`.
pub open spec fn catalog_of(raw: Seq<char>, tag: Seq<char>) -> Seq<PrecompiledEntryView> {
    entries_of(lines_of(raw), tag)
}

/// The entry chosen for `version`: the last one in catalog order.
pub open spec fn select(catalog: Seq<PrecompiledEntryView>, version: Seq<char>) -> Option<
    PrecompiledEntryView,
>
    decreases catalog.len(),
{
    if catalog.len() == 0 {
        None
    } else if catalog.last().version == version {
        Some(catalog.last())
    } else {
        select(catalog.drop_last(), version)
    }
}

/// Where releases are downloaded from.
pub open spec fn release_base() -> Seq<char> {
    "https://github.com/indygreg/python-build-standalone/releases/download/"@
}

/// The URL of the archive `filename` of release `tag`.
pub open spec fn download_url(tag: Seq<char>, filename: Seq<char>) -> Seq<char> {
    release_base() + tag + "/"@ + filename
}

/// The versions of `entries`, in order.
pub open spec fn versions_of(entries: Seq<PrecompiledEntryView>) -> Seq<Seq<char>> {
    Seq::new(entries.len(), |i: int| entries[i].version)
}

/// `items` without repetitions: each item stands where it first occurs.
pub open spec fn first_occurrences(items: Seq<Seq<char>>) -> Seq<Seq<char>>
    decreases items.len(),
{
    if items.len() == 0 {
        seq![]
    } else {
        let before = first_occurrences(items.drop_last());
        if before.contains(items.last()) {
            before
        } else {
            before.push(items.last())
        }
    }
}

/// The versions that a catalog offers, each once, in order of first
/// appearance.
pub open spec fn catalog_versions(catalog: Seq<PrecompiledEntryView>) -> Seq<Seq<char>> {
    first_occurrences(versions_of(catalog))
}

/// Drops repeated strings by `Itertools::unique`. Taken on trust, as that
/// adaptor documents it: the result holds each distinct string once, in the
/// order in which the strings first occur.
#[verifier::external_body]
pub(crate) fn unique_texts(items: Vec<String>) -> (out: Vec<String>)
    ensures
        out.deep_view() == first_occurrences(items.deep_view()),
{
    items.into_iter().unique().collect()
}

impl PrecompiledEntry {
    /// The URL from which this archive is downloaded.
    pub fn url(&self) -> (url: String)
        ensures
            url@ == download_url(self.tag@, self.filename@),
    {
        let mut url = "https://github.com/indygreg/python-build-standalone/releases/download/"
            .to_owned();
        url.append(self.tag.as_str());
        url.append("/");
        url.append(self.filename.as_str());
        url
    }
}

/// Reads one line of the feed.
pub fn parse_line(line: &str) -> (entry: Option<PrecompiledEntry>)
    ensures
        entry.deep_view() == parse_entry(line@),
{
    let s = chars_of(line);
    let prefix = chars_of("cpython-");
    if !matches_at(&s, &prefix, 0) {
        return None;
    }
    let a: usize = prefix.len();
    let n1 = count_digits(&s, a);
    if n1 == 0 || a + n1 >= s.len() || s[a + n1] != '.' {
        return None;
    }
    let b: usize = a + n1 + 1;
    let n2 = count_digits(&s, b);
    if n2 == 0 || b + n2 >= s.len() || s[b + n2] != '.' {
        return None;
    }
    let c: usize = b + n2 + 1;
    let n3 = count_digits(&s, c);
    if n3 == 0 || c + n3 >= s.len() || s[c + n3] != '+' {
        return None;
    }
    let d: usize = c + n3 + 1;
    let n4 = count_digits(&s, d);
    if n4 == 0 {
        return None;
    }
    Some(
        PrecompiledEntry {
            version: text_of(&s, a, d - 1),
            tag: text_of(&s, d, d + n4),
            filename: line.to_owned(),
        },
    )
}

/// Reads the feed: the archives that `raw` offers for the platform `tag`, in
/// feed order.
pub fn parse_catalog(raw: &str, tag: &str) -> (catalog: Vec<PrecompiledEntry>)
    ensures
        catalog.deep_view() == catalog_of(raw@, tag@),
{
    let text = chars_of(raw);
    let needle = chars_of(tag);
    let lines = split_lines(&text);
    let mut catalog: Vec<PrecompiledEntry> = Vec::new();
    let mut i: usize = 0;
    while i < lines.len()
        invariant
            i <= lines.len(),
            needle@ == tag@,
            lines.deep_view() == lines_of(raw@),
            catalog.deep_view() == entries_of(lines.deep_view().take(i as int), tag@),
        decreases lines.len() - i,
    {
        let ghost all = lines.deep_view();
        let ghost before = catalog.deep_view();
        let line = chars_of(lines[i].as_str());
        proof {
            assert(all.take(i + 1).drop_last() =~= all.take(i as int));
            assert(all.take(i + 1).last() == line@);
        }
        if has_text(&line, &needle) {
            match parse_line(lines[i].as_str()) {
                Some(entry) => {
                    catalog.push(entry);
                    proof {
                        assert(catalog.deep_view() =~= before.push(parse_entry(line@)->0));
                    }
                },
                None => {},
            }
        }
        i = i + 1;
    }
    proof {
        assert(lines.deep_view().take(lines.len() as int) =~= lines.deep_view());
    }
    catalog
}

/// The archive to install for `version`: the last entry of that version in
/// catalog order, that is the one listed most recently.
pub fn select_entry<'a>(catalog: &'a Vec<PrecompiledEntry>, version: &str) -> (chosen: Option<
    &'a PrecompiledEntry,
>)
    ensures
        chosen.deep_view() == select(catalog.deep_view(), version@),
        chosen is Some <==> holds_version(catalog.deep_view(), version@),
        chosen matches Some(entry) ==> entry@.version == version@,
{
    proof {
        lemma_select_is_last_match(catalog.deep_view(), version@);
    }
    let mut i: usize = catalog.len();
    proof {
        assert(catalog.deep_view().take(i as int) =~= catalog.deep_view());
    }
    while i > 0
        invariant
            i <= catalog.len(),
            select(catalog.deep_view(), version@) == select(
                catalog.deep_view().take(i as int),
                version@,
            ),
        decreases i,
    {
        let ghost part = catalog.deep_view().take(i as int);
        proof {
            assert(part.last() == catalog@[i - 1]@);
            assert(part.drop_last() =~= catalog.deep_view().take(i - 1));
        }
        if same_text(catalog[i - 1].version.as_str(), version) {
            return Some(&catalog[i - 1]);
        }
        i = i - 1;
    }
    None
}

/// The versions that a catalog offers, each once, in order of first
/// appearance.
pub fn unique_versions(catalog: &Vec<PrecompiledEntry>) -> (versions: Vec<String>)
    ensures
        versions.deep_view() == catalog_versions(catalog.deep_view()),
        versions.deep_view().no_duplicates(),
{
    proof {
        lemma_catalog_versions_unique(catalog.deep_view());
    }
    let mut all: Vec<String> = Vec::new();
    let mut i: usize = 0;
    while i < catalog.len()
        invariant
            i <= catalog.len(),
            all.deep_view() == versions_of(catalog.deep_view()).take(i as int),
        decreases catalog.len() - i,
    {
        let ghost before = all.deep_view();
        all.push(catalog[i].version.clone());
        proof {
            assert(all.deep_view() =~= before.push(catalog@[i as int].version@));
            assert(versions_of(catalog.deep_view())[i as int] == catalog@[i as int].version@);
            assert(all.deep_view() =~= versions_of(catalog.deep_view()).take(i + 1));
        }
        i = i + 1;
    }
    proof {
        assert(all.deep_view() =~= versions_of(catalog.deep_view()));
    }
    unique_texts(all)
}

/// The chosen entry is the last of its version: an entry is chosen exactly
/// when the catalog holds the version, it has that version, and no entry
/// after it has. So the choice depends on the catalog and the version alone.
pub proof fn lemma_select_is_last_match(catalog: Seq<PrecompiledEntryView>, version: Seq<char>)
    ensures
        select(catalog, version) is None <==> forall|i: int|
            0 <= i < catalog.len() ==> (#[trigger] catalog[i]).version != version,
        select(catalog, version) matches Some(entry) ==> exists|i: int|
            {
                &&& 0 <= i < catalog.len()
                &&& #[trigger] catalog[i] == entry
                &&& entry.version == version
                &&& forall|j: int| i < j < catalog.len() ==> (#[trigger] catalog[j]).version != version
            },
    decreases catalog.len(),
{
    if catalog.len() == 0 {
    } else if catalog.last().version == version {
        let last = catalog.len() - 1;
        assert(catalog[last] == catalog.last());
    } else {
        let shorter = catalog.drop_last();
        lemma_select_is_last_match(shorter, version);
        assert forall|i: int| 0 <= i < shorter.len() implies shorter[i] == catalog[i] by {}
        if select(shorter, version) is None {
            assert forall|i: int| 0 <= i < catalog.len() implies (#[trigger] catalog[i]).version
                != version by {
                if i < shorter.len() {
                    assert(shorter[i].version != version);
                }
            }
        } else {
            let entry = select(shorter, version)->0;
            let i = choose|i: int|
                {
                    &&& 0 <= i < shorter.len()
                    &&& #[trigger] shorter[i] == entry
                    &&& entry.version == version
                    &&& forall|j: int|
                        i < j < shorter.len() ==> (#[trigger] shorter[j]).version != version
                };
            assert(catalog[i] == entry);
            assert forall|j: int| i < j < catalog.len() implies (#[trigger] catalog[j]).version
                != version by {
                if j < shorter.len() {
                    assert(shorter[j].version != version);
                }
            }
        }
    }
}

/// A list without repetitions holds no string twice, and holds exactly the
/// strings of the list it was made from.
pub proof fn lemma_first_occurrences(items: Seq<Seq<char>>)
    ensures
        first_occurrences(items).no_duplicates(),
        forall|x: Seq<char>| first_occurrences(items).contains(x) <==> items.contains(x),
    decreases items.len(),
{
    if items.len() == 0 {
    } else {
        let shorter = items.drop_last();
        let before = first_occurrences(shorter);
        let out = first_occurrences(items);
        lemma_first_occurrences(shorter);
        assert forall|x: Seq<char>| out.contains(x) <==> items.contains(x) by {
            if items.contains(x) {
                let i = choose|i: int| 0 <= i < items.len() && items[i] == x;
                if i < shorter.len() {
                    assert(shorter[i] == x);
                    assert(shorter.contains(x));
                    assert(before.contains(x));
                    let k = choose|k: int| 0 <= k < before.len() && before[k] == x;
                    assert(out[k] == x);
                } else {
                    assert(x == items.last());
                    if !before.contains(x) {
                        assert(out[out.len() - 1] == x);
                    }
                }
            }
            if out.contains(x) {
                let k = choose|k: int| 0 <= k < out.len() && out[k] == x;
                if k < before.len() {
                    assert(before[k] == x);
                    assert(before.contains(x));
                    assert(shorter.contains(x));
                    let i = choose|i: int| 0 <= i < shorter.len() && shorter[i] == x;
                    assert(items[i] == x);
                } else {
                    assert(items[items.len() - 1] == x);
                }
            }
        }
    }
}

/// Whether the catalog holds an entry of `version`.
pub open spec fn holds_version(catalog: Seq<PrecompiledEntryView>, version: Seq<char>) -> bool {
    exists|i: int| 0 <= i < catalog.len() && (#[trigger] catalog[i]).version == version
}

/// The version list of a catalog names no version twice, however many
/// entries the catalog holds of it, and names exactly the versions that the
/// catalog holds.
pub proof fn lemma_catalog_versions_unique(catalog: Seq<PrecompiledEntryView>)
    ensures
        catalog_versions(catalog).no_duplicates(),
        forall|v: Seq<char>|
            #[trigger] catalog_versions(catalog).contains(v) <==> holds_version(catalog, v),
{
    let all = versions_of(catalog);
    let out = catalog_versions(catalog);
    lemma_first_occurrences(all);
    assert forall|v: Seq<char>| #[trigger] out.contains(v) <==> holds_version(catalog, v) by {
        if holds_version(catalog, v) {
            let i = choose|i: int| 0 <= i < catalog.len() && (#[trigger] catalog[i]).version == v;
            assert(all[i] == v);
            assert(all.contains(v));
        }
        if out.contains(v) {
            assert(all.contains(v));
            let i = choose|i: int| 0 <= i < all.len() && all[i] == v;
            assert(catalog[i].version == v);
        }
    }
}

} // verus!
