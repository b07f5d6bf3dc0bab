//! The versions that can be installed: from the catalog of precompiled
//! archives, from the host's version service, or from the build utility's
//! own definitions.

use vstd::prelude::*;
use vstd::string::*;
use itertools::Itertools;
use crate::build_tool::{build_tool_step, BuildToolState, BuildToolStateView};
use crate::cache::{read_at, stored};
use crate::catalog::{catalog_versions, unique_versions};
use crate::feed::{catalog_step, persist_failed_text, CatalogState, CatalogStateView};
use crate::plugin::{build_bin, PythonPlugin, PythonPluginView};
use crate::protocol::{
    act, rest, warning, Action, ActionView, CacheKind, Command, CommandView, Event, EventView,
    Failure, FailureView, Note, NoteView, Turn, TurnView,
};
use crate::settings::wants_precompiled;
use crate::target::{HostContext, HostContextView};
use crate::text::{chars_of, join2, leads_with_digit, split_on, split_text, starts_with_digit};

verus! {

/// The entries of `items` that begin with a digit, in their order.
pub open spec fn digit_led(items: Seq<Seq<char>>) -> Seq<Seq<char>> {
    items.filter(|s: Seq<char>| leads_with_digit(s))
}

/// The entries of `items` that do not begin with a digit, in their order.
pub open spec fn named_builds(items: Seq<Seq<char>>) -> Seq<Seq<char>> {
    items.filter(|s: Seq<char>| !leads_with_digit(s))
}

/// Whether every entry that begins with a digit stands before every entry
/// that does not.
pub open spec fn digits_first(items: Seq<Seq<char>>) -> bool {
    forall|i: int, j: int|
        0 <= i < j < items.len() && leads_with_digit(#[trigger] items[j]) ==> leads_with_digit(
            #[trigger] items[i],
        )
}

/// The definitions in the order in which they are listed: numbered versions
/// first, named builds after them, each group in the order given.
pub open spec fn sorted_definitions(items: Seq<Seq<char>>) -> Seq<Seq<char>> {
    digit_led(items) + named_builds(items)
}

/// The versions that the build utility's output defines, one per line.
pub open spec fn definitions_of(output: Seq<char>) -> Seq<Seq<char>> {
    sorted_definitions(split_on(output, '\n'))
}

/// Whether a definition is sorted behind the numbered versions.
pub fn is_named_build(definition: &String) -> (r: bool)
    ensures
        r == !leads_with_digit(definition@),
{
    !starts_with_digit(definition.as_str())
}

/// Sorts definitions by `Itertools::sorted_by_cached_key`, with
/// [`is_named_build`] as the key. Taken on trust, as that method documents
/// it: the sort is stable and ascending, and `false` sorts before `true`; so
/// the entries whose key is `false` come first and those whose key is `true`
/// after them, each group in the order given.
#[verifier::external_body]
pub(crate) fn sort_definitions(items: Vec<String>) -> (out: Vec<String>)
    ensures
        out.deep_view() == sorted_definitions(items.deep_view()),
{
    items.into_iter().sorted_by_cached_key(|v| is_named_build(v)).collect()
}

/// The versions that the build utility's output defines, in listing order.
pub fn parse_definitions(output: &str) -> (versions: Vec<String>)
    ensures
        versions.deep_view() == definitions_of(output@),
        versions.deep_view().to_multiset() == split_on(output@, '\n').to_multiset(),
        digits_first(versions.deep_view()),
{
    proof {
        lemma_sorted_definitions_is_stable_partition(split_on(output@, '\n'));
    }
    let chars = chars_of(output);
    sort_definitions(split_text(&chars, '\n'))
}

/// A copy of `items`.
pub fn clone_texts(items: &Vec<String>) -> (out: Vec<String>)
    ensures
        out.deep_view() == items.deep_view(),
{
    let mut out: Vec<String> = Vec::new();
    let mut i: usize = 0;
    while i < items.len()
        invariant
            i <= items.len(),
            out.deep_view() == items.deep_view().take(i as int),
        decreases items.len() - i,
    {
        let ghost before = out.deep_view();
        out.push(items[i].clone());
        proof {
            assert(out.deep_view() =~= before.push(items@[i as int]@));
            assert(out.deep_view() =~= items.deep_view().take(i + 1));
        }
        i = i + 1;
    }
    proof {
        assert(items.deep_view().take(items.len() as int) =~= items.deep_view());
    }
    out
}

/// How far the derivation of the version list has come.
#[derive(Clone, Debug, PartialEq, Eq)]
pub enum ListState {
    /// Nothing was asked yet.
    Start,
    /// Getting the catalog of precompiled archives.
    Catalog(CatalogState),
    /// Asking the host's version service.
    Shortcut,
    /// Getting the build utility in place.
    BuildTool(BuildToolState),
    /// The build utility prints its definitions.
    Listing,
    /// Done: the versions.
    Listed(Vec<String>),
    /// No list could be had.
    Failed(Failure),
}

/// The model of a [`ListState`].
pub enum ListStateView {
    Start,
    Catalog(CatalogStateView),
    Shortcut,
    BuildTool(BuildToolStateView),
    Listing,
    Listed(Seq<Seq<char>>),
    Failed(FailureView),
}

impl View for ListState {
    type V = ListStateView;

    open spec fn view(&self) -> ListStateView {
        match self {
            ListState::Start => ListStateView::Start,
            ListState::Catalog(c) => ListStateView::Catalog(c@),
            ListState::Shortcut => ListStateView::Shortcut,
            ListState::BuildTool(b) => ListStateView::BuildTool(b@),
            ListState::Listing => ListStateView::Listing,
            ListState::Listed(v) => ListStateView::Listed(v.deep_view()),
            ListState::Failed(f) => ListStateView::Failed(f@),
        }
    }
}

/// The command that prints the build utility's definitions. It runs under
/// the host's fetch timeout.
pub open spec fn definitions_command(p: PythonPluginView) -> CommandView {
    CommandView {
        program: build_bin(p),
        args: seq!["--definitions"@],
        stdin: None,
        report: false,
        timed: true,
    }
}

/// What is said when the version service failed.
pub open spec fn shortcut_failed_text(message: Seq<char>) -> Seq<char> {
    "failed to fetch remote versions: "@ + message
}

/// What follows a step on the catalog: its versions, each once.
pub open spec fn list_after_catalog(p: PythonPluginView, c: CatalogStateView, turn: TurnView) -> (
    ListStateView,
    TurnView,
) {
    match c {
        CatalogStateView::Ready => match p.precompiled_cache.value {
            Some(catalog) => (
                ListStateView::Listed(catalog_versions(catalog)),
                TurnView { notes: turn.notes, action: None },
            ),
            None => (
                ListStateView::Failed(FailureView::Protocol),
                TurnView { notes: turn.notes, action: None },
            ),
        },
        CatalogStateView::Failed(f) => (
            ListStateView::Failed(f),
            TurnView { notes: turn.notes, action: None },
        ),
        _ => (ListStateView::Catalog(c), turn),
    }
}

/// What follows a step on the build utility: once it is in place, its
/// definitions are listed.
pub open spec fn list_after_build_tool(p: PythonPluginView, b: BuildToolStateView, turn: TurnView) -> (
    ListStateView,
    TurnView,
) {
    match b {
        BuildToolStateView::Ready => (
            ListStateView::Listing,
            TurnView {
                notes: turn.notes,
                action: Some(ActionView::Run { command: definitions_command(p) }),
            },
        ),
        BuildToolStateView::Failed(f) => (
            ListStateView::Failed(f),
            TurnView { notes: turn.notes, action: None },
        ),
        _ => (ListStateView::BuildTool(b), turn),
    }
}

/// The build utility is asked, after `notes` were shown.
pub open spec fn list_from_build_tool(p: PythonPluginView, host: HostContextView, notes: Seq<NoteView>) -> (
    ListStateView,
    TurnView,
) {
    let (b, turn) = build_tool_step(p, host.env, BuildToolStateView::Idle, EventView::Start);
    list_after_build_tool(p, b, TurnView { notes: notes + turn.notes, action: turn.action })
}

/// One step of deriving the version list.
///
/// With the precompiled strategy the list is the catalog's versions, each
/// once, in order of first appearance. Otherwise the host's version service
/// is asked first and its list is taken as it is; where it has none or
/// fails, the build utility's definitions are listed, and a failure there is
/// final.
pub open spec fn list_step(p: PythonPluginView, host: HostContextView, s: ListStateView, e: EventView) -> (
    PythonPluginView,
    ListStateView,
    TurnView,
) {
    match s {
        ListStateView::Start => match e {
            EventView::Start => {
                if wants_precompiled(host.settings) {
                    let (p1, c, turn) = catalog_step(p, host, CatalogStateView::Idle, e);
                    let (s1, t1) = list_after_catalog(p1, c, turn);
                    (p1, s1, t1)
                } else {
                    (p, ListStateView::Shortcut, act(ActionView::FetchVersionList))
                }
            },
            _ => (p, ListStateView::Failed(FailureView::Protocol), rest()),
        },
        ListStateView::Catalog(c0) => {
            let (p1, c, turn) = catalog_step(p, host, c0, e);
            let (s1, t1) = list_after_catalog(p1, c, turn);
            (p1, s1, t1)
        },
        ListStateView::Shortcut => match e {
            EventView::Versions(Some(versions)) => (p, ListStateView::Listed(versions), rest()),
            EventView::Versions(None) => {
                let (s1, t1) = list_from_build_tool(p, host, seq![]);
                (p, s1, t1)
            },
            EventView::Failed(message) => {
                let (s1, t1) = list_from_build_tool(
                    p,
                    host,
                    seq![warning(shortcut_failed_text(message))],
                );
                (p, s1, t1)
            },
            _ => (p, ListStateView::Failed(FailureView::Protocol), rest()),
        },
        ListStateView::BuildTool(b0) => {
            let (b, turn) = build_tool_step(p, host.env, b0, e);
            let (s1, t1) = list_after_build_tool(p, b, turn);
            (p, s1, t1)
        },
        ListStateView::Listing => match e {
            EventView::Text(output) => (p, ListStateView::Listed(definitions_of(output)), rest()),
            EventView::Failed(message) => (
                p,
                ListStateView::Failed(FailureView::Step { message }),
                rest(),
            ),
            _ => (p, ListStateView::Failed(FailureView::Protocol), rest()),
        },
        ListStateView::Listed(_) => (p, s, rest()),
        ListStateView::Failed(_) => (p, s, rest()),
    }
}

/// How far the cached version list has come.
#[derive(Clone, Debug, PartialEq, Eq)]
pub enum RemoteState {
    /// Nothing was asked yet.
    Start,
    /// Deriving the list anew.
    Fetching(ListState),
    /// Writing the new list to the cache file.
    Persisting(Vec<String>),
    /// Done: the versions.
    Listed(Vec<String>),
    /// No list could be had.
    Failed(Failure),
}

/// The model of a [`RemoteState`].
pub enum RemoteStateView {
    Start,
    Fetching(ListStateView),
    Persisting(Seq<Seq<char>>),
    Listed(Seq<Seq<char>>),
    Failed(FailureView),
}

impl View for RemoteState {
    type V = RemoteStateView;

    open spec fn view(&self) -> RemoteStateView {
        match self {
            RemoteState::Start => RemoteStateView::Start,
            RemoteState::Fetching(l) => RemoteStateView::Fetching(l@),
            RemoteState::Persisting(v) => RemoteStateView::Persisting(v.deep_view()),
            RemoteState::Listed(v) => RemoteStateView::Listed(v.deep_view()),
            RemoteState::Failed(f) => RemoteStateView::Failed(f@),
        }
    }
}

/// What follows a step of the derivation: a new list is stored and written
/// to the cache file.
pub open spec fn remote_after_fetch(
    p: PythonPluginView,
    host: HostContextView,
    l: ListStateView,
    turn: TurnView,
) -> (PythonPluginView, RemoteStateView, TurnView) {
    match l {
        ListStateView::Listed(versions) => (
            PythonPluginView {
                remote_version_cache: stored(p.remote_version_cache, versions, host.now),
                ..p
            },
            RemoteStateView::Persisting(versions),
            TurnView {
                notes: turn.notes,
                action: Some(
                    ActionView::Persist {
                        cache: CacheKind::RemoteVersions,
                        path: p.remote_version_cache.path,
                    },
                ),
            },
        ),
        ListStateView::Failed(f) => (
            p,
            RemoteStateView::Failed(f),
            TurnView { notes: turn.notes, action: None },
        ),
        _ => (p, RemoteStateView::Fetching(l), turn),
    }
}

/// One step towards the list of installable versions, through the plugin's
/// cache: a fresh list is handed out as it is, and nothing is asked of the
/// host.
pub open spec fn remote_step(p: PythonPluginView, host: HostContextView, s: RemoteStateView, e: EventView) -> (
    PythonPluginView,
    RemoteStateView,
    TurnView,
) {
    match s {
        RemoteStateView::Start => match e {
            EventView::Start => match read_at(p.remote_version_cache, host.now) {
                Some(versions) => (p, RemoteStateView::Listed(versions), rest()),
                None => {
                    let (p1, l, turn) = list_step(p, host, ListStateView::Start, e);
                    remote_after_fetch(p1, host, l, turn)
                },
            },
            _ => (p, RemoteStateView::Failed(FailureView::Protocol), rest()),
        },
        RemoteStateView::Fetching(l0) => {
            let (p1, l, turn) = list_step(p, host, l0, e);
            remote_after_fetch(p1, host, l, turn)
        },
        RemoteStateView::Persisting(versions) => match e {
            EventView::Done => (p, RemoteStateView::Listed(versions), rest()),
            EventView::Failed(message) => (
                p,
                RemoteStateView::Listed(versions),
                TurnView { notes: seq![warning(persist_failed_text(message))], action: None },
            ),
            _ => (p, RemoteStateView::Failed(FailureView::Protocol), rest()),
        },
        RemoteStateView::Listed(_) => (p, s, rest()),
        RemoteStateView::Failed(_) => (p, s, rest()),
    }
}

impl PythonPlugin {
    /// What follows a step on the catalog: see [`list_after_catalog`].
    pub fn list_catalog(&self, c: CatalogState, turn: Turn) -> (r: (ListState, Turn))
        ensures
            (r.0@, r.1@) == list_after_catalog(self@, c@, turn@),
    {
        match c {
            CatalogState::Ready => match &self.precompiled_cache.value {
                Some(catalog) => (
                    ListState::Listed(unique_versions(catalog)),
                    Turn { notes: turn.notes, action: None },
                ),
                None => (
                    ListState::Failed(Failure::Protocol),
                    Turn { notes: turn.notes, action: None },
                ),
            },
            CatalogState::Failed(f) => (
                ListState::Failed(f),
                Turn { notes: turn.notes, action: None },
            ),
            _ => (ListState::Catalog(c), turn),
        }
    }

    /// What follows a step on the build utility: see
    /// [`list_after_build_tool`].
    pub fn list_definitions(&self, b: BuildToolState, turn: Turn) -> (r: (ListState, Turn))
        ensures
            (r.0@, r.1@) == list_after_build_tool(self@, b@, turn@),
    {
        match b {
            BuildToolState::Ready => {
                let cmd = Command::new(self.python_build_bin(), false).arg(
                    "--definitions".to_owned(),
                ).timed();
                proof {
                    assert(cmd@.args =~= seq!["--definitions"@]);
                }
                (
                    ListState::Listing,
                    Turn { notes: turn.notes, action: Some(Action::Run { command: cmd }) },
                )
            },
            BuildToolState::Failed(f) => (
                ListState::Failed(f),
                Turn { notes: turn.notes, action: None },
            ),
            _ => (ListState::BuildTool(b), turn),
        }
    }

    /// The build utility is asked: see [`list_from_build_tool`].
    pub fn list_from_build_tool(&self, host: &HostContext, notes: Vec<Note>) -> (r: (
        ListState,
        Turn,
    ))
        ensures
            (r.0@, r.1@) == list_from_build_tool(self@, host@, notes.deep_view()),
    {
        let (b, turn) = self.install_or_update_python_build(
            &host.env,
            BuildToolState::Idle,
            Event::Start,
        );
        self.list_definitions(b, turn.after(notes))
    }

    /// One step of deriving the list of installable versions: see
    /// [`list_step`].
    pub fn fetch_remote_versions(&mut self, host: &HostContext, state: ListState, event: Event) -> (r:
        (ListState, Turn))
        ensures
            (final(self)@, r.0@, r.1@) == list_step(old(self)@, host@, state@, event@),
    {
        match state {
            ListState::Start => match event {
                Event::Start => {
                    if self.should_install_precompiled(&host.settings) {
                        let (c, turn) = self.fetch_precompiled_remote_versions(
                            host,
                            CatalogState::Idle,
                            event,
                        );
                        self.list_catalog(c, turn)
                    } else {
                        (ListState::Shortcut, Turn::act(Action::FetchVersionList))
                    }
                },
                _ => (ListState::Failed(Failure::Protocol), Turn::rest()),
            },
            ListState::Catalog(c0) => {
                let (c, turn) = self.fetch_precompiled_remote_versions(host, c0, event);
                self.list_catalog(c, turn)
            },
            ListState::Shortcut => match event {
                Event::Versions(Some(versions)) => (ListState::Listed(versions), Turn::rest()),
                Event::Versions(None) => {
                    let notes: Vec<Note> = Vec::new();
                    proof {
                        assert(notes.deep_view() =~= seq![]);
                    }
                    self.list_from_build_tool(host, notes)
                },
                Event::Failed(message) => {
                    let mut notes: Vec<Note> = Vec::new();
                    notes.push(
                        Note::warning(
                            join2("failed to fetch remote versions: ", message.as_str()),
                        ),
                    );
                    proof {
                        assert(notes.deep_view() =~= seq![
                            warning(shortcut_failed_text(message@)),
                        ]);
                    }
                    self.list_from_build_tool(host, notes)
                },
                _ => (ListState::Failed(Failure::Protocol), Turn::rest()),
            },
            ListState::BuildTool(b0) => {
                let (b, turn) = self.install_or_update_python_build(&host.env, b0, event);
                self.list_definitions(b, turn)
            },
            ListState::Listing => match event {
                Event::Text(output) => (
                    ListState::Listed(parse_definitions(output.as_str())),
                    Turn::rest(),
                ),
                Event::Failed(message) => (
                    ListState::Failed(Failure::Step { message }),
                    Turn::rest(),
                ),
                _ => (ListState::Failed(Failure::Protocol), Turn::rest()),
            },
            ListState::Listed(v) => (ListState::Listed(v), Turn::rest()),
            ListState::Failed(f) => (ListState::Failed(f), Turn::rest()),
        }
    }

    /// What follows a step of the derivation: see [`remote_after_fetch`].
    pub fn keep_versions(&mut self, host: &HostContext, l: ListState, turn: Turn) -> (r: (
        RemoteState,
        Turn,
    ))
        ensures
            (final(self)@, r.0@, r.1@) == remote_after_fetch(old(self)@, host@, l@, turn@),
    {
        match l {
            ListState::Listed(versions) => {
                let copy = clone_texts(&versions);
                self.remote_version_cache.put(copy, host.now);
                (
                    RemoteState::Persisting(versions),
                    Turn {
                        notes: turn.notes,
                        action: Some(
                            Action::Persist {
                                cache: CacheKind::RemoteVersions,
                                path: self.remote_version_cache.path.clone(),
                            },
                        ),
                    },
                )
            },
            ListState::Failed(f) => (
                RemoteState::Failed(f),
                Turn { notes: turn.notes, action: None },
            ),
            _ => (RemoteState::Fetching(l), turn),
        }
    }

    /// One step towards the list of installable versions: see
    /// [`remote_step`]. The host begins with [`RemoteState::Start`] and
    /// [`Event::Start`] and goes on until a turn comes without an action.
    pub fn list_remote_versions(&mut self, host: &HostContext, state: RemoteState, event: Event) -> (r:
        (RemoteState, Turn))
        ensures
            (final(self)@, r.0@, r.1@) == remote_step(old(self)@, host@, state@, event@),
    {
        match state {
            RemoteState::Start => match event {
                Event::Start => {
                    let cached = match self.remote_version_cache.get(host.now) {
                        Some(versions) => Some(clone_texts(versions)),
                        None => None,
                    };
                    match cached {
                        Some(versions) => (RemoteState::Listed(versions), Turn::rest()),
                        None => {
                            let (l, turn) = self.fetch_remote_versions(
                                host,
                                ListState::Start,
                                event,
                            );
                            self.keep_versions(host, l, turn)
                        },
                    }
                },
                _ => (RemoteState::Failed(Failure::Protocol), Turn::rest()),
            },
            RemoteState::Fetching(l0) => {
                let (l, turn) = self.fetch_remote_versions(host, l0, event);
                self.keep_versions(host, l, turn)
            },
            RemoteState::Persisting(versions) => match event {
                Event::Done => (RemoteState::Listed(versions), Turn::rest()),
                Event::Failed(message) => {
                    let text = join2("failed to write cache file: ", message.as_str());
                    (RemoteState::Listed(versions), Turn::rest().note(Note::warning(text)))
                },
                _ => (RemoteState::Failed(Failure::Protocol), Turn::rest()),
            },
            RemoteState::Listed(v) => (RemoteState::Listed(v), Turn::rest()),
            RemoteState::Failed(f) => (RemoteState::Failed(f), Turn::rest()),
        }
    }
}

/// What a filter keeps of a list whose entries all pass is the list.
proof fn lemma_filter_keeps_all(s: Seq<Seq<char>>, pred: spec_fn(Seq<char>) -> bool)
    requires
        forall|i: int| 0 <= i < s.len() ==> pred(#[trigger] s[i]),
    ensures
        s.filter(pred) == s,
    decreases s.len(),
{
    reveal(Seq::filter);
    if s.len() > 0 {
        lemma_filter_keeps_all(s.drop_last(), pred);
        assert(s.drop_last().push(s.last()) =~= s);
    }
}

/// What a filter keeps of a list of which no entry passes is empty.
proof fn lemma_filter_keeps_none(s: Seq<Seq<char>>, pred: spec_fn(Seq<char>) -> bool)
    requires
        forall|i: int| 0 <= i < s.len() ==> !pred(#[trigger] s[i]),
    ensures
        s.filter(pred) == Seq::<Seq<char>>::empty(),
    decreases s.len(),
{
    reveal(Seq::filter);
    if s.len() > 0 {
        lemma_filter_keeps_none(s.drop_last(), pred);
    }
}

/// The two groups together hold what the list holds.
proof fn lemma_groups_cover(items: Seq<Seq<char>>)
    ensures
        digit_led(items).len() + named_builds(items).len() == items.len(),
        sorted_definitions(items).to_multiset() == items.to_multiset(),
    decreases items.len(),
{
    broadcast use vstd::multiset::group_multiset_axioms;

    reveal(Seq::filter);
    let d = digit_led(items);
    let n = named_builds(items);
    vstd::seq_lib::lemma_multiset_commutative(d, n);
    if items.len() == 0 {
        assert(d + n =~= items);
    } else {
        let shorter = items.drop_last();
        let x = items.last();
        let d0 = digit_led(shorter);
        let n0 = named_builds(shorter);
        lemma_groups_cover(shorter);
        vstd::seq_lib::lemma_multiset_commutative(d0, n0);
        assert(shorter.push(x) =~= items);
        vstd::seq_lib::to_multiset_build(shorter, x);
        if leads_with_digit(x) {
            assert(d == d0.push(x));
            assert(n == n0);
            vstd::seq_lib::to_multiset_build(d0, x);
        } else {
            assert(d == d0);
            assert(n == n0.push(x));
            vstd::seq_lib::to_multiset_build(n0, x);
        }
        assert(d.to_multiset().add(n.to_multiset()) =~= d0.to_multiset().add(
            n0.to_multiset(),
        ).insert(x));
    }
}

/// The listing order is a stable partition: the sorted list holds what the
/// given list holds, every entry that begins with a digit stands before every
/// entry that does not, and within each group the given order is kept.
pub proof fn lemma_sorted_definitions_is_stable_partition(items: Seq<Seq<char>>)
    ensures
        sorted_definitions(items).len() == items.len(),
        sorted_definitions(items).to_multiset() == items.to_multiset(),
        digits_first(sorted_definitions(items)),
        digit_led(sorted_definitions(items)) == digit_led(items),
        named_builds(sorted_definitions(items)) == named_builds(items),
{
    let lead = |s: Seq<char>| leads_with_digit(s);
    let named = |s: Seq<char>| !leads_with_digit(s);
    let d = digit_led(items);
    let n = named_builds(items);
    let out = sorted_definitions(items);
    lemma_groups_cover(items);
    assert forall|i: int| 0 <= i < d.len() implies leads_with_digit(#[trigger] d[i]) by {
        items.lemma_filter_pred(lead, i);
    }
    assert forall|i: int| 0 <= i < n.len() implies !leads_with_digit(#[trigger] n[i]) by {
        items.lemma_filter_pred(named, i);
    }
    assert forall|i: int, j: int|
        0 <= i < j < items.len() && leads_with_digit(#[trigger] out[j]) implies leads_with_digit(
        #[trigger] out[i],
    ) by {
        if j >= d.len() {
            assert(out[j] == n[j - d.len()]);
        }
        assert(out[i] == d[i]);
    }
    Seq::filter_distributes_over_add(d, n, lead);
    Seq::filter_distributes_over_add(d, n, named);
    lemma_filter_keeps_all(d, lead);
    lemma_filter_keeps_none(n, lead);
    lemma_filter_keeps_all(n, named);
    lemma_filter_keeps_none(d, named);
    assert(d + Seq::<Seq<char>>::empty() =~= d);
    assert(Seq::<Seq<char>>::empty() + n =~= n);
}

/// With the precompiled strategy, a freshly derived version list names no
/// version twice.
pub proof fn lemma_precompiled_list_has_no_duplicates(
    p: PythonPluginView,
    host: HostContextView,
    s: ListStateView,
    e: EventView,
)
    requires
        s is Start || s is Catalog,
        wants_precompiled(host.settings),
    ensures
        list_step(p, host, s, e).1 matches ListStateView::Listed(versions)
            ==> versions.no_duplicates(),
{
    let (p1, s1, t1) = list_step(p, host, s, e);
    if s1 is Listed {
        crate::catalog::lemma_catalog_versions_unique(p1.precompiled_cache.value->0);
    }
}

/// While the cached version list is fresh it is handed out as it is: the
/// plugin stays as it was and the host is asked for nothing.
pub proof fn lemma_fresh_versions_are_reused(p: PythonPluginView, host: HostContextView)
    requires
        crate::cache::fresh_at(p.remote_version_cache, host.now),
    ensures
        remote_step(p, host, RemoteStateView::Start, EventView::Start) == (
            p,
            RemoteStateView::Listed(p.remote_version_cache.value->0),
            rest(),
        ),
{
}

/// A list from the version service is handed out as it came.
pub proof fn lemma_service_list_is_taken_as_it_is(
    p: PythonPluginView,
    host: HostContextView,
    versions: Seq<Seq<char>>,
)
    ensures
        list_step(p, host, ListStateView::Shortcut, EventView::Versions(Some(versions))) == (
            p,
            ListStateView::Listed(versions),
            rest(),
        ),
{
}

/// A failing version service does not fail the listing: the user is warned
/// and the build utility is asked instead.
pub proof fn lemma_service_failure_falls_back(
    p: PythonPluginView,
    host: HostContextView,
    message: Seq<char>,
)
    ensures
        list_step(p, host, ListStateView::Shortcut, EventView::Failed(message)) == (
            p,
            ListStateView::BuildTool(BuildToolStateView::Probing),
            TurnView {
                notes: seq![warning(shortcut_failed_text(message))],
                action: Some(ActionView::Probe { path: crate::plugin::build_path(p) }),
            },
        ),
{
    assert(seq![warning(shortcut_failed_text(message))] + Seq::<NoteView>::empty() =~= seq![
        warning(shortcut_failed_text(message)),
    ]);
}

/// Where the build utility cannot list its definitions, no list is had: the
/// failure is final.
pub proof fn lemma_listing_failure_is_final(
    p: PythonPluginView,
    host: HostContextView,
    message: Seq<char>,
    e: EventView,
)
    ensures
        list_step(p, host, ListStateView::Listing, EventView::Failed(message)) == (
            p,
            ListStateView::Failed(FailureView::Step { message }),
            rest(),
        ),
        list_step(p, host, ListStateView::Failed(FailureView::Step { message }), e) == (
            p,
            ListStateView::Failed(FailureView::Step { message }),
            rest(),
        ),
{
}

} // verus!
