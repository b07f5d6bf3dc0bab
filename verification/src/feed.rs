//! The cached catalog: reused while it is fresh, fetched anew when it is not.

use vstd::prelude::*;
use vstd::string::*;
use crate::cache::{fresh_at, stored};
use crate::catalog::{catalog_of, feed_url, parse_catalog};
use crate::platform::{arch_known, os_known, platform_tag};
use crate::plugin::{PythonPlugin, PythonPluginView};
use crate::protocol::{
    act, rest, warning, Action, ActionView, CacheKind, Event, EventView, Failure, FailureView, Note, Turn,
    TurnView,
};
use crate::target::{HostContext, HostContextView};
use crate::text::join2;

verus! {

/// How far the catalog has come.
#[derive(Clone, Debug, PartialEq, Eq)]
pub enum CatalogState {
    /// Nothing was asked yet.
    Idle,
    /// Fetching the feed.
    Fetching,
    /// Writing the new catalog to the cache file.
    Persisting,
    /// The plugin holds the catalog to use.
    Ready,
    /// The catalog could not be had.
    Failed(Failure),
}

/// The model of a [`CatalogState`].
pub enum CatalogStateView {
    Idle,
    Fetching,
    Persisting,
    Ready,
    Failed(FailureView),
}

impl View for CatalogState {
    type V = CatalogStateView;

    open spec fn view(&self) -> CatalogStateView {
        match self {
            CatalogState::Idle => CatalogStateView::Idle,
            CatalogState::Fetching => CatalogStateView::Fetching,
            CatalogState::Persisting => CatalogStateView::Persisting,
            CatalogState::Ready => CatalogStateView::Ready,
            CatalogState::Failed(f) => CatalogStateView::Failed(f@),
        }
    }
}

/// What is said when the cache file could not be written.
pub open spec fn persist_failed_text(message: Seq<char>) -> Seq<char> {
    "failed to write cache file: "@ + message
}

/// One step towards a usable catalog. A fresh catalog is used as it is and
/// nothing is fetched. Otherwise the feed is fetched, read for the host's
/// platform, stored, and written to the cache file; a failure to write is
/// reported and the catalog is used all the same.
pub open spec fn catalog_step(
    p: PythonPluginView,
    host: HostContextView,
    s: CatalogStateView,
    e: EventView,
) -> (PythonPluginView, CatalogStateView, TurnView) {
    match (s, e) {
        (CatalogStateView::Idle, EventView::Start) => {
            if fresh_at(p.precompiled_cache, host.now) {
                (p, CatalogStateView::Ready, rest())
            } else if !(os_known(host.platform) && arch_known(host.platform)) {
                (p, CatalogStateView::Failed(FailureView::UnsupportedPlatform), rest())
            } else {
                (p, CatalogStateView::Fetching, act(ActionView::FetchText { url: feed_url() }))
            }
        },
        (CatalogStateView::Fetching, EventView::Text(raw)) => {
            if os_known(host.platform) && arch_known(host.platform) {
                (
                    PythonPluginView {
                        precompiled_cache: stored(
                            p.precompiled_cache,
                            catalog_of(raw, platform_tag(host.platform)),
                            host.now,
                        ),
                        ..p
                    },
                    CatalogStateView::Persisting,
                    act(
                        ActionView::Persist {
                            cache: CacheKind::Precompiled,
                            path: p.precompiled_cache.path,
                        },
                    ),
                )
            } else {
                (p, CatalogStateView::Failed(FailureView::UnsupportedPlatform), rest())
            }
        },
        (CatalogStateView::Fetching, EventView::Failed(message)) => (
            p,
            CatalogStateView::Failed(FailureView::Step { message }),
            rest(),
        ),
        (CatalogStateView::Persisting, EventView::Done) => (p, CatalogStateView::Ready, rest()),
        (CatalogStateView::Persisting, EventView::Failed(message)) => (
            p,
            CatalogStateView::Ready,
            TurnView { notes: seq![warning(persist_failed_text(message))], action: None },
        ),
        (CatalogStateView::Ready, _) => (p, s, rest()),
        (CatalogStateView::Failed(_), _) => (p, s, rest()),
        _ => (p, CatalogStateView::Failed(FailureView::Protocol), rest()),
    }
}

impl PythonPlugin {
    /// One step towards the catalog of precompiled archives for the host's
    /// platform, through the plugin's cache.
    pub fn fetch_precompiled_remote_versions(
        &mut self,
        host: &HostContext,
        state: CatalogState,
        event: Event,
    ) -> (r: (CatalogState, Turn))
        ensures
            (final(self)@, r.0@, r.1@) == catalog_step(old(self)@, host@, state@, event@),
            state@ is Idle && event@ is Start && fresh_at(old(self)@.precompiled_cache, host.now)
                ==> final(self)@ == old(self)@ && r.0@ is Ready && r.1@.action is None,
    {
        match (state, event) {
            (CatalogState::Idle, Event::Start) => {
                if self.precompiled_cache.fresh(host.now) {
                    (CatalogState::Ready, Turn::rest())
                } else if !host.platform.supported() {
                    (CatalogState::Failed(Failure::UnsupportedPlatform), Turn::rest())
                } else {
                    (
                        CatalogState::Fetching,
                        Turn::act(
                            Action::FetchText {
                                url: "http://mise-versions.jdx.dev/python-precompiled".to_owned(),
                            },
                        ),
                    )
                }
            },
            (CatalogState::Fetching, Event::Text(raw)) => {
                if host.platform.supported() {
                    let tag = host.platform.tag();
                    let catalog = parse_catalog(raw.as_str(), tag.as_str());
                    self.precompiled_cache.put(catalog, host.now);
                    (
                        CatalogState::Persisting,
                        Turn::act(
                            Action::Persist {
                                cache: CacheKind::Precompiled,
                                path: self.precompiled_cache.path.clone(),
                            },
                        ),
                    )
                } else {
                    (CatalogState::Failed(Failure::UnsupportedPlatform), Turn::rest())
                }
            },
            (CatalogState::Fetching, Event::Failed(message)) => (
                CatalogState::Failed(Failure::Step { message }),
                Turn::rest(),
            ),
            (CatalogState::Persisting, Event::Done) => (CatalogState::Ready, Turn::rest()),
            (CatalogState::Persisting, Event::Failed(message)) => {
                let text = join2("failed to write cache file: ", message.as_str());
                (CatalogState::Ready, Turn::rest().note(Note::warning(text)))
            },
            (CatalogState::Ready, _) => (CatalogState::Ready, Turn::rest()),
            (CatalogState::Failed(f), _) => (CatalogState::Failed(f), Turn::rest()),
            _ => (CatalogState::Failed(Failure::Protocol), Turn::rest()),
        }
    }
}

/// While the catalog is fresh it is handed out as it is: the plugin stays
/// as it was and the host is asked for nothing, so nothing is fetched.
pub proof fn lemma_fresh_catalog_is_reused(p: PythonPluginView, host: HostContextView)
    requires
        fresh_at(p.precompiled_cache, host.now),
    ensures
        catalog_step(p, host, CatalogStateView::Idle, EventView::Start) == (
            p,
            CatalogStateView::Ready,
            rest(),
        ),
{
}

/// A fetched catalog serves every read within the freshness window: a read
/// at any time `later` before the window ends finds the catalog that was
/// read from the feed, unchanged, and fetches nothing.
pub proof fn lemma_catalog_serves_its_window(
    p: PythonPluginView,
    host: HostContextView,
    raw: Seq<char>,
    later: HostContextView,
)
    requires
        os_known(host.platform),
        arch_known(host.platform),
        host.now <= later.now < host.now + p.precompiled_cache.fresh_duration,
    ensures
        ({
            let p1 = catalog_step(p, host, CatalogStateView::Fetching, EventView::Text(raw)).0;
            &&& p1.precompiled_cache.value == Some(catalog_of(raw, platform_tag(host.platform)))
            &&& catalog_step(p1, later, CatalogStateView::Idle, EventView::Start) == (
                p1,
                CatalogStateView::Ready,
                rest(),
            )
        }),
{
}

/// Once the window has passed the catalog is fetched anew.
pub proof fn lemma_stale_catalog_is_fetched(p: PythonPluginView, host: HostContextView)
    requires
        os_known(host.platform),
        arch_known(host.platform),
        host.now >= p.precompiled_cache.stored_at + p.precompiled_cache.fresh_duration,
    ensures
        catalog_step(p, host, CatalogStateView::Idle, EventView::Start) == (
            p,
            CatalogStateView::Fetching,
            act(ActionView::FetchText { url: feed_url() }),
        ),
{
}

} // verus!
