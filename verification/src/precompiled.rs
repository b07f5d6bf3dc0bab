//! Installing a precompiled archive: choose it, download it, unpack it and
//! put the runtime in place.

use vstd::prelude::*;
use vstd::string::*;
use crate::catalog::{download_url, select, select_entry, PrecompiledEntryView};
use crate::feed::{catalog_step, CatalogState, CatalogStateView};
use crate::plugin::{PythonPlugin, PythonPluginView};
use crate::protocol::{
    act, progress, rest, warning, Action, ActionView, Event, EventView, Failure, FailureView,
    Note, NoteView, Turn, TurnView,
};
use crate::target::{InstallContext, InstallContextView};
use crate::text::{join2, join_path, last_segment, last_segment_of, path_join};

verus! {

/// How far the archive has come.
#[derive(Clone, Debug, PartialEq, Eq)]
pub enum PrecompiledState {
    /// Nothing was asked yet.
    Idle,
    /// Getting the catalog.
    Catalog(CatalogState),
    /// Downloading the archive to `tarball`.
    Downloading { tarball: String },
    /// Unpacking the archive.
    Unpacking,
    /// Removing what stands at the install path.
    Clearing,
    /// Moving the unpacked runtime to the install path.
    Moving,
    /// Linking `python` to the versioned interpreter.
    Linking,
    /// The runtime is in place.
    Installed,
    /// The archive could not be installed.
    Failed(Failure),
}

/// The model of a [`PrecompiledState`].
pub enum PrecompiledStateView {
    Idle,
    Catalog(CatalogStateView),
    Downloading { tarball: Seq<char> },
    Unpacking,
    Clearing,
    Moving,
    Linking,
    Installed,
    Failed(FailureView),
}

impl View for PrecompiledState {
    type V = PrecompiledStateView;

    open spec fn view(&self) -> PrecompiledStateView {
        match self {
            PrecompiledState::Idle => PrecompiledStateView::Idle,
            PrecompiledState::Catalog(c) => PrecompiledStateView::Catalog(c@),
            PrecompiledState::Downloading { tarball } => PrecompiledStateView::Downloading {
                tarball: tarball@,
            },
            PrecompiledState::Unpacking => PrecompiledStateView::Unpacking,
            PrecompiledState::Clearing => PrecompiledStateView::Clearing,
            PrecompiledState::Moving => PrecompiledStateView::Moving,
            PrecompiledState::Linking => PrecompiledStateView::Linking,
            PrecompiledState::Installed => PrecompiledStateView::Installed,
            PrecompiledState::Failed(f) => PrecompiledStateView::Failed(f@),
        }
    }
}

/// What the user is told before a precompiled archive is installed: that
/// this way is experimental, and how to leave it.
pub open spec fn precompiled_opening() -> Seq<NoteView> {
    seq![
        warning("installing precompiled python from indygreg/python-build-standalone"@),
        warning("if you experience issues with this python, switch to python-build"@),
        warning("by running: mise settings set python_compile 0"@),
    ]
}

/// Where the archive of `entry` is staged: under the download path, by the
/// last segment of its URL.
pub open spec fn tarball_path(ctx: InstallContextView, entry: PrecompiledEntryView) -> Seq<char> {
    path_join(ctx.tv.download_path, last_segment(download_url(entry.tag, entry.filename)))
}

/// What follows a step on the catalog. Once the catalog is there, the last
/// entry of the requested version is chosen and its download begins; without
/// such an entry the install fails, naming the version.
pub open spec fn after_catalog(
    p: PythonPluginView,
    ctx: InstallContextView,
    c: CatalogStateView,
    turn: TurnView,
) -> (PrecompiledStateView, TurnView) {
    match c {
        CatalogStateView::Ready => match p.precompiled_cache.value {
            None => (
                PrecompiledStateView::Failed(FailureView::Protocol),
                TurnView { notes: turn.notes, action: None },
            ),
            Some(catalog) => match select(catalog, ctx.tv.version) {
                None => (
                    PrecompiledStateView::Failed(
                        FailureView::NoPrecompiled { version: ctx.tv.version },
                    ),
                    TurnView { notes: turn.notes, action: None },
                ),
                Some(entry) => (
                    PrecompiledStateView::Downloading { tarball: tarball_path(ctx, entry) },
                    TurnView {
                        notes: turn.notes.push(
                            progress("downloading "@ + download_url(entry.tag, entry.filename)),
                        ),
                        action: Some(
                            ActionView::Download {
                                url: download_url(entry.tag, entry.filename),
                                dest: tarball_path(ctx, entry),
                            },
                        ),
                    },
                ),
            },
        },
        CatalogStateView::Failed(f) => (
            PrecompiledStateView::Failed(f),
            TurnView { notes: turn.notes, action: None },
        ),
        _ => (PrecompiledStateView::Catalog(c), turn),
    }
}

/// One step of installing a precompiled archive. Whatever stands at the
/// install path is removed before the runtime is moved there. Any failure of
/// a collaborator is final.
pub open spec fn precompiled_step(
    p: PythonPluginView,
    ctx: InstallContextView,
    s: PrecompiledStateView,
    e: EventView,
) -> (PythonPluginView, PrecompiledStateView, TurnView) {
    match s {
        PrecompiledStateView::Idle => match e {
            EventView::Start => {
                let (p1, c, turn) = catalog_step(p, ctx.host, CatalogStateView::Idle, e);
                let (s1, t1) = after_catalog(
                    p1,
                    ctx,
                    c,
                    TurnView { notes: precompiled_opening() + turn.notes, action: turn.action },
                );
                (p1, s1, t1)
            },
            _ => (p, PrecompiledStateView::Failed(FailureView::Protocol), rest()),
        },
        PrecompiledStateView::Catalog(c0) => {
            let (p1, c, turn) = catalog_step(p, ctx.host, c0, e);
            let (s1, t1) = after_catalog(p1, ctx, c, turn);
            (p1, s1, t1)
        },
        PrecompiledStateView::Installed => (p, s, rest()),
        PrecompiledStateView::Failed(_) => (p, s, rest()),
        _ => match e {
            EventView::Done => match s {
                PrecompiledStateView::Downloading { tarball } => (
                    p,
                    PrecompiledStateView::Unpacking,
                    TurnView {
                        notes: seq![progress("installing "@ + tarball)],
                        action: Some(
                            ActionView::Unpack { archive: tarball, dest: ctx.tv.download_path },
                        ),
                    },
                ),
                PrecompiledStateView::Unpacking => (
                    p,
                    PrecompiledStateView::Clearing,
                    act(ActionView::RemoveAll { path: ctx.tv.install_path }),
                ),
                PrecompiledStateView::Clearing => (
                    p,
                    PrecompiledStateView::Moving,
                    act(
                        ActionView::Rename {
                            from: path_join(ctx.tv.download_path, "python"@),
                            to: ctx.tv.install_path,
                        },
                    ),
                ),
                PrecompiledStateView::Moving => (
                    p,
                    PrecompiledStateView::Linking,
                    act(
                        ActionView::Symlink {
                            target: path_join(ctx.tv.install_path, "bin/python3"@),
                            link: path_join(ctx.tv.install_path, "bin/python"@),
                        },
                    ),
                ),
                PrecompiledStateView::Linking => (p, PrecompiledStateView::Installed, rest()),
                _ => (p, PrecompiledStateView::Failed(FailureView::Protocol), rest()),
            },
            EventView::Failed(message) => (
                p,
                PrecompiledStateView::Failed(FailureView::Step { message }),
                rest(),
            ),
            _ => (p, PrecompiledStateView::Failed(FailureView::Protocol), rest()),
        },
    }
}

impl PythonPlugin {
    /// What follows a step on the catalog: see [`after_catalog`].
    pub fn choose_archive(&self, ctx: &InstallContext, c: CatalogState, turn: Turn) -> (r: (
        PrecompiledState,
        Turn,
    ))
        ensures
            (r.0@, r.1@) == after_catalog(self@, ctx@, c@, turn@),
    {
        match c {
            CatalogState::Ready => match &self.precompiled_cache.value {
                None => (
                    PrecompiledState::Failed(Failure::Protocol),
                    Turn { notes: turn.notes, action: None },
                ),
                Some(catalog) => match select_entry(catalog, ctx.tv.version.as_str()) {
                    None => (
                        PrecompiledState::Failed(
                            Failure::NoPrecompiled { version: ctx.tv.version.clone() },
                        ),
                        Turn { notes: turn.notes, action: None },
                    ),
                    Some(entry) => {
                        let url = entry.url();
                        let name = last_segment_of(url.as_str());
                        let tarball = join_path(ctx.tv.download_path.as_str(), name.as_str());
                        let text = join2("downloading ", url.as_str());
                        let turn = Turn { notes: turn.notes, action: None }.note(
                            Note::progress(text),
                        ).asking(Action::Download { url, dest: tarball.clone() });
                        (PrecompiledState::Downloading { tarball }, turn)
                    },
                },
            },
            CatalogState::Failed(f) => (
                PrecompiledState::Failed(f),
                Turn { notes: turn.notes, action: None },
            ),
            _ => (PrecompiledState::Catalog(c), turn),
        }
    }

    /// One step of installing a precompiled archive of the requested
    /// version: the last entry of that version in the catalog is downloaded,
    /// unpacked, moved to the install path and linked.
    pub fn install_precompiled(&mut self, ctx: &InstallContext, state: PrecompiledState, event: Event) -> (r:
        (PrecompiledState, Turn))
        ensures
            (final(self)@, r.0@, r.1@) == precompiled_step(old(self)@, ctx@, state@, event@),
    {
        match state {
            PrecompiledState::Idle => match event {
                Event::Start => {
                    let (c, turn) = self.fetch_precompiled_remote_versions(
                        &ctx.host,
                        CatalogState::Idle,
                        event,
                    );
                    let mut opening: Vec<Note> = Vec::new();
                    opening.push(
                        Note::warning(
                            "installing precompiled python from indygreg/python-build-standalone".to_owned(),
                        ),
                    );
                    opening.push(
                        Note::warning(
                            "if you experience issues with this python, switch to python-build".to_owned(),
                        ),
                    );
                    opening.push(
                        Note::warning("by running: mise settings set python_compile 0".to_owned()),
                    );
                    proof {
                        assert(opening.deep_view() =~= precompiled_opening());
                    }
                    self.choose_archive(ctx, c, turn.after(opening))
                },
                _ => (PrecompiledState::Failed(Failure::Protocol), Turn::rest()),
            },
            PrecompiledState::Catalog(c0) => {
                let (c, turn) = self.fetch_precompiled_remote_versions(&ctx.host, c0, event);
                self.choose_archive(ctx, c, turn)
            },
            PrecompiledState::Installed => (PrecompiledState::Installed, Turn::rest()),
            PrecompiledState::Failed(f) => (PrecompiledState::Failed(f), Turn::rest()),
            _ => match event {
                Event::Done => match state {
                    PrecompiledState::Downloading { tarball } => {
                        let text = join2("installing ", tarball.as_str());
                        (
                            PrecompiledState::Unpacking,
                            Turn::rest().note(Note::progress(text)).asking(
                                Action::Unpack {
                                    archive: tarball,
                                    dest: ctx.tv.download_path.clone(),
                                },
                            ),
                        )
                    },
                    PrecompiledState::Unpacking => (
                        PrecompiledState::Clearing,
                        Turn::act(Action::RemoveAll { path: ctx.tv.install_path.clone() }),
                    ),
                    PrecompiledState::Clearing => (
                        PrecompiledState::Moving,
                        Turn::act(
                            Action::Rename {
                                from: join_path(ctx.tv.download_path.as_str(), "python"),
                                to: ctx.tv.install_path.clone(),
                            },
                        ),
                    ),
                    PrecompiledState::Moving => (
                        PrecompiledState::Linking,
                        Turn::act(
                            Action::Symlink {
                                target: join_path(ctx.tv.install_path.as_str(), "bin/python3"),
                                link: join_path(ctx.tv.install_path.as_str(), "bin/python"),
                            },
                        ),
                    ),
                    PrecompiledState::Linking => (PrecompiledState::Installed, Turn::rest()),
                    _ => (PrecompiledState::Failed(Failure::Protocol), Turn::rest()),
                },
                Event::Failed(message) => (
                    PrecompiledState::Failed(Failure::Step { message }),
                    Turn::rest(),
                ),
                _ => (PrecompiledState::Failed(Failure::Protocol), Turn::rest()),
            },
        }
    }
}

/// Where the catalog holds no entry of the requested version, the install
/// fails, naming the version, and nothing is downloaded.
pub proof fn lemma_unlisted_version_fails(
    p: PythonPluginView,
    ctx: InstallContextView,
    turn: TurnView,
)
    requires
        p.precompiled_cache.value is Some,
        !crate::catalog::holds_version(p.precompiled_cache.value->0, ctx.tv.version),
    ensures
        after_catalog(p, ctx, CatalogStateView::Ready, turn) == (
            PrecompiledStateView::Failed(FailureView::NoPrecompiled { version: ctx.tv.version }),
            TurnView { notes: turn.notes, action: None },
        ),
{
    crate::catalog::lemma_select_is_last_match(p.precompiled_cache.value->0, ctx.tv.version);
}

/// Where the catalog holds the requested version, the archive that is
/// downloaded is the last entry of that version, from the URL that its
/// release and name give, to a file of that name under the download path.
pub proof fn lemma_listed_version_is_downloaded(
    p: PythonPluginView,
    ctx: InstallContextView,
    turn: TurnView,
)
    requires
        p.precompiled_cache.value is Some,
        crate::catalog::holds_version(p.precompiled_cache.value->0, ctx.tv.version),
    ensures
        select(p.precompiled_cache.value->0, ctx.tv.version) matches Some(entry) && entry.version
            == ctx.tv.version && after_catalog(p, ctx, CatalogStateView::Ready, turn).1.action
            == Some(
            ActionView::Download {
                url: download_url(entry.tag, entry.filename),
                dest: path_join(
                    ctx.tv.download_path,
                    last_segment(download_url(entry.tag, entry.filename)),
                ),
            },
        ),
{
    crate::catalog::lemma_select_is_last_match(p.precompiled_cache.value->0, ctx.tv.version);
}

} // verus!
