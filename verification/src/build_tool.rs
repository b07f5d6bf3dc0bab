//! Keeping the build utility's working copy in place: cloned when it is
//! missing, updated when it is there.

use vstd::prelude::*;
use vstd::string::*;
use crate::plugin::{build_path, PythonPlugin, PythonPluginView};
use crate::protocol::{
    act, rest, warning, Action, ActionView, Event, EventView, Failure, FailureView, Note, Turn,
    TurnView,
};
use crate::target::{Environment, EnvironmentView};
use crate::text::join2;

verus! {

/// How far the working copy has come.
#[derive(Clone, Debug, PartialEq, Eq)]
pub enum BuildToolState {
    /// Nothing was asked yet.
    Idle,
    /// Asked whether the working copy exists.
    Probing,
    /// Creating the directory that will hold the clone.
    MakingDirs,
    /// Cloning.
    Cloning,
    /// Updating the clone.
    Updating,
    /// The working copy can be used.
    Ready,
    /// The working copy could not be had.
    Failed(Failure),
}

/// The model of a [`BuildToolState`].
pub enum BuildToolStateView {
    Idle,
    Probing,
    MakingDirs,
    Cloning,
    Updating,
    Ready,
    Failed(FailureView),
}

impl View for BuildToolState {
    type V = BuildToolStateView;

    open spec fn view(&self) -> BuildToolStateView {
        match self {
            BuildToolState::Idle => BuildToolStateView::Idle,
            BuildToolState::Probing => BuildToolStateView::Probing,
            BuildToolState::MakingDirs => BuildToolStateView::MakingDirs,
            BuildToolState::Cloning => BuildToolStateView::Cloning,
            BuildToolState::Updating => BuildToolStateView::Updating,
            BuildToolState::Ready => BuildToolStateView::Ready,
            BuildToolState::Failed(f) => BuildToolStateView::Failed(f@),
        }
    }
}

/// What is said when the clone could not be updated.
pub open spec fn update_failed_text(message: Seq<char>) -> Seq<char> {
    "failed to update python-build: "@ + message
}

/// Cloning the working copy. The directory above it is made first. Any
/// failure on this way is final: there is nothing to fall back on.
pub open spec fn install_build_tool_step(
    p: PythonPluginView,
    env: EnvironmentView,
    s: BuildToolStateView,
    e: EventView,
) -> (BuildToolStateView, TurnView) {
    match (s, e) {
        (BuildToolStateView::Probing, EventView::Found(false)) => (
            BuildToolStateView::MakingDirs,
            act(ActionView::MakeDirs { path: p.cache_path }),
        ),
        (BuildToolStateView::MakingDirs, EventView::Done) => (
            BuildToolStateView::Cloning,
            act(ActionView::Clone { url: env.build_tool_repo, dest: build_path(p) }),
        ),
        (BuildToolStateView::Cloning, EventView::Done) => (BuildToolStateView::Ready, rest()),
        (BuildToolStateView::MakingDirs, EventView::Failed(message)) => (
            BuildToolStateView::Failed(FailureView::Step { message }),
            rest(),
        ),
        (BuildToolStateView::Cloning, EventView::Failed(message)) => (
            BuildToolStateView::Failed(FailureView::Step { message }),
            rest(),
        ),
        _ => (BuildToolStateView::Failed(FailureView::Protocol), rest()),
    }
}

/// Updating the working copy. A failed update is reported and the copy is
/// used as it is.
pub open spec fn update_build_tool_step(p: PythonPluginView, s: BuildToolStateView, e: EventView) -> (
    BuildToolStateView,
    TurnView,
) {
    match (s, e) {
        (BuildToolStateView::Probing, EventView::Found(true)) => (
            BuildToolStateView::Updating,
            act(ActionView::Update { dest: build_path(p) }),
        ),
        (BuildToolStateView::Updating, EventView::Done) => (BuildToolStateView::Ready, rest()),
        (BuildToolStateView::Updating, EventView::Failed(message)) => (
            BuildToolStateView::Ready,
            TurnView { notes: seq![warning(update_failed_text(message))], action: None },
        ),
        _ => (BuildToolStateView::Failed(FailureView::Protocol), rest()),
    }
}

/// One step towards a usable working copy.
pub open spec fn build_tool_step(
    p: PythonPluginView,
    env: EnvironmentView,
    s: BuildToolStateView,
    e: EventView,
) -> (BuildToolStateView, TurnView) {
    match s {
        BuildToolStateView::Idle => match e {
            EventView::Start => (
                BuildToolStateView::Probing,
                act(ActionView::Probe { path: build_path(p) }),
            ),
            _ => (BuildToolStateView::Failed(FailureView::Protocol), rest()),
        },
        BuildToolStateView::Probing => match e {
            EventView::Found(true) => update_build_tool_step(p, s, e),
            _ => install_build_tool_step(p, env, s, e),
        },
        BuildToolStateView::MakingDirs => install_build_tool_step(p, env, s, e),
        BuildToolStateView::Cloning => install_build_tool_step(p, env, s, e),
        BuildToolStateView::Updating => update_build_tool_step(p, s, e),
        BuildToolStateView::Ready => (s, rest()),
        BuildToolStateView::Failed(_) => (s, rest()),
    }
}

impl PythonPlugin {
    /// Clones the build utility where it is missing.
    pub fn install_python_build(&self, env: &Environment, state: BuildToolState, event: Event) -> (r:
        (BuildToolState, Turn))
        ensures
            (r.0@, r.1@) == install_build_tool_step(self@, env@, state@, event@),
    {
        match (state, event) {
            (BuildToolState::Probing, Event::Found(false)) => (
                BuildToolState::MakingDirs,
                Turn::act(Action::MakeDirs { path: self.cache_path.clone() }),
            ),
            (BuildToolState::MakingDirs, Event::Done) => (
                BuildToolState::Cloning,
                Turn::act(
                    Action::Clone {
                        url: env.build_tool_repo.clone(),
                        dest: self.python_build_path(),
                    },
                ),
            ),
            (BuildToolState::Cloning, Event::Done) => (BuildToolState::Ready, Turn::rest()),
            (BuildToolState::MakingDirs, Event::Failed(message)) => (
                BuildToolState::Failed(Failure::Step { message }),
                Turn::rest(),
            ),
            (BuildToolState::Cloning, Event::Failed(message)) => (
                BuildToolState::Failed(Failure::Step { message }),
                Turn::rest(),
            ),
            _ => (BuildToolState::Failed(Failure::Protocol), Turn::rest()),
        }
    }

    /// Updates the build utility where it is present.
    pub fn update_python_build(&self, state: BuildToolState, event: Event) -> (r: (
        BuildToolState,
        Turn,
    ))
        ensures
            (r.0@, r.1@) == update_build_tool_step(self@, state@, event@),
    {
        match (state, event) {
            (BuildToolState::Probing, Event::Found(true)) => (
                BuildToolState::Updating,
                Turn::act(Action::Update { dest: self.python_build_path() }),
            ),
            (BuildToolState::Updating, Event::Done) => (BuildToolState::Ready, Turn::rest()),
            (BuildToolState::Updating, Event::Failed(message)) => {
                let text = join2("failed to update python-build: ", message.as_str());
                (BuildToolState::Ready, Turn::rest().note(Note::warning(text)))
            },
            _ => (BuildToolState::Failed(Failure::Protocol), Turn::rest()),
        }
    }

    /// One step towards a usable build utility: asks whether the working copy
    /// exists, then has it updated or cloned.
    pub fn install_or_update_python_build(
        &self,
        env: &Environment,
        state: BuildToolState,
        event: Event,
    ) -> (r: (BuildToolState, Turn))
        ensures
            (r.0@, r.1@) == build_tool_step(self@, env@, state@, event@),
    {
        match state {
            BuildToolState::Idle => match event {
                Event::Start => (
                    BuildToolState::Probing,
                    Turn::act(Action::Probe { path: self.python_build_path() }),
                ),
                _ => (BuildToolState::Failed(Failure::Protocol), Turn::rest()),
            },
            BuildToolState::Probing => match event {
                Event::Found(true) => self.update_python_build(state, event),
                _ => self.install_python_build(env, state, event),
            },
            BuildToolState::MakingDirs => self.install_python_build(env, state, event),
            BuildToolState::Cloning => self.install_python_build(env, state, event),
            BuildToolState::Updating => self.update_python_build(state, event),
            BuildToolState::Ready => (state, Turn::rest()),
            BuildToolState::Failed(_) => (state, Turn::rest()),
        }
    }
}

} // verus!
