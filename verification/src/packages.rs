//! What follows a build: the smoke test and the default packages.

use vstd::prelude::*;
use vstd::string::*;
use crate::plugin::{interpreter_path, PythonPlugin};
use crate::protocol::{
    act, command, progress, rest, Action, ActionView, Command, CommandView, Event, EventView,
    Failure, FailureView, Note, Turn, TurnView,
};
use crate::target::{InstallContext, InstallContextView};
use crate::text::{join_path, path_join};

verus! {

/// How far the default packages have come.
#[derive(Clone, Debug, PartialEq, Eq)]
pub enum PackagesState {
    /// Nothing was asked yet.
    Idle,
    /// Asked whether the requirements file exists.
    Probing,
    /// Installing the packages.
    Installing,
    /// Done: installed, or there was nothing to install.
    Finished,
    /// The packages could not be installed.
    Failed(Failure),
}

/// The model of a [`PackagesState`].
pub enum PackagesStateView {
    Idle,
    Probing,
    Installing,
    Finished,
    Failed(FailureView),
}

impl View for PackagesState {
    type V = PackagesStateView;

    open spec fn view(&self) -> PackagesStateView {
        match self {
            PackagesState::Idle => PackagesStateView::Idle,
            PackagesState::Probing => PackagesStateView::Probing,
            PackagesState::Installing => PackagesStateView::Installing,
            PackagesState::Finished => PackagesStateView::Finished,
            PackagesState::Failed(f) => PackagesStateView::Failed(f@),
        }
    }
}

/// The smoke test: the installed interpreter is asked for its version.
pub open spec fn smoke_test(ctx: InstallContextView) -> TurnView {
    TurnView {
        notes: seq![progress("python --version"@)],
        action: Some(
            ActionView::Run {
                command: command(interpreter_path(ctx.tv), seq!["--version"@], false),
            },
        ),
    }
}

/// The command that installs the default packages.
pub open spec fn packages_command(ctx: InstallContextView) -> CommandView {
    command(
        path_join(ctx.tv.install_path, "bin/python"@),
        seq![
            "-m"@,
            "pip"@,
            "install"@,
            "--upgrade"@,
            "-r"@,
            ctx.host.env.default_packages_file,
        ],
        true,
    )
}

/// One step of installing the default packages. Without a requirements file
/// there is nothing to do.
pub open spec fn packages_step(ctx: InstallContextView, s: PackagesStateView, e: EventView) -> (
    PackagesStateView,
    TurnView,
) {
    match (s, e) {
        (PackagesStateView::Idle, EventView::Start) => (
            PackagesStateView::Probing,
            act(ActionView::Probe { path: ctx.host.env.default_packages_file }),
        ),
        (PackagesStateView::Probing, EventView::Found(false)) => (
            PackagesStateView::Finished,
            rest(),
        ),
        (PackagesStateView::Probing, EventView::Found(true)) => (
            PackagesStateView::Installing,
            TurnView {
                notes: seq![progress("installing default packages"@)],
                action: Some(ActionView::Run { command: packages_command(ctx) }),
            },
        ),
        (PackagesStateView::Installing, EventView::Done) => (PackagesStateView::Finished, rest()),
        (PackagesStateView::Installing, EventView::Failed(message)) => (
            PackagesStateView::Failed(FailureView::Step { message }),
            rest(),
        ),
        (PackagesStateView::Finished, _) => (s, rest()),
        (PackagesStateView::Failed(_), _) => (s, rest()),
        _ => (PackagesStateView::Failed(FailureView::Protocol), rest()),
    }
}

impl PythonPlugin {
    /// The smoke test of an install: run the interpreter with `--version`.
    pub fn test_python(&self, ctx: &InstallContext) -> (turn: Turn)
        ensures
            turn@ == smoke_test(ctx@),
    {
        let cmd = Command::new(self.python_path(&ctx.tv), false).arg("--version".to_owned());
        proof {
            assert(cmd@.args =~= seq!["--version"@]);
        }
        Turn::rest().note(Note::progress("python --version".to_owned())).asking(
            Action::Run { command: cmd },
        )
    }

    /// One step of installing the default packages with the new interpreter.
    pub fn install_default_packages(&self, ctx: &InstallContext, state: PackagesState, event: Event) -> (r:
        (PackagesState, Turn))
        ensures
            (r.0@, r.1@) == packages_step(ctx@, state@, event@),
    {
        match (state, event) {
            (PackagesState::Idle, Event::Start) => (
                PackagesState::Probing,
                Turn::act(Action::Probe { path: ctx.host.env.default_packages_file.clone() }),
            ),
            (PackagesState::Probing, Event::Found(false)) => (
                PackagesState::Finished,
                Turn::rest(),
            ),
            (PackagesState::Probing, Event::Found(true)) => {
                let cmd = Command::new(join_path(ctx.tv.install_path.as_str(), "bin/python"), true)
                    .arg("-m".to_owned()).arg("pip".to_owned()).arg("install".to_owned()).arg(
                    "--upgrade".to_owned(),
                ).arg("-r".to_owned()).arg(ctx.host.env.default_packages_file.clone());
                proof {
                    assert(cmd@.args =~= packages_command(ctx@).args);
                }
                (
                    PackagesState::Installing,
                    Turn::rest().note(
                        Note::progress("installing default packages".to_owned()),
                    ).asking(Action::Run { command: cmd }),
                )
            },
            (PackagesState::Installing, Event::Done) => (PackagesState::Finished, Turn::rest()),
            (PackagesState::Installing, Event::Failed(message)) => (
                PackagesState::Failed(Failure::Step { message }),
                Turn::rest(),
            ),
            (PackagesState::Finished, _) => (PackagesState::Finished, Turn::rest()),
            (PackagesState::Failed(f), _) => (PackagesState::Failed(f), Turn::rest()),
            _ => (PackagesState::Failed(Failure::Protocol), Turn::rest()),
        }
    }
}

} // verus!
