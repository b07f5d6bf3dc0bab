//! The virtual environment of an install: where it lies, whether it is
//! there, and what is done when it is not.

use vstd::prelude::*;
use vstd::string::*;
use crate::plugin::{interpreter_path, PythonPlugin};
use crate::protocol::{
    act, command, info, rest, warning, Action, ActionView, Command, CommandView, Event, EventView,
    Failure, FailureView, Note, NoteView, Turn, TurnView,
};
use crate::target::{option_of, InstallContext, InstallContextView};
use crate::text::{chars_of, join2, join_path, path_join, text_of};

verus! {

/// A resolved virtual environment.
#[derive(Clone, Debug, PartialEq, Eq)]
pub struct VirtualEnv {
    /// The environment's directory.
    pub path: String,
    /// Whether the resolution created it; otherwise it was there before.
    pub created: bool,
}

/// The model of a [`VirtualEnv`].
pub struct VirtualEnvView {
    pub path: Seq<char>,
    pub created: bool,
}

impl DeepView for VirtualEnv {
    type V = VirtualEnvView;

    open spec fn deep_view(&self) -> VirtualEnvView {
        VirtualEnvView { path: self.path@, created: self.created }
    }
}

/// How far the resolution has come.
#[derive(Clone, Debug, PartialEq, Eq)]
pub enum VenvState {
    /// Nothing was asked yet.
    Idle,
    /// Asked whether the environment's directory exists.
    Probing { path: String },
    /// Creating the environment.
    Creating { path: String },
    /// Done: the environment, or none.
    Resolved(Option<VirtualEnv>),
    /// The environment could not be created.
    Failed(Failure),
}

/// The model of a [`VenvState`].
pub enum VenvStateView {
    Idle,
    Probing { path: Seq<char> },
    Creating { path: Seq<char> },
    Resolved(Option<VirtualEnvView>),
    Failed(FailureView),
}

impl View for VenvState {
    type V = VenvStateView;

    open spec fn view(&self) -> VenvStateView {
        match self {
            VenvState::Idle => VenvStateView::Idle,
            VenvState::Probing { path } => VenvStateView::Probing { path: path@ },
            VenvState::Creating { path } => VenvStateView::Creating { path: path@ },
            VenvState::Resolved(path) => VenvStateView::Resolved(path.deep_view()),
            VenvState::Failed(f) => VenvStateView::Failed(f@),
        }
    }
}

/// Whether a path is absolute.
pub open spec fn is_absolute(path: Seq<char>) -> bool {
    path.len() > 0 && path[0] == '/'
}

/// `path` with a leading `~/` replaced by the home directory.
pub open spec fn expand_home(path: Seq<char>, home: Seq<char>) -> Seq<char> {
    if path.len() >= 2 && path[0] == '~' && path[1] == '/' {
        path_join(home, path.subrange(2, path.len() as int))
    } else {
        path
    }
}

/// Where the environment named by `option` lies: placeholders expanded, and
/// a relative path taken from the project's root directory, if there is one.
pub open spec fn venv_path(ctx: InstallContextView, option: Seq<char>) -> Seq<char> {
    let expanded = expand_home(option, ctx.host.env.home);
    if is_absolute(expanded) {
        expanded
    } else {
        match ctx.host.env.project_root {
            Some(root) => path_join(root, expanded),
            None => expanded,
        }
    }
}

/// What is said when environments are used without experimental features.
pub open spec fn experimental_text() -> Seq<char> {
    "please enable experimental mode with `mise settings set experimental true` to use python virtualenv activation"@
}

/// What is said before an environment is created.
pub open spec fn setting_up_text(path: Seq<char>) -> Seq<char> {
    "setting up virtualenv at: "@ + path
}

/// What is said when the environment is missing and is not to be created:
/// how to have it created, and how to create it by hand.
pub open spec fn guidance_text(path: Seq<char>) -> Seq<char> {
    "no venv found at: "@ + path
        + "\n\nTo have mise automatically create virtualenvs, run:\nmise settings set python_venv_auto_create true\n\nTo create a virtualenv manually, run:\npython -m venv "@
        + path
}

/// The command that creates an environment at `path`.
pub open spec fn venv_command(ctx: InstallContextView, path: Seq<char>, report: bool) -> CommandView {
    command(interpreter_path(ctx.tv), seq!["-m"@, "venv"@, path], report)
}

/// The messages shown when the resolution begins.
pub open spec fn venv_opening(ctx: InstallContextView) -> Seq<NoteView> {
    if ctx.host.settings.experimental {
        seq![]
    } else {
        seq![warning(experimental_text())]
    }
}

/// One step of resolving the virtual environment.
pub open spec fn venv_step(ctx: InstallContextView, report: bool, s: VenvStateView, e: EventView) -> (
    VenvStateView,
    TurnView,
) {
    match (s, e) {
        (VenvStateView::Idle, EventView::Start) => match option_of(ctx.tv.opts, "virtualenv"@) {
            None => (VenvStateView::Resolved(None), rest()),
            Some(option) => (
                VenvStateView::Probing { path: venv_path(ctx, option) },
                TurnView {
                    notes: venv_opening(ctx),
                    action: Some(ActionView::Probe { path: venv_path(ctx, option) }),
                },
            ),
        },
        (VenvStateView::Probing { path }, EventView::Found(true)) => (
            VenvStateView::Resolved(Some(VirtualEnvView { path, created: false })),
            rest(),
        ),
        (VenvStateView::Probing { path }, EventView::Found(false)) => {
            if ctx.host.settings.python_venv_auto_create {
                (
                    VenvStateView::Creating { path },
                    TurnView {
                        notes: seq![info(setting_up_text(path))],
                        action: Some(ActionView::Run { command: venv_command(ctx, path, report) }),
                    },
                )
            } else {
                (
                    VenvStateView::Resolved(None),
                    TurnView { notes: seq![warning(guidance_text(path))], action: None },
                )
            }
        },
        (VenvStateView::Creating { path }, EventView::Done) => (
            VenvStateView::Resolved(Some(VirtualEnvView { path, created: true })),
            rest(),
        ),
        (VenvStateView::Creating { path }, EventView::Failed(message)) => (
            VenvStateView::Failed(FailureView::Step { message }),
            rest(),
        ),
        (VenvStateView::Resolved(_), _) => (s, rest()),
        (VenvStateView::Failed(_), _) => (s, rest()),
        _ => (VenvStateView::Failed(FailureView::Protocol), rest()),
    }
}

/// The variables that activate a resolved environment.
pub open spec fn activation(s: VenvStateView) -> Seq<(Seq<char>, Seq<char>)> {
    match s {
        VenvStateView::Resolved(Some(venv)) => seq![
            ("VIRTUAL_ENV"@, venv.path),
            ("MISE_ADD_PATH"@, path_join(venv.path, "bin"@)),
        ],
        _ => seq![],
    }
}

/// What is said when the environment could not be had.
pub open spec fn venv_failed_text(message: Seq<char>) -> Seq<char> {
    "failed to get virtualenv: "@ + message
}

/// The messages that go with [`activation`].
pub open spec fn activation_notes(s: VenvStateView) -> Seq<NoteView> {
    match s {
        VenvStateView::Failed(f) => seq![warning(venv_failed_text(crate::protocol::failure_text(f)))],
        _ => seq![],
    }
}

/// `path` with a leading `~/` replaced by `home`.
pub fn replace_home(path: &str, home: &str) -> (out: String)
    ensures
        out@ == expand_home(path@, home@),
{
    let chars = chars_of(path);
    if chars.len() >= 2 && chars[0] == '~' && chars[1] == '/' {
        let tail = text_of(&chars, 2, chars.len());
        join_path(home, tail.as_str())
    } else {
        path.to_owned()
    }
}

/// Where the environment named by `option` lies.
pub fn resolve_venv_path(ctx: &InstallContext, option: &str) -> (out: String)
    ensures
        out@ == venv_path(ctx@, option@),
{
    let expanded = replace_home(option, ctx.host.env.home.as_str());
    let chars = chars_of(expanded.as_str());
    if chars.len() > 0 && chars[0] == '/' {
        expanded
    } else {
        match &ctx.host.env.project_root {
            Some(root) => join_path(root.as_str(), expanded.as_str()),
            None => expanded,
        }
    }
}

impl PythonPlugin {
    /// One step of resolving the virtual environment of an install. Without
    /// the `virtualenv` option there is none. A missing environment is
    /// created only where the settings ask for it; otherwise the user is
    /// told how to create it and none is resolved. `report` says whether the
    /// creation shows its progress.
    pub fn get_virtualenv(&self, ctx: &InstallContext, report: bool, state: VenvState, event: Event) -> (r:
        (VenvState, Turn))
        ensures
            (r.0@, r.1@) == venv_step(ctx@, report, state@, event@),
            state@ is Probing && event@ == EventView::Found(false)
                && !ctx.host.settings.python_venv_auto_create ==> r.0@ == VenvStateView::Resolved(
                None,
            ) && r.1@.action is None && r.1@.notes.len() == 1,
    {
        match (state, event) {
            (VenvState::Idle, Event::Start) => match ctx.tv.option("virtualenv") {
                None => (VenvState::Resolved(None), Turn::rest()),
                Some(option) => {
                    let path = resolve_venv_path(ctx, option.as_str());
                    let mut turn = Turn::rest();
                    if !ctx.host.settings.experimental {
                        turn = turn.note(
                            Note::warning(
                                "please enable experimental mode with `mise settings set experimental true` to use python virtualenv activation".to_owned(),
                            ),
                        );
                    }
                    let probe = Action::Probe { path: path.clone() };
                    proof {
                        assert(turn@.notes =~= venv_opening(ctx@));
                    }
                    (VenvState::Probing { path }, turn.asking(probe))
                },
            },
            (VenvState::Probing { path }, Event::Found(true)) => (
                VenvState::Resolved(Some(VirtualEnv { path, created: false })),
                Turn::rest(),
            ),
            (VenvState::Probing { path }, Event::Found(false)) => {
                if ctx.host.settings.python_venv_auto_create {
                    let text = join2("setting up virtualenv at: ", path.as_str());
                    let cmd = Command::new(self.python_path(&ctx.tv), report).arg(
                        "-m".to_owned(),
                    ).arg("venv".to_owned()).arg(path.clone());
                    proof {
                        assert(cmd@.args =~= seq!["-m"@, "venv"@, path@]);
                    }
                    let turn = Turn::rest().note(Note::info(text)).asking(
                        Action::Run { command: cmd },
                    );
                    (VenvState::Creating { path }, turn)
                } else {
                    let mut text = join2("no venv found at: ", path.as_str());
                    text.append(
                        "\n\nTo have mise automatically create virtualenvs, run:\nmise settings set python_venv_auto_create true\n\nTo create a virtualenv manually, run:\npython -m venv ",
                    );
                    text.append(path.as_str());
                    (VenvState::Resolved(None), Turn::rest().note(Note::warning(text)))
                }
            },
            (VenvState::Creating { path }, Event::Done) => (
                VenvState::Resolved(Some(VirtualEnv { path, created: true })),
                Turn::rest(),
            ),
            (VenvState::Creating { path }, Event::Failed(message)) => (
                VenvState::Failed(Failure::Step { message }),
                Turn::rest(),
            ),
            (VenvState::Resolved(path), _) => (VenvState::Resolved(path), Turn::rest()),
            (VenvState::Failed(f), _) => (VenvState::Failed(f), Turn::rest()),
            _ => (VenvState::Failed(Failure::Protocol), Turn::rest()),
        }
    }

    /// The environment variables under which commands of this version run,
    /// given how the resolution of its virtual environment ended: the
    /// environment's root and the directory of its executables when one was
    /// resolved, nothing otherwise. A failed resolution is reported and
    /// leaves the variables empty.
    pub fn exec_env(&self, venv: &VenvState) -> (r: (Vec<(String, String)>, Vec<Note>))
        ensures
            r.0.deep_view() == activation(venv@),
            r.1.deep_view() == activation_notes(venv@),
    {
        let mut vars: Vec<(String, String)> = Vec::new();
        let mut notes: Vec<Note> = Vec::new();
        match venv {
            VenvState::Resolved(Some(venv)) => {
                let bin = join_path(venv.path.as_str(), "bin");
                vars.push(("VIRTUAL_ENV".to_owned(), venv.path.clone()));
                vars.push(("MISE_ADD_PATH".to_owned(), bin));
            },
            VenvState::Failed(f) => {
                let message = f.message();
                notes.push(Note::warning(join2("failed to get virtualenv: ", message.as_str())));
            },
            _ => {},
        }
        proof {
            assert(vars.deep_view() =~= activation(venv@));
            assert(notes.deep_view() =~= activation_notes(venv@));
        }
        (vars, notes)
    }
}

/// A missing environment is not created unless the settings ask for it:
/// the resolution ends without an environment, tells the user what to do,
/// and asks the host for nothing.
pub proof fn lemma_missing_venv_is_not_created(
    ctx: InstallContextView,
    report: bool,
    path: Seq<char>,
)
    requires
        !ctx.host.settings.python_venv_auto_create,
    ensures
        venv_step(ctx, report, VenvStateView::Probing { path }, EventView::Found(false)) == (
            VenvStateView::Resolved(None),
            TurnView { notes: seq![warning(guidance_text(path))], action: None },
        ),
{
}

/// Without the `virtualenv` option no environment is resolved and nothing
/// is asked of the host.
pub proof fn lemma_no_option_no_venv(ctx: InstallContextView, report: bool)
    requires
        option_of(ctx.tv.opts, "virtualenv"@) is None,
    ensures
        venv_step(ctx, report, VenvStateView::Idle, EventView::Start) == (
            VenvStateView::Resolved(None),
            rest(),
        ),
        activation(VenvStateView::Resolved(None)) == Seq::<(Seq<char>, Seq<char>)>::empty(),
{
}

} // verus!
