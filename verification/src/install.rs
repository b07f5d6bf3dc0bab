//! The install of one version, from the choice of a strategy to the steps
//! that follow a working interpreter.

use vstd::prelude::*;
use vstd::string::*;
use crate::build_tool::{build_tool_step, BuildToolState, BuildToolStateView};
use crate::packages::{packages_step, smoke_test, PackagesState, PackagesStateView};
use crate::plugin::{build_bin, PythonPlugin, PythonPluginView};
use crate::precompiled::{precompiled_step, PrecompiledState, PrecompiledStateView};
use crate::protocol::{
    failure_text, progress, rest, warning, Action, ActionView, Command, CommandView, Event,
    EventView, Failure, FailureView, Note, NoteView, Turn, TurnView,
};
use crate::settings::wants_precompiled;
use crate::target::{InstallContext, InstallContextView, RequestKind};
use crate::text::{join2, join_path, path_join};
use crate::venv::{venv_failed_text, venv_step, VenvState, VenvStateView};

verus! {

/// How far an install has come.
#[derive(Clone, Debug, PartialEq, Eq)]
pub enum InstallState {
    /// Nothing was decided yet.
    Start,
    /// Installing a precompiled archive.
    Precompiled(PrecompiledState),
    /// Getting the build utility in place.
    BuildTool(BuildToolState),
    /// Fetching the patch from its URL; `command` is the build so far.
    FetchingPatch { command: Command },
    /// Reading the version's patch file at `path`.
    ReadingPatch { command: Command, path: String },
    /// The build utility runs.
    Building,
    /// The smoke test runs.
    Testing,
    /// Resolving the virtual environment.
    Venv(VenvState),
    /// Installing the default packages.
    Packages(PackagesState),
    /// The install succeeded.
    Complete,
    /// The install failed.
    Failed(Failure),
}

/// The model of an [`InstallState`].
pub enum InstallStateView {
    Start,
    Precompiled(PrecompiledStateView),
    BuildTool(BuildToolStateView),
    FetchingPatch { command: CommandView },
    ReadingPatch { command: CommandView, path: Seq<char> },
    Building,
    Testing,
    Venv(VenvStateView),
    Packages(PackagesStateView),
    Complete,
    Failed(FailureView),
}

impl View for InstallState {
    type V = InstallStateView;

    open spec fn view(&self) -> InstallStateView {
        match self {
            InstallState::Start => InstallStateView::Start,
            InstallState::Precompiled(s) => InstallStateView::Precompiled(s@),
            InstallState::BuildTool(s) => InstallStateView::BuildTool(s@),
            InstallState::FetchingPatch { command } => InstallStateView::FetchingPatch {
                command: command@,
            },
            InstallState::ReadingPatch { command, path } => InstallStateView::ReadingPatch {
                command: command@,
                path: path@,
            },
            InstallState::Building => InstallStateView::Building,
            InstallState::Testing => InstallStateView::Testing,
            InstallState::Venv(s) => InstallStateView::Venv(s@),
            InstallState::Packages(s) => InstallStateView::Packages(s@),
            InstallState::Complete => InstallStateView::Complete,
            InstallState::Failed(f) => InstallStateView::Failed(f@),
        }
    }
}

/// The stages that an install passes through, in this order; `Failed` can
/// follow any stage but the last.
#[derive(Clone, Copy, Debug, PartialEq, Eq, Structural)]
pub enum Stage {
    Start,
    /// The strategy is chosen and being carried out.
    StrategySelected,
    /// The runtime is in place and is being tested.
    StrategyExecuted,
    /// The runtime works; what follows cannot fail the install.
    Validated,
    PostInstallComplete,
    Failed,
}

/// The stage of a state.
pub open spec fn stage_of(s: InstallStateView) -> Stage {
    match s {
        InstallStateView::Start => Stage::Start,
        InstallStateView::Precompiled(_) => Stage::StrategySelected,
        InstallStateView::BuildTool(_) => Stage::StrategySelected,
        InstallStateView::FetchingPatch { .. } => Stage::StrategySelected,
        InstallStateView::ReadingPatch { .. } => Stage::StrategySelected,
        InstallStateView::Building => Stage::StrategySelected,
        InstallStateView::Testing => Stage::StrategyExecuted,
        InstallStateView::Venv(_) => Stage::Validated,
        InstallStateView::Packages(_) => Stage::Validated,
        InstallStateView::Complete => Stage::PostInstallComplete,
        InstallStateView::Failed(_) => Stage::Failed,
    }
}

/// The build utility's command for the requested version: the version, the
/// install path, and `--verbose` where the settings ask for it.
pub open spec fn build_command(p: PythonPluginView, ctx: InstallContextView) -> CommandView {
    CommandView {
        program: build_bin(p),
        args: if ctx.host.settings.verbose {
            seq![ctx.tv.version, ctx.tv.install_path, "--verbose"@]
        } else {
            seq![ctx.tv.version, ctx.tv.install_path]
        },
        stdin: None,
        report: true,
        timed: false,
    }
}

/// `command` told to apply the patch `text`, which it reads from its input.
pub open spec fn patched(command: CommandView, text: Seq<char>) -> CommandView {
    CommandView { args: command.args.push("--patch"@), stdin: Some(text), ..command }
}

/// The patch file of the requested version in the directory `dir`.
pub open spec fn patch_file(ctx: InstallContextView, dir: Seq<char>) -> Seq<char> {
    path_join(dir, ctx.tv.version + ".patch"@)
}

/// What is said when the default packages could not be installed.
pub open spec fn packages_failed_text(message: Seq<char>) -> Seq<char> {
    "failed to install default packages: "@ + message
}

/// What follows the remote patch: the version's patch file is read where a
/// patch directory is configured, else the build runs.
pub open spec fn after_remote_patch(
    ctx: InstallContextView,
    command: CommandView,
    notes: Seq<NoteView>,
) -> (InstallStateView, TurnView) {
    match ctx.host.env.patches_directory {
        Some(dir) => (
            InstallStateView::ReadingPatch { command, path: patch_file(ctx, dir) },
            TurnView { notes, action: Some(ActionView::ReadFile { path: patch_file(ctx, dir) }) },
        ),
        None => (
            InstallStateView::Building,
            TurnView { notes, action: Some(ActionView::Run { command }) },
        ),
    }
}

/// What follows a step on the build utility. Once it is in place the build
/// is planned: a patch is fetched first where a URL is configured.
pub open spec fn after_build_tool(
    p: PythonPluginView,
    ctx: InstallContextView,
    b: BuildToolStateView,
    turn: TurnView,
) -> (InstallStateView, TurnView) {
    match b {
        BuildToolStateView::Ready => match ctx.host.env.patch_url {
            Some(url) => (
                InstallStateView::FetchingPatch { command: build_command(p, ctx) },
                TurnView {
                    notes: turn.notes.push(progress("Running python-build"@)).push(
                        progress("with patch file from: "@ + url),
                    ),
                    action: Some(ActionView::FetchText { url }),
                },
            ),
            None => after_remote_patch(
                ctx,
                build_command(p, ctx),
                turn.notes.push(progress("Running python-build"@)),
            ),
        },
        BuildToolStateView::Failed(f) => (
            InstallStateView::Failed(f),
            TurnView { notes: turn.notes, action: None },
        ),
        _ => (InstallStateView::BuildTool(b), turn),
    }
}

/// What follows a step on the precompiled archive: the smoke test, once the
/// runtime is in place.
pub open spec fn after_precompiled(ctx: InstallContextView, s: PrecompiledStateView, turn: TurnView) -> (
    InstallStateView,
    TurnView,
) {
    match s {
        PrecompiledStateView::Installed => (
            InstallStateView::Testing,
            TurnView {
                notes: turn.notes + smoke_test(ctx).notes,
                action: smoke_test(ctx).action,
            },
        ),
        PrecompiledStateView::Failed(f) => (
            InstallStateView::Failed(f),
            TurnView { notes: turn.notes, action: None },
        ),
        _ => (InstallStateView::Precompiled(s), turn),
    }
}

/// What follows a step on the default packages. Their failure is reported
/// and the install is complete all the same.
pub open spec fn after_packages(k: PackagesStateView, turn: TurnView) -> (InstallStateView, TurnView) {
    match k {
        PackagesStateView::Finished => (
            InstallStateView::Complete,
            TurnView { notes: turn.notes, action: None },
        ),
        PackagesStateView::Failed(f) => (
            InstallStateView::Complete,
            TurnView {
                notes: turn.notes.push(warning(packages_failed_text(failure_text(f)))),
                action: None,
            },
        ),
        _ => (InstallStateView::Packages(k), turn),
    }
}

/// The default packages begin, after `notes` were shown.
pub open spec fn begin_packages(ctx: InstallContextView, notes: Seq<NoteView>) -> (
    InstallStateView,
    TurnView,
) {
    let (k, turn) = packages_step(ctx, PackagesStateView::Idle, EventView::Start);
    after_packages(k, TurnView { notes: notes + turn.notes, action: turn.action })
}

/// What follows a step on the virtual environment. Its failure is reported
/// and the install goes on with the default packages.
pub open spec fn after_venv(ctx: InstallContextView, v: VenvStateView, turn: TurnView) -> (
    InstallStateView,
    TurnView,
) {
    match v {
        VenvStateView::Resolved(_) => begin_packages(ctx, turn.notes),
        VenvStateView::Failed(f) => begin_packages(
            ctx,
            turn.notes.push(warning(venv_failed_text(failure_text(f)))),
        ),
        _ => (InstallStateView::Venv(v), turn),
    }
}

/// One step of an install.
///
/// The strategy is chosen from the settings. A build from source refuses a
/// symbolic reference before anything is touched, gets the build utility in
/// place, collects the patches and runs the build. Either strategy is
/// followed by the smoke test, whose failure fails the install. After it the
/// virtual environment and the default packages are tried; the install
/// completes whatever becomes of them. `Complete` and `Failed` are final.
pub open spec fn install_step(
    p: PythonPluginView,
    ctx: InstallContextView,
    s: InstallStateView,
    e: EventView,
) -> (PythonPluginView, InstallStateView, TurnView) {
    match s {
        InstallStateView::Start => match e {
            EventView::Start => {
                if wants_precompiled(ctx.host.settings) {
                    let (p1, s1, turn) = precompiled_step(p, ctx, PrecompiledStateView::Idle, e);
                    let (s2, t2) = after_precompiled(ctx, s1, turn);
                    (p1, s2, t2)
                } else if ctx.tv.request == RequestKind::Ref {
                    (p, InstallStateView::Failed(FailureView::RefNotSupported), rest())
                } else {
                    let (b, turn) = build_tool_step(p, ctx.host.env, BuildToolStateView::Idle, e);
                    let (s2, t2) = after_build_tool(p, ctx, b, turn);
                    (p, s2, t2)
                }
            },
            _ => (p, InstallStateView::Failed(FailureView::Protocol), rest()),
        },
        InstallStateView::Precompiled(s0) => {
            let (p1, s1, turn) = precompiled_step(p, ctx, s0, e);
            let (s2, t2) = after_precompiled(ctx, s1, turn);
            (p1, s2, t2)
        },
        InstallStateView::BuildTool(b0) => {
            let (b, turn) = build_tool_step(p, ctx.host.env, b0, e);
            let (s2, t2) = after_build_tool(p, ctx, b, turn);
            (p, s2, t2)
        },
        InstallStateView::FetchingPatch { command } => match e {
            EventView::Text(text) => {
                let (s2, t2) = after_remote_patch(ctx, patched(command, text), seq![]);
                (p, s2, t2)
            },
            EventView::Failed(message) => (
                p,
                InstallStateView::Failed(FailureView::Step { message }),
                rest(),
            ),
            _ => (p, InstallStateView::Failed(FailureView::Protocol), rest()),
        },
        InstallStateView::ReadingPatch { command, path } => match e {
            EventView::Text(text) => (
                p,
                InstallStateView::Building,
                TurnView {
                    notes: seq![progress("with patch file: "@ + path)],
                    action: Some(ActionView::Run { command: patched(command, text) }),
                },
            ),
            EventView::Absent => (
                p,
                InstallStateView::Building,
                TurnView {
                    notes: seq![warning("patch file not found: "@ + path)],
                    action: Some(ActionView::Run { command }),
                },
            ),
            EventView::Failed(message) => (
                p,
                InstallStateView::Failed(FailureView::Step { message }),
                rest(),
            ),
            _ => (p, InstallStateView::Failed(FailureView::Protocol), rest()),
        },
        InstallStateView::Building => match e {
            EventView::Done => (p, InstallStateView::Testing, smoke_test(ctx)),
            EventView::Failed(message) => (
                p,
                InstallStateView::Failed(FailureView::Step { message }),
                rest(),
            ),
            _ => (p, InstallStateView::Failed(FailureView::Protocol), rest()),
        },
        InstallStateView::Testing => match e {
            EventView::Done => {
                let (v, turn) = venv_step(ctx, true, VenvStateView::Idle, EventView::Start);
                let (s2, t2) = after_venv(ctx, v, turn);
                (p, s2, t2)
            },
            EventView::Failed(message) => (
                p,
                InstallStateView::Failed(FailureView::Step { message }),
                rest(),
            ),
            _ => (p, InstallStateView::Failed(FailureView::Protocol), rest()),
        },
        InstallStateView::Venv(v0) => {
            let (v, turn) = venv_step(ctx, true, v0, e);
            let (s2, t2) = after_venv(ctx, v, turn);
            (p, s2, t2)
        },
        InstallStateView::Packages(k0) => {
            let (k, turn) = packages_step(ctx, k0, e);
            let (s2, t2) = after_packages(k, turn);
            (p, s2, t2)
        },
        InstallStateView::Complete => (p, s, rest()),
        InstallStateView::Failed(_) => (p, s, rest()),
    }
}

impl Command {
    /// This command told to apply the patch `text`.
    pub fn with_patch(self, text: String) -> (cmd: Command)
        ensures
            cmd@ == patched(self@, text@),
    {
        self.arg("--patch".to_owned()).stdin_string(text)
    }
}

impl InstallState {
    /// The stage of this state.
    pub fn stage(&self) -> (stage: Stage)
        ensures
            stage == stage_of(self@),
    {
        match self {
            InstallState::Start => Stage::Start,
            InstallState::Precompiled(_) => Stage::StrategySelected,
            InstallState::BuildTool(_) => Stage::StrategySelected,
            InstallState::FetchingPatch { .. } => Stage::StrategySelected,
            InstallState::ReadingPatch { .. } => Stage::StrategySelected,
            InstallState::Building => Stage::StrategySelected,
            InstallState::Testing => Stage::StrategyExecuted,
            InstallState::Venv(_) => Stage::Validated,
            InstallState::Packages(_) => Stage::Validated,
            InstallState::Complete => Stage::PostInstallComplete,
            InstallState::Failed(_) => Stage::Failed,
        }
    }
}

impl PythonPlugin {
    /// The build utility's command for the requested version.
    pub fn build_command(&self, ctx: &InstallContext) -> (cmd: Command)
        ensures
            cmd@ == build_command(self@, ctx@),
    {
        let cmd = Command::new(self.python_build_bin(), true).arg(ctx.tv.version.clone()).arg(
            ctx.tv.install_path.clone(),
        );
        if ctx.host.settings.verbose {
            let cmd = cmd.arg("--verbose".to_owned());
            proof {
                assert(cmd@.args =~= seq![ctx.tv.version@, ctx.tv.install_path@, "--verbose"@]);
            }
            cmd
        } else {
            proof {
                assert(cmd@.args =~= seq![ctx.tv.version@, ctx.tv.install_path@]);
            }
            cmd
        }
    }

    /// What follows the remote patch: see [`after_remote_patch`].
    pub fn plan_local_patch(&self, ctx: &InstallContext, command: Command, notes: Vec<Note>) -> (r: (
        InstallState,
        Turn,
    ))
        ensures
            (r.0@, r.1@) == after_remote_patch(ctx@, command@, notes.deep_view()),
    {
        match &ctx.host.env.patches_directory {
            Some(dir) => {
                let name = join2(ctx.tv.version.as_str(), ".patch");
                let path = join_path(dir.as_str(), name.as_str());
                let turn = Turn { notes, action: Some(Action::ReadFile { path: path.clone() }) };
                (InstallState::ReadingPatch { command, path }, turn)
            },
            None => (InstallState::Building, Turn { notes, action: Some(Action::Run { command }) }),
        }
    }

    /// What follows a step on the build utility: see [`after_build_tool`].
    pub fn plan_build(&self, ctx: &InstallContext, b: BuildToolState, turn: Turn) -> (r: (
        InstallState,
        Turn,
    ))
        ensures
            (r.0@, r.1@) == after_build_tool(self@, ctx@, b@, turn@),
    {
        match b {
            BuildToolState::Ready => {
                let turn = Turn { notes: turn.notes, action: None }.note(
                    Note::progress("Running python-build".to_owned()),
                );
                let command = self.build_command(ctx);
                match &ctx.host.env.patch_url {
                    Some(url) => {
                        let text = join2("with patch file from: ", url.as_str());
                        (
                            InstallState::FetchingPatch { command },
                            turn.note(Note::progress(text)).asking(
                                Action::FetchText { url: url.clone() },
                            ),
                        )
                    },
                    None => self.plan_local_patch(ctx, command, turn.notes),
                }
            },
            BuildToolState::Failed(f) => (
                InstallState::Failed(f),
                Turn { notes: turn.notes, action: None },
            ),
            _ => (InstallState::BuildTool(b), turn),
        }
    }

    /// What follows a step on the precompiled archive: see
    /// [`after_precompiled`].
    pub fn finish_precompiled(&self, ctx: &InstallContext, s: PrecompiledState, turn: Turn) -> (r: (
        InstallState,
        Turn,
    ))
        ensures
            (r.0@, r.1@) == after_precompiled(ctx@, s@, turn@),
    {
        match s {
            PrecompiledState::Installed => (
                InstallState::Testing,
                self.test_python(ctx).after(turn.notes),
            ),
            PrecompiledState::Failed(f) => (
                InstallState::Failed(f),
                Turn { notes: turn.notes, action: None },
            ),
            _ => (InstallState::Precompiled(s), turn),
        }
    }

    /// What follows a step on the default packages: see [`after_packages`].
    pub fn finish_packages(&self, k: PackagesState, turn: Turn) -> (r: (InstallState, Turn))
        ensures
            (r.0@, r.1@) == after_packages(k@, turn@),
    {
        match k {
            PackagesState::Finished => (
                InstallState::Complete,
                Turn { notes: turn.notes, action: None },
            ),
            PackagesState::Failed(f) => {
                let message = f.message();
                let text = join2("failed to install default packages: ", message.as_str());
                (
                    InstallState::Complete,
                    Turn { notes: turn.notes, action: None }.note(Note::warning(text)),
                )
            },
            _ => (InstallState::Packages(k), turn),
        }
    }

    /// The default packages begin: see [`begin_packages`].
    pub fn start_packages(&self, ctx: &InstallContext, notes: Vec<Note>) -> (r: (InstallState, Turn))
        ensures
            (r.0@, r.1@) == begin_packages(ctx@, notes.deep_view()),
    {
        let (k, turn) = self.install_default_packages(ctx, PackagesState::Idle, Event::Start);
        self.finish_packages(k, turn.after(notes))
    }

    /// What follows a step on the virtual environment: see [`after_venv`].
    pub fn finish_venv(&self, ctx: &InstallContext, v: VenvState, turn: Turn) -> (r: (
        InstallState,
        Turn,
    ))
        ensures
            (r.0@, r.1@) == after_venv(ctx@, v@, turn@),
    {
        match v {
            VenvState::Resolved(_) => self.start_packages(ctx, turn.notes),
            VenvState::Failed(f) => {
                let message = f.message();
                let text = join2("failed to get virtualenv: ", message.as_str());
                let turn = Turn { notes: turn.notes, action: None }.note(Note::warning(text));
                self.start_packages(ctx, turn.notes)
            },
            _ => (InstallState::Venv(v), turn),
        }
    }

    /// One step of installing the version that `ctx` names: see
    /// [`install_step`]. The host begins with [`InstallState::Start`] and
    /// [`Event::Start`], performs the action of each turn and reports its
    /// outcome, until a turn comes without an action.
    pub fn install_version_impl(&mut self, ctx: &InstallContext, state: InstallState, event: Event) -> (r:
        (InstallState, Turn))
        ensures
            (final(self)@, r.0@, r.1@) == install_step(old(self)@, ctx@, state@, event@),
            state@ is Start && event@ is Start && !wants_precompiled(ctx.host.settings)
                && ctx.tv.request == RequestKind::Ref ==> r.0@ == InstallStateView::Failed(
                FailureView::RefNotSupported,
            ) && r.1@.action is None && final(self)@ == old(self)@,
            state@ is ReadingPatch && event@ is Absent ==> r.0@ is Building && r.1@.action
                == Some(ActionView::Run { command: state@->ReadingPatch_command }),
            r.1@.action is None <==> (r.0@ is Complete || r.0@ is Failed),
    {
        match state {
            InstallState::Start => match event {
                Event::Start => {
                    if self.should_install_precompiled(&ctx.host.settings) {
                        let (s1, turn) = self.install_precompiled(
                            ctx,
                            PrecompiledState::Idle,
                            event,
                        );
                        self.finish_precompiled(ctx, s1, turn)
                    } else if ctx.tv.request == RequestKind::Ref {
                        (InstallState::Failed(Failure::RefNotSupported), Turn::rest())
                    } else {
                        let (b, turn) = self.install_or_update_python_build(
                            &ctx.host.env,
                            BuildToolState::Idle,
                            event,
                        );
                        self.plan_build(ctx, b, turn)
                    }
                },
                _ => (InstallState::Failed(Failure::Protocol), Turn::rest()),
            },
            InstallState::Precompiled(s0) => {
                let (s1, turn) = self.install_precompiled(ctx, s0, event);
                self.finish_precompiled(ctx, s1, turn)
            },
            InstallState::BuildTool(b0) => {
                let (b, turn) = self.install_or_update_python_build(&ctx.host.env, b0, event);
                self.plan_build(ctx, b, turn)
            },
            InstallState::FetchingPatch { command } => match event {
                Event::Text(text) => {
                    let notes: Vec<Note> = Vec::new();
                    proof {
                        assert(notes.deep_view() =~= seq![]);
                    }
                    self.plan_local_patch(ctx, command.with_patch(text), notes)
                },
                Event::Failed(message) => (
                    InstallState::Failed(Failure::Step { message }),
                    Turn::rest(),
                ),
                _ => (InstallState::Failed(Failure::Protocol), Turn::rest()),
            },
            InstallState::ReadingPatch { command, path } => match event {
                Event::Text(text) => {
                    let note = Note::progress(join2("with patch file: ", path.as_str()));
                    (
                        InstallState::Building,
                        Turn::rest().note(note).asking(
                            Action::Run { command: command.with_patch(text) },
                        ),
                    )
                },
                Event::Absent => {
                    let note = Note::warning(join2("patch file not found: ", path.as_str()));
                    (
                        InstallState::Building,
                        Turn::rest().note(note).asking(Action::Run { command }),
                    )
                },
                Event::Failed(message) => (
                    InstallState::Failed(Failure::Step { message }),
                    Turn::rest(),
                ),
                _ => (InstallState::Failed(Failure::Protocol), Turn::rest()),
            },
            InstallState::Building => match event {
                Event::Done => (InstallState::Testing, self.test_python(ctx)),
                Event::Failed(message) => (
                    InstallState::Failed(Failure::Step { message }),
                    Turn::rest(),
                ),
                _ => (InstallState::Failed(Failure::Protocol), Turn::rest()),
            },
            InstallState::Testing => match event {
                Event::Done => {
                    let (v, turn) = self.get_virtualenv(ctx, true, VenvState::Idle, Event::Start);
                    self.finish_venv(ctx, v, turn)
                },
                Event::Failed(message) => (
                    InstallState::Failed(Failure::Step { message }),
                    Turn::rest(),
                ),
                _ => (InstallState::Failed(Failure::Protocol), Turn::rest()),
            },
            InstallState::Venv(v0) => {
                let (v, turn) = self.get_virtualenv(ctx, true, v0, event);
                self.finish_venv(ctx, v, turn)
            },
            InstallState::Packages(k0) => {
                let (k, turn) = self.install_default_packages(ctx, k0, event);
                self.finish_packages(k, turn)
            },
            InstallState::Complete => (InstallState::Complete, Turn::rest()),
            InstallState::Failed(f) => (InstallState::Failed(f), Turn::rest()),
        }
    }
}

/// The place of a stage in the order of an install.
pub open spec fn stage_rank(stage: Stage) -> int {
    match stage {
        Stage::Start => 0,
        Stage::StrategySelected => 1,
        Stage::StrategyExecuted => 2,
        Stage::Validated => 3,
        Stage::PostInstallComplete => 4,
        Stage::Failed => 5,
    }
}

/// A symbolic reference is refused by a build from source at once: the
/// install fails before the host is asked for anything, so nothing on disk
/// is touched, and the plugin stays as it was.
pub proof fn lemma_ref_is_refused(p: PythonPluginView, ctx: InstallContextView)
    requires
        !wants_precompiled(ctx.host.settings),
        ctx.tv.request == RequestKind::Ref,
    ensures
        install_step(p, ctx, InstallStateView::Start, EventView::Start) == (
            p,
            InstallStateView::Failed(FailureView::RefNotSupported),
            rest(),
        ),
{
}

/// A patch file that is not there does not fail the install: the build runs
/// as it was planned, without the patch, and the user is warned.
pub proof fn lemma_missing_patch_file_is_no_failure(
    p: PythonPluginView,
    ctx: InstallContextView,
    command: CommandView,
    path: Seq<char>,
)
    ensures
        install_step(p, ctx, InstallStateView::ReadingPatch { command, path }, EventView::Absent)
            == (
            p,
            InstallStateView::Building,
            TurnView {
                notes: seq![warning("patch file not found: "@ + path)],
                action: Some(ActionView::Run { command }),
            },
        ),
{
}

/// The stages follow each other in order. No step goes back to an earlier
/// stage; the smoke test is reached only from the strategy's last step, what
/// follows the smoke test only through it, and completion only through what
/// follows the smoke test.
pub proof fn lemma_stages_advance(
    p: PythonPluginView,
    ctx: InstallContextView,
    s: InstallStateView,
    e: EventView,
)
    ensures
        ({
            let before = stage_of(s);
            let after = stage_of(install_step(p, ctx, s, e).1);
            &&& stage_rank(before) <= stage_rank(after)
            &&& after == Stage::StrategyExecuted ==> before == Stage::StrategySelected
            &&& after == Stage::Validated ==> before == Stage::StrategyExecuted || before
                == Stage::Validated
            &&& after == Stage::PostInstallComplete ==> before == Stage::Validated || before
                == Stage::PostInstallComplete
        }),
{
}

/// What follows the smoke test cannot fail the install: from a validated
/// state every step leads to a validated state or to completion.
pub proof fn lemma_validated_never_fails(
    p: PythonPluginView,
    ctx: InstallContextView,
    s: InstallStateView,
    e: EventView,
)
    requires
        stage_of(s) == Stage::Validated,
    ensures
        stage_of(install_step(p, ctx, s, e).1) == Stage::Validated || stage_of(
            install_step(p, ctx, s, e).1,
        ) == Stage::PostInstallComplete,
{
}

/// Completion and failure are final: whatever is reported afterwards, the
/// state and the plugin stay as they are and nothing more is asked.
pub proof fn lemma_final_states_stay(
    p: PythonPluginView,
    ctx: InstallContextView,
    s: InstallStateView,
    e: EventView,
)
    requires
        s is Complete || s is Failed,
    ensures
        install_step(p, ctx, s, e) == (p, s, rest()),
{
}

/// A turn asks for nothing exactly when the install has ended.
pub proof fn lemma_rest_means_final(
    p: PythonPluginView,
    ctx: InstallContextView,
    s: InstallStateView,
    e: EventView,
)
    ensures
        ({
            let (_, next, turn) = install_step(p, ctx, s, e);
            turn.action is None <==> (next is Complete || next is Failed)
        }),
{
}

/// A failing collaborator fails the install while the strategy runs and
/// during the smoke test, with the collaborator's message.
pub proof fn lemma_hard_failures(
    p: PythonPluginView,
    ctx: InstallContextView,
    s: InstallStateView,
    message: Seq<char>,
)
    requires
        s is FetchingPatch || s is ReadingPatch || s is Building || s is Testing,
    ensures
        install_step(p, ctx, s, EventView::Failed(message)) == (
            p,
            InstallStateView::Failed(FailureView::Step { message }),
            rest(),
        ),
{
}

} // verus!
