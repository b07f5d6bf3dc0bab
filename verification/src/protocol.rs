//! The vocabulary between the library and its host.
//!
//! The library decides; the host acts. Each decision function takes a state
//! and the [`Event`] that reports how the last action went, and answers with
//! the next state and a [`Turn`]: the messages to show and the next
//! [`Action`], if any. A turn without an action means that the state is final.

use vstd::prelude::*;

verus! {

/// An external program to run.
#[derive(Clone, Debug, PartialEq, Eq)]
pub struct Command {
    /// The program's path.
    pub program: String,
    /// Its arguments, in order.
    pub args: Vec<String>,
    /// Text to pipe to its standard input.
    pub stdin: Option<String>,
    /// Whether its output is shown as live progress.
    pub report: bool,
    /// Whether it runs under the host's fetch timeout.
    pub timed: bool,
}

/// The model of a [`Command`].
pub struct CommandView {
    pub program: Seq<char>,
    pub args: Seq<Seq<char>>,
    pub stdin: Option<Seq<char>>,
    pub report: bool,
    pub timed: bool,
}

impl View for Command {
    type V = CommandView;

    open spec fn view(&self) -> CommandView {
        CommandView {
            program: self.program@,
            args: self.args.deep_view(),
            stdin: self.stdin.deep_view(),
            report: self.report,
            timed: self.timed,
        }
    }
}

/// One of the plugin's caches.
#[derive(Clone, Copy, Debug, PartialEq, Eq, Structural)]
pub enum CacheKind {
    /// The list of installable versions.
    RemoteVersions,
    /// The catalog of precompiled archives.
    Precompiled,
}

/// What the host is asked to do next.
#[derive(Clone, Debug, PartialEq, Eq)]
pub enum Action {
    /// Report whether `path` exists, with [`Event::Found`].
    Probe { path: String },
    /// Create `path` and its parents.
    MakeDirs { path: String },
    /// Clone the repository at `url` into `dest`.
    Clone { url: String, dest: String },
    /// Update the clone in `dest`, under the fetch timeout.
    Update { dest: String },
    /// Fetch the text at `url`, reported with [`Event::Text`].
    FetchText { url: String },
    /// Read the file at `path`: [`Event::Text`], or [`Event::Absent`] if there
    /// is no such file.
    ReadFile { path: String },
    /// Write what the plugin's cache `cache` holds to the file `path`. The
    /// file is replaced as a whole, so that no reader finds it half written.
    Persist { cache: CacheKind, path: String },
    /// Ask the host's version service, answered with [`Event::Versions`].
    FetchVersionList,
    /// Download `url` to the file `dest`.
    Download { url: String, dest: String },
    /// Unpack `archive` into the directory `dest`.
    Unpack { archive: String, dest: String },
    /// Remove `path` and all below it; a missing path is no failure.
    RemoveAll { path: String },
    /// Move `from` to `to`.
    Rename { from: String, to: String },
    /// Create the symbolic link `link`, pointing at `target`.
    Symlink { target: String, link: String },
    /// Run a program; its output is reported with [`Event::Text`] where the
    /// state reads it, else success with [`Event::Done`].
    Run { command: Command },
}

/// The model of an [`Action`].
pub enum ActionView {
    Probe { path: Seq<char> },
    MakeDirs { path: Seq<char> },
    Clone { url: Seq<char>, dest: Seq<char> },
    Update { dest: Seq<char> },
    FetchText { url: Seq<char> },
    ReadFile { path: Seq<char> },
    Persist { cache: CacheKind, path: Seq<char> },
    FetchVersionList,
    Download { url: Seq<char>, dest: Seq<char> },
    Unpack { archive: Seq<char>, dest: Seq<char> },
    RemoveAll { path: Seq<char> },
    Rename { from: Seq<char>, to: Seq<char> },
    Symlink { target: Seq<char>, link: Seq<char> },
    Run { command: CommandView },
}

impl View for Action {
    type V = ActionView;

    open spec fn view(&self) -> ActionView {
        match self {
            Action::Probe { path } => ActionView::Probe { path: path@ },
            Action::MakeDirs { path } => ActionView::MakeDirs { path: path@ },
            Action::Clone { url, dest } => ActionView::Clone { url: url@, dest: dest@ },
            Action::Update { dest } => ActionView::Update { dest: dest@ },
            Action::FetchText { url } => ActionView::FetchText { url: url@ },
            Action::ReadFile { path } => ActionView::ReadFile { path: path@ },
            Action::Persist { cache, path } => ActionView::Persist { cache: *cache, path: path@ },
            Action::FetchVersionList => ActionView::FetchVersionList,
            Action::Download { url, dest } => ActionView::Download { url: url@, dest: dest@ },
            Action::Unpack { archive, dest } => ActionView::Unpack {
                archive: archive@,
                dest: dest@,
            },
            Action::RemoveAll { path } => ActionView::RemoveAll { path: path@ },
            Action::Rename { from, to } => ActionView::Rename { from: from@, to: to@ },
            Action::Symlink { target, link } => ActionView::Symlink {
                target: target@,
                link: link@,
            },
            Action::Run { command } => ActionView::Run { command: command@ },
        }
    }
}

impl DeepView for Action {
    type V = ActionView;

    open spec fn deep_view(&self) -> ActionView {
        self@
    }
}

/// How the last action went.
#[derive(Clone, Debug, PartialEq, Eq)]
pub enum Event {
    /// Nothing has been asked yet.
    Start,
    /// The action succeeded.
    Done,
    /// The answer to a probe.
    Found(bool),
    /// Text that was fetched, read or printed.
    Text(String),
    /// The file to read does not exist.
    Absent,
    /// The answer of the version service: a list, or none on offer.
    Versions(Option<Vec<String>>),
    /// The action failed, with the collaborator's message.
    Failed(String),
}

/// The model of an [`Event`].
pub enum EventView {
    Start,
    Done,
    Found(bool),
    Text(Seq<char>),
    Absent,
    Versions(Option<Seq<Seq<char>>>),
    Failed(Seq<char>),
}

impl View for Event {
    type V = EventView;

    open spec fn view(&self) -> EventView {
        match self {
            Event::Start => EventView::Start,
            Event::Done => EventView::Done,
            Event::Found(b) => EventView::Found(*b),
            Event::Text(t) => EventView::Text(t@),
            Event::Absent => EventView::Absent,
            Event::Versions(v) => EventView::Versions(v.deep_view()),
            Event::Failed(m) => EventView::Failed(m@),
        }
    }
}

/// Why an operation failed. Every failure is final.
#[derive(Clone, Debug, PartialEq, Eq)]
pub enum Failure {
    /// A symbolic reference was asked of the build utility, which knows none.
    RefNotSupported,
    /// The catalog holds no archive of this version for this platform.
    NoPrecompiled { version: String },
    /// No archives are built for the host's platform.
    UnsupportedPlatform,
    /// A collaborator failed: the network, a process or the file system.
    Step { message: String },
    /// An event arrived that the state does not expect.
    Protocol,
}

/// The model of a [`Failure`].
pub enum FailureView {
    RefNotSupported,
    NoPrecompiled { version: Seq<char> },
    UnsupportedPlatform,
    Step { message: Seq<char> },
    Protocol,
}

impl View for Failure {
    type V = FailureView;

    open spec fn view(&self) -> FailureView {
        match self {
            Failure::RefNotSupported => FailureView::RefNotSupported,
            Failure::NoPrecompiled { version } => FailureView::NoPrecompiled { version: version@ },
            Failure::UnsupportedPlatform => FailureView::UnsupportedPlatform,
            Failure::Step { message } => FailureView::Step { message: message@ },
            Failure::Protocol => FailureView::Protocol,
        }
    }
}

/// The text of a failure.
pub open spec fn failure_text(f: FailureView) -> Seq<char> {
    match f {
        FailureView::RefNotSupported => "Ref versions not supported for python"@,
        FailureView::NoPrecompiled { version } => "no precompiled version found for "@ + version,
        FailureView::UnsupportedPlatform => "unsupported platform"@,
        FailureView::Step { message } => message,
        FailureView::Protocol => "unexpected event"@,
    }
}

impl Failure {
    /// The text of this failure, as shown to the user.
    pub fn message(&self) -> (text: String)
        ensures
            text@ == failure_text(self@),
    {
        match self {
            Failure::RefNotSupported => "Ref versions not supported for python".to_owned(),
            Failure::NoPrecompiled { version } => crate::text::join2(
                "no precompiled version found for ",
                version.as_str(),
            ),
            Failure::UnsupportedPlatform => "unsupported platform".to_owned(),
            Failure::Step { message } => message.clone(),
            Failure::Protocol => "unexpected event".to_owned(),
        }
    }
}

/// How loud a message is.
#[derive(Clone, Copy, Debug, PartialEq, Eq, Structural)]
pub enum Level {
    /// Progress of the operation, shown in place.
    Progress,
    /// For the log.
    Info,
    /// Something the user should act on or know.
    Warning,
}

/// A message for the user.
#[derive(Clone, Debug, PartialEq, Eq)]
pub struct Note {
    pub level: Level,
    pub text: String,
}

/// The model of a [`Note`].
pub struct NoteView {
    pub level: Level,
    pub text: Seq<char>,
}

impl View for Note {
    type V = NoteView;

    open spec fn view(&self) -> NoteView {
        NoteView { level: self.level, text: self.text@ }
    }
}

impl DeepView for Note {
    type V = NoteView;

    open spec fn deep_view(&self) -> NoteView {
        self@
    }
}

/// A progress message.
pub open spec fn progress(text: Seq<char>) -> NoteView {
    NoteView { level: Level::Progress, text }
}

/// A log message.
pub open spec fn info(text: Seq<char>) -> NoteView {
    NoteView { level: Level::Info, text }
}

/// A warning.
pub open spec fn warning(text: Seq<char>) -> NoteView {
    NoteView { level: Level::Warning, text }
}

/// What the host does before the next event: show the notes, then act.
#[derive(Clone, Debug, PartialEq, Eq)]
pub struct Turn {
    /// Messages, in the order in which they are shown.
    pub notes: Vec<Note>,
    /// The next action; none when the state is final.
    pub action: Option<Action>,
}

/// The model of a [`Turn`].
pub struct TurnView {
    pub notes: Seq<NoteView>,
    pub action: Option<ActionView>,
}

impl View for Turn {
    type V = TurnView;

    open spec fn view(&self) -> TurnView {
        TurnView { notes: self.notes.deep_view(), action: self.action.deep_view() }
    }
}

/// A turn that asks for `action` without a message.
pub open spec fn act(action: ActionView) -> TurnView {
    TurnView { notes: seq![], action: Some(action) }
}

/// A turn that ends the exchange: nothing is left to do.
pub open spec fn rest() -> TurnView {
    TurnView { notes: seq![], action: None }
}

/// The strings of `args` as the arguments of a command.
pub open spec fn command(program: Seq<char>, args: Seq<Seq<char>>, report: bool) -> CommandView {
    CommandView { program, args, stdin: None, report, timed: false }
}


impl Note {
    /// A progress message.
    pub fn progress(text: String) -> (note: Note)
        ensures
            note@ == progress(text@),
    {
        Note { level: Level::Progress, text }
    }

    /// A log message.
    pub fn info(text: String) -> (note: Note)
        ensures
            note@ == info(text@),
    {
        Note { level: Level::Info, text }
    }

    /// A warning.
    pub fn warning(text: String) -> (note: Note)
        ensures
            note@ == warning(text@),
    {
        Note { level: Level::Warning, text }
    }
}

impl Command {
    /// A command without arguments or input, not run under the timeout.
    pub fn new(program: String, report: bool) -> (cmd: Command)
        ensures
            cmd@ == command(program@, seq![], report),
    {
        let cmd = Command { program, args: Vec::new(), stdin: None, report, timed: false };
        proof {
            assert(cmd.args.deep_view() =~= seq![]);
        }
        cmd
    }

    /// This command with one more argument.
    pub fn arg(self, arg: String) -> (cmd: Command)
        ensures
            cmd@ == (CommandView { args: self@.args.push(arg@), ..self@ }),
    {
        let mut args = self.args;
        let ghost before = args.deep_view();
        args.push(arg);
        proof {
            assert(args.deep_view() =~= before.push(arg@));
        }
        Command {
            program: self.program,
            args,
            stdin: self.stdin,
            report: self.report,
            timed: self.timed,
        }
    }

    /// This command reading `text` from its standard input.
    pub fn stdin_string(self, text: String) -> (cmd: Command)
        ensures
            cmd@ == (CommandView { stdin: Some(text@), ..self@ }),
    {
        Command {
            program: self.program,
            args: self.args,
            stdin: Some(text),
            report: self.report,
            timed: self.timed,
        }
    }

    /// This command run under the host's fetch timeout.
    pub fn timed(self) -> (cmd: Command)
        ensures
            cmd@ == (CommandView { timed: true, ..self@ }),
    {
        Command {
            program: self.program,
            args: self.args,
            stdin: self.stdin,
            report: self.report,
            timed: true,
        }
    }
}

impl Turn {
    /// A turn that asks for `action` without a message.
    pub fn act(action: Action) -> (turn: Turn)
        ensures
            turn@ == act(action@),
    {
        let turn = Turn { notes: Vec::new(), action: Some(action) };
        proof {
            assert(turn.notes.deep_view() =~= seq![]);
        }
        turn
    }

    /// A turn that ends the exchange.
    pub fn rest() -> (turn: Turn)
        ensures
            turn@ == rest(),
    {
        let turn = Turn { notes: Vec::new(), action: None };
        proof {
            assert(turn.notes.deep_view() =~= seq![]);
        }
        turn
    }

    /// This turn with one more message shown at its end.
    pub fn note(self, note: Note) -> (turn: Turn)
        ensures
            turn@ == (TurnView { notes: self@.notes.push(note@), action: self@.action }),
    {
        let mut notes = self.notes;
        let ghost before = notes.deep_view();
        notes.push(note);
        proof {
            assert(notes.deep_view() =~= before.push(note@));
        }
        Turn { notes, action: self.action }
    }

    /// `first`, then what this turn shows and asks.
    pub fn after(self, first: Vec<Note>) -> (turn: Turn)
        ensures
            turn@ == (TurnView { notes: first.deep_view() + self@.notes, action: self@.action }),
    {
        let mut notes = first;
        let mut rest = self.notes;
        let ghost a = notes.deep_view();
        let ghost b = rest.deep_view();
        notes.append(&mut rest);
        proof {
            assert(notes.deep_view() =~= a + b);
        }
        Turn { notes, action: self.action }
    }

    /// This turn's messages, followed by `action`.
    pub fn asking(self, action: Action) -> (turn: Turn)
        ensures
            turn@ == (TurnView { notes: self@.notes, action: Some(action@) }),
    {
        Turn { notes: self.notes, action: Some(action) }
    }
}

} // verus!
