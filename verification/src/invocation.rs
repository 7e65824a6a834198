//! One invocation of a script, as a state machine.
//!
//! The library never touches the operating system. An [`Invocation`] is told what the
//! host found or did, as an [`Event`], and answers with what the host is to do next,
//! an [`Action`]. A new invocation waits for [`Event::EnvironmentRead`].
//!
//! The stages follow one another in a fixed order: `Created`, `Transformed`, `Staged`,
//! `Launched`. A synchronous run ends in `Completed` or `LaunchFailed`, a detached one
//! in `Running` or `LaunchFailed`; a detached invocation whose process started leaves
//! `Staged` for `Running` at once.

use vstd::prelude::*;
use crate::collect::{
    collect, collected, exit_code_of, lossy_text, reads_valid_output, ProcessOutput,
    ProcessOutputView,
};
use crate::launch::{resolve_command, script_command, Command, CommandView};
use crate::stage::{
    create_script_file, get_additional_temp_path, is_random_name, random_file_name, script_file,
    ScriptFile, ScriptFileView,
};
use crate::text::{optional_view, strings_view};
use crate::transform::{
    modified, modify_script, working_directory_message, working_directory_view,
};
use crate::types::{ErrorInfo, ErrorView, OptionsView, Platform, ScriptError, ScriptOptions};

verus! {

/// How far an invocation goes.
#[derive(Debug, Clone, Copy, PartialEq, Eq, Structural)]
pub enum Mode {
    /// The caller waits for the script to end and gets its exit code and output.
    Run,
    /// The caller gets the running process and the invocation ends there.
    Spawn,
}

/// How far an invocation has come.
#[derive(Debug)]
pub enum Stage {
    /// Nothing has been done yet.
    Created,
    /// The script has been rewritten and its file is being written.
    Transformed,
    /// The file at `path` holds the script and the process is being started.
    Staged { path: String },
    /// The process runs and the caller waits for it; the file at `path` is in use.
    Launched { path: String },
    /// The process runs on its own and belongs to the caller, as does the staged file.
    Running,
    /// The process has been waited for.
    Completed,
    /// No process came about.
    LaunchFailed,
}

/// The mathematical content of a [`Stage`].
pub enum StageView {
    Created,
    Transformed,
    Staged { path: Seq<char> },
    Launched { path: Seq<char> },
    Running,
    Completed,
    LaunchFailed,
}

impl View for Stage {
    type V = StageView;

    open spec fn view(&self) -> StageView {
        match self {
            Stage::Created => StageView::Created,
            Stage::Transformed => StageView::Transformed,
            Stage::Staged { path } => StageView::Staged { path: path@ },
            Stage::Launched { path } => StageView::Launched { path: path@ },
            Stage::Running => StageView::Running,
            Stage::Completed => StageView::Completed,
            Stage::LaunchFailed => StageView::LaunchFailed,
        }
    }
}

impl StageView {
    /// Whether nothing follows this stage.
    pub open spec fn is_terminal(self) -> bool {
        self is Running || self is Completed || self is LaunchFailed
    }

    /// The staged file that an invocation at this stage is answerable for.
    pub open spec fn staged_file(self) -> Option<Seq<char>> {
        match self {
            StageView::Staged { path } => Some(path),
            StageView::Launched { path } => Some(path),
            _ => None,
        }
    }

    /// The place of this stage in the order of stages.
    pub open spec fn rank(self) -> nat {
        match self {
            StageView::Created => 0,
            StageView::Transformed => 1,
            StageView::Staged { .. } => 2,
            StageView::Launched { .. } => 3,
            StageView::Running => 4,
            StageView::Completed => 4,
            StageView::LaunchFailed => 4,
        }
    }
}

/// One invocation of a script: what was asked for, and how far it has come.
#[derive(Debug)]
pub struct Invocation {
    /// How far the invocation goes.
    pub mode: Mode,
    /// The platform that the script runs on.
    pub platform: Platform,
    /// The script as the caller wrote it.
    pub script: String,
    /// The arguments that become the script's parameters.
    pub args: Vec<String>,
    /// The caller's options.
    pub options: ScriptOptions,
    /// The name drawn for the staged file, without extension.
    pub name: String,
    /// The per-user directory below the temporary directory, where there is one.
    pub user: Option<String>,
    /// How far the invocation has come.
    pub stage: Stage,
}

/// The mathematical content of an [`Invocation`].
pub struct InvocationView {
    pub mode: Mode,
    pub platform: Platform,
    pub script: Seq<char>,
    pub args: Seq<Seq<char>>,
    pub options: OptionsView,
    pub name: Seq<char>,
    pub user: Option<Seq<char>>,
    pub stage: StageView,
}

impl View for Invocation {
    type V = InvocationView;

    open spec fn view(&self) -> InvocationView {
        InvocationView {
            mode: self.mode,
            platform: self.platform,
            script: self.script@,
            args: strings_view(self.args@),
            options: self.options@,
            name: self.name@,
            user: optional_view(self.user),
            stage: self.stage@,
        }
    }
}

impl InvocationView {
    /// This invocation at another stage.
    pub open spec fn at(self, stage: StageView) -> InvocationView {
        InvocationView { stage, ..self }
    }
}

/// What the host reports to an invocation.
#[derive(Debug)]
pub enum Event {
    /// The host looked up its working directory and its temporary directory.
    /// `current_dir` is the working directory as text, `None` where it is no valid
    /// text, or the error of the lookup.
    EnvironmentRead {
        current_dir: Result<Option<String>, std::io::Error>,
        temp_dir: std::path::PathBuf,
    },
    /// The script file was written; `path` is its full path as text.
    FileWritten { path: String },
    /// The script file could not be written. `partial` is the path of a file that was
    /// created all the same and holds part of the script at most.
    WriteFailed { partial: Option<String>, error: std::io::Error },
    /// The process was started.
    ProcessStarted,
    /// The process could not be started.
    StartFailed { error: std::io::Error },
    /// The process ended.
    ProcessExited { output: ProcessOutput },
    /// Waiting for the process failed.
    WaitFailed { error: std::io::Error },
}

/// The mathematical content of an [`Event`].
pub enum EventView {
    EnvironmentRead {
        current_dir: Result<Option<Seq<char>>, std::io::Error>,
        temp_dir: std::path::PathBuf,
    },
    FileWritten { path: Seq<char> },
    WriteFailed { partial: Option<Seq<char>>, error: std::io::Error },
    ProcessStarted,
    StartFailed { error: std::io::Error },
    ProcessExited { output: ProcessOutputView },
    WaitFailed { error: std::io::Error },
}

impl View for Event {
    type V = EventView;

    open spec fn view(&self) -> EventView {
        match self {
            Event::EnvironmentRead { current_dir, temp_dir } => EventView::EnvironmentRead {
                current_dir: working_directory_view(*current_dir),
                temp_dir: *temp_dir,
            },
            Event::FileWritten { path } => EventView::FileWritten { path: path@ },
            Event::WriteFailed { partial, error } => EventView::WriteFailed {
                partial: optional_view(*partial),
                error: *error,
            },
            Event::ProcessStarted => EventView::ProcessStarted,
            Event::StartFailed { error } => EventView::StartFailed { error: *error },
            Event::ProcessExited { output } => EventView::ProcessExited { output: output@ },
            Event::WaitFailed { error } => EventView::WaitFailed { error: *error },
        }
    }
}

/// What the host is to do for an invocation.
#[derive(Debug)]
pub enum Action {
    /// Create the directories and write the file, then report
    /// [`Event::FileWritten`] or [`Event::WriteFailed`].
    WriteFile(ScriptFile),
    /// Start the process, then report [`Event::ProcessStarted`] or
    /// [`Event::StartFailed`].
    StartProcess(Command),
    /// Wait until the process ends, then report [`Event::ProcessExited`] or
    /// [`Event::WaitFailed`].
    WaitForExit,
    /// Hand the running process to the caller. The invocation is over; the staged
    /// file stays.
    Detach,
    /// Remove the file at `remove`, where there is one, without regard to whether
    /// that works, and hand `result` to the caller. The invocation is over.
    Finish { remove: Option<String>, result: Result<(i32, String, String), ScriptError> },
    /// Nothing: the event does not belong to the invocation's stage and changed
    /// nothing.
    Ignore,
}

/// The mathematical content of an [`Action`].
pub enum ActionView {
    WriteFile(ScriptFileView),
    StartProcess(CommandView),
    WaitForExit,
    Detach,
    Finish { remove: Option<Seq<char>>, result: Result<(i32, Seq<char>, Seq<char>), ErrorView> },
    Ignore,
}

/// The plain content of an invocation's result.
pub open spec fn result_view(result: Result<(i32, String, String), ScriptError>) -> Result<
    (i32, Seq<char>, Seq<char>),
    ErrorView,
> {
    match result {
        Ok(output) => Ok((output.0, output.1@, output.2@)),
        Err(error) => Err(error@),
    }
}

impl View for Action {
    type V = ActionView;

    open spec fn view(&self) -> ActionView {
        match self {
            Action::WriteFile(file) => ActionView::WriteFile(file@),
            Action::StartProcess(command) => ActionView::StartProcess(command@),
            Action::WaitForExit => ActionView::WaitForExit,
            Action::Detach => ActionView::Detach,
            Action::Finish { remove, result } => ActionView::Finish {
                remove: optional_view(*remove),
                result: result_view(*result),
            },
            Action::Ignore => ActionView::Ignore,
        }
    }
}

/// A new invocation.
pub open spec fn created(
    script: Seq<char>,
    args: Seq<Seq<char>>,
    options: OptionsView,
    platform: Platform,
    mode: Mode,
    name: Seq<char>,
    user: Option<Seq<char>>,
) -> InvocationView {
    InvocationView { mode, platform, script, args, options, name, user, stage: StageView::Created }
}

/// What a new invocation does with the host's environment: it rewrites the script and
/// asks for the file, or ends where the script cannot be rewritten.
pub open spec fn step_created(
    inv: InvocationView,
    current_dir: Result<Option<Seq<char>>, std::io::Error>,
    temp_dir: std::path::PathBuf,
) -> (InvocationView, ActionView) {
    match modified(inv.script, inv.options, inv.platform, current_dir) {
        Ok(text) => (
            inv.at(StageView::Transformed),
            ActionView::WriteFile(script_file(text, temp_dir, inv.user, inv.name, inv.platform)),
        ),
        Err(error) => (
            inv.at(StageView::LaunchFailed),
            ActionView::Finish { remove: None, result: Err(error) },
        ),
    }
}

/// The invocation's answer to an event: its next state, and what the host is to do.
///
/// An event that does not belong to the stage changes nothing and is answered with
/// [`ActionView::Ignore`]. Every failure ends the invocation, and the file that was
/// staged by then is handed out for removal together with the error.
pub open spec fn step(inv: InvocationView, event: EventView) -> (InvocationView, ActionView) {
    match (inv.stage, event) {
        (StageView::Created, EventView::EnvironmentRead { current_dir, temp_dir }) => step_created(
            inv,
            current_dir,
            temp_dir,
        ),
        (StageView::Transformed, EventView::FileWritten { path }) => (
            inv.at(StageView::Staged { path }),
            ActionView::StartProcess(script_command(path, inv.args, inv.options, inv.platform)),
        ),
        (StageView::Transformed, EventView::WriteFailed { partial, error }) => (
            inv.at(StageView::LaunchFailed),
            ActionView::Finish { remove: partial, result: Err(ErrorView::IOError(error)) },
        ),
        (StageView::Staged { path }, EventView::ProcessStarted) => match inv.mode {
            Mode::Run => (inv.at(StageView::Launched { path }), ActionView::WaitForExit),
            Mode::Spawn => (inv.at(StageView::Running), ActionView::Detach),
        },
        (StageView::Staged { path }, EventView::StartFailed { error }) => (
            inv.at(StageView::LaunchFailed),
            ActionView::Finish { remove: Some(path), result: Err(ErrorView::IOError(error)) },
        ),
        (StageView::Launched { path }, EventView::ProcessExited { output }) => (
            inv.at(StageView::Completed),
            ActionView::Finish { remove: Some(path), result: Ok(collected(output)) },
        ),
        (StageView::Launched { path }, EventView::WaitFailed { error }) => (
            inv.at(StageView::Completed),
            ActionView::Finish { remove: Some(path), result: Err(ErrorView::IOError(error)) },
        ),
        _ => (inv, ActionView::Ignore),
    }
}

/// Whether an answer that reports the output of a process reports it as the text that
/// it encodes, wherever it is valid UTF-8.
pub open spec fn reports_valid_output(event: EventView, action: ActionView) -> bool {
    match (event, action) {
        (
            EventView::ProcessExited { output },
            ActionView::Finish { result: Ok(triple), .. },
        ) => reads_valid_output(output, triple),
        _ => true,
    }
}

/// The error of the operating system that an event brings to an invocation that waits
/// for the outcome in question: the error of the write, of the start or of the wait.
pub open spec fn reported_error(inv: InvocationView, event: EventView) -> Option<std::io::Error> {
    match (inv.stage, event) {
        (StageView::Transformed, EventView::WriteFailed { error, .. }) => Some(error),
        (StageView::Staged { .. }, EventView::StartFailed { error }) => Some(error),
        (StageView::Launched { .. }, EventView::WaitFailed { error }) => Some(error),
        _ => None,
    }
}

/// Every failure has its one origin. The error of the operating system comes from the
/// write, the start or the wait that failed, and is the error that the host reported.
/// Every other failure is described in words, and comes from a new invocation that
/// found no working directory that is valid text.
pub proof fn lemma_failures_have_their_origin(inv: InvocationView, event: EventView)
    ensures
        match step(inv, event).1 {
            ActionView::Finish { result: Err(error), .. } => match reported_error(inv, event) {
                Some(reported) => error == ErrorView::IOError(reported),
                None => error == ErrorView::Description(working_directory_message())
                    && inv.stage is Created && event is EnvironmentRead,
            },
            _ => true,
        },
{
}

/// Every step keeps what was asked for, and an event is either ignored, which changes
/// nothing, or takes the invocation to a later stage: no stage is entered twice, and
/// none is entered before the one that yields what it needs.
pub proof fn lemma_stages_advance(inv: InvocationView, event: EventView)
    ensures
        step(inv, event).0 == inv.at(step(inv, event).0.stage),
        step(inv, event).1 is Ignore ==> step(inv, event).0 == inv,
        !(step(inv, event).1 is Ignore) ==> step(inv, event).0.stage.rank() > inv.stage.rank(),
{
}

/// Each request to the host comes from one stage only: the file is asked for by a new
/// invocation, the process once the file is written, the wait or the hand-over once
/// the process has started, and an outcome with an exit code once it has ended.
pub proof fn lemma_actions_follow_stages(inv: InvocationView, event: EventView)
    ensures
        step(inv, event).1 is WriteFile ==> inv.stage is Created,
        step(inv, event).1 is StartProcess ==> inv.stage is Transformed,
        step(inv, event).1 is WaitForExit ==> inv.stage is Staged && inv.mode == Mode::Run,
        step(inv, event).1 is Detach ==> inv.stage is Staged && inv.mode == Mode::Spawn,
        (step(inv, event).1 matches ActionView::Finish { result, .. } && result is Ok)
            ==> inv.stage is Launched,
{
}

/// An invocation that is over stays as it is, whatever it is told.
pub proof fn lemma_terminal_stages_are_final(inv: InvocationView, event: EventView)
    requires
        inv.stage.is_terminal(),
    ensures
        step(inv, event) == (inv, ActionView::Ignore),
{
}

/// A staged file is never forgotten while the invocation answers for it. As long as
/// the invocation goes on, it holds the same file. When it ends in `Completed` or
/// `LaunchFailed`, it hands the file out for removal with its last answer. Only a
/// detached invocation whose process started lets go of it, with
/// [`ActionView::Detach`].
pub proof fn lemma_staged_file_is_accounted_for(inv: InvocationView, event: EventView)
    requires
        inv.stage.staged_file() is Some,
    ensures
        !step(inv, event).0.stage.is_terminal() ==> step(inv, event).0.stage.staged_file()
            == inv.stage.staged_file(),
        step(inv, event).0.stage is Completed || step(inv, event).0.stage is LaunchFailed ==> (
        step(inv, event).1 matches ActionView::Finish { remove, .. } && remove
            == inv.stage.staged_file()),
        step(inv, event).0.stage is Running ==> inv.mode == Mode::Spawn && step(inv, event).1
            == ActionView::Detach,
{
}

/// A synchronous run that has staged its file ends only with the request to remove
/// that file: whether the script succeeded, failed or never started, the last answer
/// names the staged file for removal.
pub proof fn lemma_run_removes_staged_file(inv: InvocationView, event: EventView)
    requires
        inv.mode == Mode::Run,
        inv.stage.staged_file() is Some,
    ensures
        step(inv, event).0.stage.is_terminal() ==> (step(inv, event).1 matches ActionView::Finish {
            remove,
            ..
        } && remove == inv.stage.staged_file()),
{
}

/// What the host wrote is taken over: a written file becomes the staged file, and a
/// file left behind by a failed write is handed out for removal with the error.
pub proof fn lemma_written_file_is_taken_over(inv: InvocationView, event: EventView)
    requires
        inv.stage is Transformed,
    ensures
        event matches EventView::FileWritten { path } ==> step(inv, event).0.stage.staged_file()
            == Some(path),
        event matches EventView::WriteFailed { partial, error } ==> step(inv, event).1
            == (ActionView::Finish { remove: partial, result: Err(ErrorView::IOError(error)) }),
{
}

/// A synchronous run never ends in `Running`: once over, it is `Completed` or
/// `LaunchFailed`.
pub proof fn lemma_run_ends_completed_or_failed(inv: InvocationView, event: EventView)
    requires
        inv.mode == Mode::Run,
        !(inv.stage is Running),
    ensures
        !(step(inv, event).0.stage is Running),
{
}

/// A detached invocation never waits for its process and never reports an exit code:
/// it ends when the process has started, and hands it to the caller.
pub proof fn lemma_spawn_returns_at_launch(inv: InvocationView, event: EventView)
    requires
        inv.mode == Mode::Spawn,
        !(inv.stage is Launched),
        !(inv.stage is Completed),
    ensures
        !(step(inv, event).1 is WaitForExit),
        !(step(inv, event).0.stage is Launched),
        !(step(inv, event).0.stage is Completed),
        step(inv, event).1 matches ActionView::Finish { result, .. } ==> result is Err,
        inv.stage is Staged && event is ProcessStarted ==> step(inv, event) == (
            inv.at(StageView::Running),
            ActionView::Detach,
        ),
{
}

/// Whatever bytes a process wrote, a run that waited for it reports them as text,
/// with the normalized exit code: no output makes a run fail.
pub proof fn lemma_every_output_is_reported(inv: InvocationView, output: ProcessOutputView)
    requires
        inv.stage is Launched,
    ensures
        step(inv, EventView::ProcessExited { output }) == (
            inv.at(StageView::Completed),
            ActionView::Finish {
                remove: inv.stage.staged_file(),
                result: Ok(
                    (
                        exit_code_of(output.success, output.code),
                        lossy_text(output.stdout),
                        lossy_text(output.stderr),
                    ),
                ),
            },
        ),
{
}

impl Invocation {
    /// A new invocation of `script` with the file name `name` and the per-user
    /// directory `user`.
    pub fn new(
        script: &str,
        args: &Vec<String>,
        options: &ScriptOptions,
        platform: Platform,
        mode: Mode,
        name: String,
        user: Option<String>,
    ) -> (invocation: Invocation)
        ensures
            invocation@ == created(
                script@,
                strings_view(args@),
                options@,
                platform,
                mode,
                name@,
                optional_view(user),
            ),
    {
        let mut own_args: Vec<String> = Vec::new();
        let mut i: usize = 0;
        while i < args.len()
            invariant
                i <= args.len(),
                strings_view(own_args@) == strings_view(args@.take(i as int)),
            decreases args.len() - i,
        {
            let arg = args[i].clone();
            let ghost before = own_args@;
            own_args.push(arg);
            assert(strings_view(own_args@) =~= strings_view(before).push(arg@));
            assert(strings_view(args@.take(i + 1)) =~= strings_view(args@.take(i as int)).push(
                arg@,
            ));
            i += 1;
        }
        assert(args@.take(args.len() as int) == args@);
        Invocation {
            mode,
            platform,
            script: script.to_owned(),
            args: own_args,
            options: options.duplicate(),
            name,
            user,
            stage: Stage::Created,
        }
    }

    /// Takes the invocation one step further: tells it what the host found or did and
    /// returns it in its next state, with what the host is to do next.
    ///
    /// Output that is valid UTF-8 is reported as the text that it encodes.
    pub fn advance(self, event: Event) -> (next: (Invocation, Action))
        ensures
            (next.0@, next.1@) == step(self@, event@),
            reports_valid_output(event@, next.1@),
    {
        let Invocation { mode, platform, script, args, options, name, user, stage } = self;
        match stage {
            Stage::Created => match event {
                Event::EnvironmentRead { current_dir, temp_dir } => {
                    match modify_script(&script, &options, platform, current_dir) {
                        Ok(updated_script) => {
                            let file = create_script_file(
                                &updated_script,
                                temp_dir,
                                &user,
                                &name,
                                platform,
                            );
                            let stage = Stage::Transformed;
                            (
                                Invocation {
                                    mode,
                                    platform,
                                    script,
                                    args,
                                    options,
                                    name,
                                    user,
                                    stage,
                                },
                                Action::WriteFile(file),
                            )
                        },
                        Err(error) => {
                            let stage = Stage::LaunchFailed;
                            (
                                Invocation {
                                    mode,
                                    platform,
                                    script,
                                    args,
                                    options,
                                    name,
                                    user,
                                    stage,
                                },
                                Action::Finish { remove: None, result: Err(error) },
                            )
                        },
                    }
                },
                _ => {
                    let stage = Stage::Created;
                    (
                        Invocation { mode, platform, script, args, options, name, user, stage },
                        Action::Ignore,
                    )
                },
            },
            Stage::Transformed => match event {
                Event::FileWritten { path } => {
                    let command = resolve_command(&path, &args, &options, platform);
                    let stage = Stage::Staged { path };
                    (
                        Invocation { mode, platform, script, args, options, name, user, stage },
                        Action::StartProcess(command),
                    )
                },
                Event::WriteFailed { partial, error } => {
                    let stage = Stage::LaunchFailed;
                    (
                        Invocation { mode, platform, script, args, options, name, user, stage },
                        Action::Finish {
                            remove: partial,
                            result: Err(ScriptError { info: ErrorInfo::IOError(error) }),
                        },
                    )
                },
                _ => {
                    let stage = Stage::Transformed;
                    (
                        Invocation { mode, platform, script, args, options, name, user, stage },
                        Action::Ignore,
                    )
                },
            },
            Stage::Staged { path } => match event {
                Event::ProcessStarted => match mode {
                    Mode::Run => {
                        let stage = Stage::Launched { path };
                        (
                            Invocation { mode, platform, script, args, options, name, user, stage },
                            Action::WaitForExit,
                        )
                    },
                    Mode::Spawn => {
                        let stage = Stage::Running;
                        (
                            Invocation { mode, platform, script, args, options, name, user, stage },
                            Action::Detach,
                        )
                    },
                },
                Event::StartFailed { error } => {
                    let stage = Stage::LaunchFailed;
                    (
                        Invocation { mode, platform, script, args, options, name, user, stage },
                        Action::Finish {
                            remove: Some(path),
                            result: Err(ScriptError { info: ErrorInfo::IOError(error) }),
                        },
                    )
                },
                _ => {
                    let stage = Stage::Staged { path };
                    (
                        Invocation { mode, platform, script, args, options, name, user, stage },
                        Action::Ignore,
                    )
                },
            },
            Stage::Launched { path } => match event {
                Event::ProcessExited { output } => {
                    let stage = Stage::Completed;
                    (
                        Invocation { mode, platform, script, args, options, name, user, stage },
                        Action::Finish { remove: Some(path), result: Ok(collect(&output)) },
                    )
                },
                Event::WaitFailed { error } => {
                    let stage = Stage::Completed;
                    (
                        Invocation { mode, platform, script, args, options, name, user, stage },
                        Action::Finish {
                            remove: Some(path),
                            result: Err(ScriptError { info: ErrorInfo::IOError(error) }),
                        },
                    )
                },
                _ => {
                    let stage = Stage::Launched { path };
                    (
                        Invocation { mode, platform, script, args, options, name, user, stage },
                        Action::Ignore,
                    )
                },
            },
            stage => (
                Invocation { mode, platform, script, args, options, name, user, stage },
                Action::Ignore,
            ),
        }
    }
}

/// Begins an invocation of `script`: draws the name of its file, looks up the
/// directory of the current user and returns the invocation at its first stage.
///
/// The drawn name is ten ASCII letters and digits. Windows has no per-user directory.
pub fn spawn_script(
    script: &str,
    args: &Vec<String>,
    options: &ScriptOptions,
    platform: Platform,
    mode: Mode,
) -> (invocation: Invocation)
    ensures
        invocation@ == created(
            script@,
            strings_view(args@),
            options@,
            platform,
            mode,
            invocation@.name,
            invocation@.user,
        ),
        is_random_name(invocation@.name),
        platform == Platform::Windows ==> invocation@.user is None,
{
    let name = random_file_name();
    let user = get_additional_temp_path(platform);
    Invocation::new(script, args, options, platform, mode, name, user)
}

} // verus!
