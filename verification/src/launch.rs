//! The platform shell resolver and the process launcher: which program runs a staged
//! script, with which arguments and with which streams.

use vstd::prelude::*;
use crate::text::{chars_of, string_of, strings_view};
use crate::types::{IoOptions, OptionsView, Platform, ScriptOptions};

verus! {

/// A process to start: the program, its arguments and how its streams are connected.
#[derive(Debug)]
pub struct Command {
    /// The program to run.
    pub program: String,
    /// The arguments handed to the program, in order.
    pub args: Vec<String>,
    /// How standard input is connected.
    pub stdin: IoOptions,
    /// How standard output is connected.
    pub stdout: IoOptions,
    /// How standard error is connected.
    pub stderr: IoOptions,
}

/// The mathematical content of a [`Command`].
pub struct CommandView {
    pub program: Seq<char>,
    pub args: Seq<Seq<char>>,
    pub stdin: IoOptions,
    pub stdout: IoOptions,
    pub stderr: IoOptions,
}

impl View for Command {
    type V = CommandView;

    open spec fn view(&self) -> CommandView {
        CommandView {
            program: self.program@,
            args: strings_view(self.args@),
            stdin: self.stdin,
            stdout: self.stdout,
            stderr: self.stderr,
        }
    }
}

/// The shell that runs scripts where the caller names none.
pub open spec fn default_shell(platform: Platform) -> Seq<char> {
    if platform == Platform::Windows {
        "cmd.exe"@
    } else {
        "sh"@
    }
}

/// The flag that makes the Windows command interpreter run its next argument.
pub open spec fn run_file_flag() -> Seq<char> {
    "/C"@
}

/// The program that runs the script: the caller's runner where one is set, the
/// platform's shell otherwise.
pub open spec fn interpreter(options: OptionsView, platform: Platform) -> Seq<char> {
    match options.runner {
        Some(runner) => runner,
        None => default_shell(platform),
    }
}

/// The arguments of the interpreter: the staged file, behind the run-file flag where
/// the Windows command interpreter is used, and then the caller's arguments, which
/// become the script's parameters.
pub open spec fn interpreter_args(
    file: Seq<char>,
    args: Seq<Seq<char>>,
    options: OptionsView,
    platform: Platform,
) -> Seq<Seq<char>> {
    if options.runner is None && platform == Platform::Windows {
        seq![run_file_flag(), file] + args
    } else {
        seq![file] + args
    }
}

/// The command for a program and its arguments under the stream policy of `options`:
/// input as `capture_input` says, output and error both as `capture_output` says.
pub open spec fn command_builder(
    program: Seq<char>,
    args: Seq<Seq<char>>,
    options: OptionsView,
) -> CommandView {
    CommandView {
        program,
        args,
        stdin: options.capture_input,
        stdout: options.capture_output,
        stderr: options.capture_output,
    }
}

/// The command that runs the script staged at `file`.
pub open spec fn script_command(
    file: Seq<char>,
    args: Seq<Seq<char>>,
    options: OptionsView,
    platform: Platform,
) -> CommandView {
    command_builder(
        interpreter(options, platform),
        interpreter_args(file, args, options, platform),
        options,
    )
}

/// Appends copies of `more` to `args`.
fn extend_with(args: &mut Vec<String>, more: &Vec<String>)
    ensures
        strings_view(final(args)@) == strings_view(old(args)@) + strings_view(more@),
{
    let mut i: usize = 0;
    assert(strings_view(args@) =~= strings_view(old(args)@) + strings_view(more@.take(0)));
    while i < more.len()
        invariant
            i <= more.len(),
            strings_view(args@) == strings_view(old(args)@) + strings_view(more@.take(i as int)),
        decreases more.len() - i,
    {
        let arg = more[i].clone();
        let ghost before = args@;
        args.push(arg);
        assert(arg@ == more@[i as int]@);
        assert(strings_view(args@) =~= strings_view(before).push(arg@));
        assert(strings_view(more@.take(i + 1)) =~= strings_view(more@.take(i as int)).push(
            arg@,
        ));
        assert(strings_view(args@) =~= strings_view(old(args)@) + strings_view(
            more@.take(i + 1),
        ));
        i += 1;
    }
    assert(more@.take(more.len() as int) == more@);
}

/// Creates the command for the given program and arguments.
///
/// The streams follow the options: standard input as `capture_input` says, standard
/// output and standard error both as `capture_output` says.
pub fn create_command_builder(
    command_string: &str,
    args: &Vec<String>,
    options: &ScriptOptions,
) -> (command: Command)
    ensures
        command@ == command_builder(command_string@, strings_view(args@), options@),
{
    let mut all_args: Vec<String> = Vec::new();
    extend_with(&mut all_args, args);
    assert(strings_view(all_args@) =~= strings_view(args@));
    Command {
        program: string_of(&chars_of(command_string)),
        args: all_args,
        stdin: options.capture_input,
        stdout: options.capture_output,
        stderr: options.capture_output,
    }
}

/// Resolves the command that runs the script staged at `file`.
///
/// A runner named in the options is the program, and the staged file its first
/// argument. Without one the platform's shell is the program: `sh` with the staged
/// file, or on Windows `cmd.exe` with `/C` and the staged file. The caller's arguments
/// follow in either case.
pub fn resolve_command(
    file: &String,
    args: &Vec<String>,
    options: &ScriptOptions,
    platform: Platform,
) -> (command: Command)
    ensures
        command@ == script_command(file@, strings_view(args@), options@, platform),
{
    let mut all_args: Vec<String> = Vec::new();
    match &options.runner {
        Some(value) => {
            all_args.push(file.clone());
            assert(strings_view(all_args@) =~= seq![file@]);
            extend_with(&mut all_args, args);
            create_command_builder(value.as_str(), &all_args, options)
        },
        None => {
            let command = match platform {
                Platform::Windows => {
                    all_args.push(string_of(&chars_of("/C")));
                    "cmd.exe"
                },
                Platform::Unix => "sh",
            };
            all_args.push(file.clone());
            assert(strings_view(all_args@) =~= if platform == Platform::Windows {
                seq![run_file_flag(), file@]
            } else {
                seq![file@]
            });
            extend_with(&mut all_args, args);
            create_command_builder(command, &all_args, options)
        },
    }
}

} // verus!
