//! The options of an invocation, the platform it targets, and the errors it reports.

use vstd::prelude::*;

verus! {

/// `std::io::Error`, carried through as the host reported it. Nothing is known of
/// what it holds.
#[verifier::external_type_specification]
#[verifier::external_body]
pub struct ExIoError(std::io::Error);

/// `std::path::PathBuf`, carried through as the host gave it. Nothing is known of
/// what it holds.
#[verifier::external_type_specification]
#[verifier::external_body]
pub struct ExPathBuf(std::path::PathBuf);

/// How one of the child's standard streams is connected.
#[derive(Debug, Clone, Copy, PartialEq, Eq, Structural)]
pub enum IoOptions {
    /// The stream is discarded.
    Null,
    /// The stream is the caller's own.
    Inherit,
    /// The stream is a pipe that the caller can read or write.
    Pipe,
}

/// The operating-system family that the script is run on.
#[derive(Debug, Clone, Copy, PartialEq, Eq, Structural)]
pub enum Platform {
    /// Windows and its command interpreter.
    Windows,
    /// Every other system, with a POSIX shell.
    Unix,
}

/// What the caller asks of one invocation.
#[derive(Debug, Clone)]
pub struct ScriptOptions {
    /// The interpreter to use in place of the platform's default.
    pub runner: Option<String>,
    /// Whether the script stops at the first command that fails.
    pub exit_on_error: bool,
    /// Whether the script prints each command before running it.
    pub print_commands: bool,
    /// How the child's standard input is connected.
    pub capture_input: IoOptions,
    /// How the child's standard output and error are connected.
    pub capture_output: IoOptions,
}

/// The mathematical content of [`ScriptOptions`].
pub struct OptionsView {
    pub runner: Option<Seq<char>>,
    pub exit_on_error: bool,
    pub print_commands: bool,
    pub capture_input: IoOptions,
    pub capture_output: IoOptions,
}

impl View for ScriptOptions {
    type V = OptionsView;

    open spec fn view(&self) -> OptionsView {
        OptionsView {
            runner: match self.runner {
                Some(runner) => Some(runner@),
                None => None,
            },
            exit_on_error: self.exit_on_error,
            print_commands: self.print_commands,
            capture_input: self.capture_input,
            capture_output: self.capture_output,
        }
    }
}

impl ScriptOptions {
    /// The options of a plain invocation: the platform's interpreter, no added
    /// directives, the caller's input and captured output.
    pub open spec fn default_view() -> OptionsView {
        OptionsView {
            runner: None,
            exit_on_error: false,
            print_commands: false,
            capture_input: IoOptions::Inherit,
            capture_output: IoOptions::Pipe,
        }
    }

    /// Returns the default options.
    pub fn new() -> (options: ScriptOptions)
        ensures
            options@ == Self::default_view(),
    {
        ScriptOptions {
            runner: None,
            exit_on_error: false,
            print_commands: false,
            capture_input: IoOptions::Inherit,
            capture_output: IoOptions::Pipe,
        }
    }

    /// A copy of these options.
    pub fn duplicate(&self) -> (copy: ScriptOptions)
        ensures
            copy@ == self@,
    {
        ScriptOptions {
            runner: match &self.runner {
                Some(runner) => Some(runner.clone()),
                None => None,
            },
            exit_on_error: self.exit_on_error,
            print_commands: self.print_commands,
            capture_input: self.capture_input,
            capture_output: self.capture_output,
        }
    }
}

/// What went wrong.
#[derive(Debug)]
pub enum ErrorInfo {
    /// The operating system refused an operation.
    IOError(std::io::Error),
    /// A failure that is described in words.
    Description(&'static str),
}

/// The failure of an invocation.
#[derive(Debug)]
pub struct ScriptError {
    /// What went wrong.
    pub info: ErrorInfo,
}

/// The mathematical content of [`ScriptError`].
pub enum ErrorView {
    IOError(std::io::Error),
    Description(Seq<char>),
}

impl View for ScriptError {
    type V = ErrorView;

    open spec fn view(&self) -> ErrorView {
        match self.info {
            ErrorInfo::IOError(error) => ErrorView::IOError(error),
            ErrorInfo::Description(text) => ErrorView::Description(text@),
        }
    }
}

} // verus!
