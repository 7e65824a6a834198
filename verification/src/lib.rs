//! Runs a shell script that is given as text.
//!
//! The script is rewritten so that it runs in the caller's working directory, written
//! to a temporary file of its own, started through the platform's shell, and its
//! file is removed when the run is over.
//!
//! The library decides and the host performs. [`run`] and [`spawn`] begin an
//! [`Invocation`]; from then on the host reports each thing it found or did as an
//! [`Event`] to [`Invocation::advance`] and carries out the [`Action`] that comes
//! back, until that action ends the invocation.

pub mod collect;
pub mod invocation;
pub mod launch;
pub mod stage;
pub mod text;
pub mod trace;
pub mod transform;
pub mod types;

use vstd::prelude::*;

pub use crate::invocation::{Action, Event, Invocation, Mode, Stage};
pub use crate::types::{ErrorInfo, IoOptions, Platform, ScriptError, ScriptOptions};
use crate::invocation::{created, spawn_script};
use crate::stage::is_random_name;
use crate::text::strings_view;

verus! {

/// Begins a synchronous run of `script`: the caller waits for the script to end and
/// gets its exit code, its standard output and its standard error.
///
/// The invocation that comes back has done nothing yet. It holds the script, the
/// arguments and the options as they were given, a freshly drawn name for the staged
/// file, and the per-user directory where the platform has one.
pub fn run(
    script: &str,
    args: &Vec<String>,
    options: &ScriptOptions,
    platform: Platform,
) -> (invocation: Invocation)
    ensures
        invocation@ == created(
            script@,
            strings_view(args@),
            options@,
            platform,
            Mode::Run,
            invocation@.name,
            invocation@.user,
        ),
        is_random_name(invocation@.name),
        platform == Platform::Windows ==> invocation@.user is None,
{
    spawn_script(script, args, options, platform, Mode::Run)
}

/// Begins a detached invocation of `script`: the caller gets the process as soon as
/// it has started, and the staged file stays behind for the caller to remove.
///
/// The invocation that comes back has done nothing yet. It holds the script, the
/// arguments and the options as they were given, a freshly drawn name for the staged
/// file, and the per-user directory where the platform has one.
pub fn spawn(
    script: &str,
    args: &Vec<String>,
    options: &ScriptOptions,
    platform: Platform,
) -> (invocation: Invocation)
    ensures
        invocation@ == created(
            script@,
            strings_view(args@),
            options@,
            platform,
            Mode::Spawn,
            invocation@.name,
            invocation@.user,
        ),
        is_random_name(invocation@.name),
        platform == Platform::Windows ==> invocation@.user is None,
{
    spawn_script(script, args, options, platform, Mode::Spawn)
}

} // verus!
