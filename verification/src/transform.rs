//! The script transformer: rewrites the caller's text so that the script runs in the
//! caller's working directory and with the shell behaviour that the options ask for.

use vstd::prelude::*;
use crate::text::{
    chars_of, is_single_line, join, join_lines, lemma_first_line, lemma_join_first,
    lemma_split_lines_hold_no_newline, lemma_split_lines_nonempty, lines_view, split,
    split_lines, string_of, trim, trimmed,
};
use crate::types::{ErrorInfo, ErrorView, OptionsView, Platform, ScriptError, ScriptOptions};

verus! {

/// Whether a line names the interpreter of its file: it starts with `#!`.
pub open spec fn is_interpreter_line(line: Seq<char>) -> bool {
    line.len() >= 2 && line[0] == '#' && line[1] == '!'
}

/// The directive that makes the shell stop at the first failing command.
pub open spec fn exit_on_error_directive() -> Seq<char> {
    "set -e"@
}

/// The directive that makes the shell print each command before it runs.
pub open spec fn print_commands_directive() -> Seq<char> {
    "set -x"@
}

/// The directive that changes the working directory to `cwd`.
pub open spec fn change_directory_directive(cwd: Seq<char>) -> Seq<char> {
    "cd "@ + cwd
}

/// The message of the error reported when there is no working directory that is valid
/// text.
pub open spec fn working_directory_message() -> Seq<char> {
    "Unable to extract current working directory path."@
}

/// The shell-behaviour directives, in the order in which they are written. Windows
/// gets none: its command interpreter has no counterpart for them.
pub open spec fn shell_directives(options: OptionsView, platform: Platform) -> Seq<Seq<char>> {
    let stop = if platform != Platform::Windows && options.exit_on_error {
        seq![exit_on_error_directive()]
    } else {
        Seq::<Seq<char>>::empty()
    };
    let echo = if platform != Platform::Windows && options.print_commands {
        seq![print_commands_directive()]
    } else {
        Seq::<Seq<char>>::empty()
    };
    stop + echo
}

/// Every line that is added in front of the script's own commands: the shell-behaviour
/// directives, then the change of directory.
pub open spec fn directives(options: OptionsView, platform: Platform, cwd: Seq<char>) -> Seq<
    Seq<char>,
> {
    shell_directives(options, platform).push(change_directory_directive(cwd))
}

/// How many leading lines of a trimmed script stay in front of the directives: the
/// interpreter line, if there is one.
pub open spec fn kept_in_front(lines: Seq<Seq<char>>) -> int {
    if lines.len() > 0 && is_interpreter_line(lines[0]) {
        1
    } else {
        0
    }
}

/// The lines of the rewritten script: the trimmed script's lines with the directives
/// put behind a leading interpreter line, or in front where there is none, and one
/// closing line that holds a line separator.
pub open spec fn transformed_lines(
    script: Seq<char>,
    options: OptionsView,
    platform: Platform,
    cwd: Seq<char>,
) -> Seq<Seq<char>> {
    let lines = split_lines(trim(script));
    let at = kept_in_front(lines);
    lines.subrange(0, at) + directives(options, platform, cwd) + lines.subrange(
        at,
        lines.len() as int,
    ) + seq![seq!['\n']]
}

/// The rewritten script.
pub open spec fn transformed(
    script: Seq<char>,
    options: OptionsView,
    platform: Platform,
    cwd: Seq<char>,
) -> Seq<char> {
    join_lines(transformed_lines(script, options, platform, cwd))
}

/// What the host found when it asked for the working directory, as plain values: the
/// directory as text, `None` where it is not valid text, or the error of the lookup.
pub open spec fn working_directory_view(cwd: Result<Option<String>, std::io::Error>) -> Result<
    Option<Seq<char>>,
    std::io::Error,
> {
    match cwd {
        Ok(Some(dir)) => Ok(Some(dir@)),
        Ok(None) => Ok(None),
        Err(error) => Err(error),
    }
}

/// What transforming yields: the rewritten script, or the reason why there is none.
/// The transformer has one failure: no working directory that is valid text, whether
/// the directory is no valid text or could not be looked up at all.
pub open spec fn modified(
    script: Seq<char>,
    options: OptionsView,
    platform: Platform,
    cwd: Result<Option<Seq<char>>, std::io::Error>,
) -> Result<Seq<char>, ErrorView> {
    match cwd {
        Ok(Some(dir)) => Ok(transformed(script, options, platform, dir)),
        Ok(None) => Err(ErrorView::Description(working_directory_message())),
        Err(_) => Err(ErrorView::Description(working_directory_message())),
    }
}

/// The plain content of a transformer's result.
pub open spec fn modified_view(result: Result<String, ScriptError>) -> Result<
    Seq<char>,
    ErrorView,
> {
    match result {
        Ok(text) => Ok(text@),
        Err(error) => Err(error@),
    }
}

/// Where the change of directory stands among the lines of the rewritten script:
/// behind the interpreter line, if there is one, and the shell-behaviour directives.
pub open spec fn change_directory_index(
    script: Seq<char>,
    options: OptionsView,
    platform: Platform,
) -> int {
    kept_in_front(split_lines(trim(script))) + shell_directives(options, platform).len()
}

/// The rewritten script always changes the directory, and does so before any of the
/// script's own commands: only an interpreter line and the shell-behaviour directives
/// stand in front of the change.
pub proof fn lemma_change_directory_position(
    script: Seq<char>,
    options: OptionsView,
    platform: Platform,
    cwd: Seq<char>,
)
    ensures
        0 <= change_directory_index(script, options, platform) < transformed_lines(
            script,
            options,
            platform,
            cwd,
        ).len(),
        transformed_lines(script, options, platform, cwd)[change_directory_index(
            script,
            options,
            platform,
        )] == change_directory_directive(cwd),
        transformed_lines(script, options, platform, cwd).subrange(
            kept_in_front(split_lines(trim(script))),
            change_directory_index(script, options, platform),
        ) == shell_directives(options, platform),
{
    lemma_split_lines_nonempty(trim(script));
    assert(transformed_lines(script, options, platform, cwd).subrange(
        kept_in_front(split_lines(trim(script))),
        change_directory_index(script, options, platform),
    ) =~= shell_directives(options, platform));
}

/// A leading interpreter line stays the first line of the rewritten script, in its list
/// of lines and in its text, and the change of directory comes behind it.
pub proof fn lemma_interpreter_line_stays_first(
    script: Seq<char>,
    options: OptionsView,
    platform: Platform,
    cwd: Seq<char>,
)
    requires
        is_interpreter_line(split_lines(trim(script))[0]),
    ensures
        transformed_lines(script, options, platform, cwd)[0] == split_lines(trim(script))[0],
        split_lines(transformed(script, options, platform, cwd))[0] == split_lines(
            trim(script),
        )[0],
        change_directory_index(script, options, platform) >= 1,
{
    let lines = split_lines(trim(script));
    let all = transformed_lines(script, options, platform, cwd);
    lemma_split_lines_nonempty(trim(script));
    lemma_split_lines_hold_no_newline(trim(script));
    assert(is_single_line(lines[0]));
    let others = all.subrange(1, all.len() as int);
    assert(all =~= seq![lines[0]] + others);
    lemma_join_first(lines[0], others);
    lemma_first_line(lines[0], join_lines(others));
}

/// Whether the line starts with `#!`.
fn starts_with_interpreter_mark(line: &Vec<char>) -> (found: bool)
    ensures
        found == is_interpreter_line(line@),
{
    line.len() >= 2 && line[0] == '#' && line[1] == '!'
}

/// The change-of-directory line for `cwd`.
fn change_directory_line(cwd: &str) -> (line: Vec<char>)
    ensures
        line@ == change_directory_directive(cwd@),
{
    let mut line = chars_of("cd ");
    let dir = chars_of(cwd);
    let mut i: usize = 0;
    while i < dir.len()
        invariant
            i <= dir.len(),
            line@ == "cd "@ + dir@.take(i as int),
        decreases dir.len() - i,
    {
        line.push(dir[i]);
        i += 1;
    }
    assert(dir@.take(dir.len() as int) == dir@);
    line
}

/// Puts `line` in front of the line at `index`.
fn insert_line(lines: &mut Vec<Vec<char>>, index: usize, line: Vec<char>)
    requires
        index <= old(lines).len(),
    ensures
        lines_view(final(lines)@) == lines_view(old(lines)@).insert(index as int, line@),
{
    lines.insert(index, line);
    assert(lines_view(lines@) =~= lines_view(old(lines)@).insert(index as int, line@));
}

/// Puts `line` behind the last line.
fn push_line(lines: &mut Vec<Vec<char>>, line: Vec<char>)
    ensures
        lines_view(final(lines)@) == lines_view(old(lines)@).push(line@),
{
    lines.push(line);
    assert(lines_view(lines@) =~= lines_view(old(lines)@).push(line@));
}

/// A line put directly behind what was added so far lengthens what was added.
proof fn lemma_insert_behind_added(
    front: Seq<Seq<char>>,
    added: Seq<Seq<char>>,
    back: Seq<Seq<char>>,
    line: Seq<char>,
)
    ensures
        (front + added + back).insert((front.len() + added.len()) as int, line) == front
            + added.push(line) + back,
{
    assert((front + added + back).insert((front.len() + added.len()) as int, line) =~= front
        + added.push(line) + back);
}

/// The rewritten text of `script` for the working directory `cwd`.
fn rewrite(script: &str, options: &ScriptOptions, platform: Platform, cwd: &str) -> (text: String)
    ensures
        text@ == transformed(script@, options@, platform, cwd@),
{
    let cd_command = change_directory_line(cwd);
    let text = chars_of(script);
    let trimmed_text = trimmed(&text);
    let mut script_lines = split(&trimmed_text);
    let ghost lines = split_lines(trim(script@));
    let ghost at = kept_in_front(lines);
    let ghost front = lines.subrange(0, at);
    let ghost back = lines.subrange(at, lines.len() as int);
    let ghost mut added = Seq::<Seq<char>>::empty();
    // check if first line is an interpreter line
    let mut insert_index: usize = if starts_with_interpreter_mark(&script_lines[0]) {
        1
    } else {
        0
    };
    assert(lines_view(script_lines@) =~= front + added + back);
    match platform {
        Platform::Windows => {},
        Platform::Unix => {
            if options.exit_on_error {
                let directive = chars_of("set -e");
                proof {
                    lemma_insert_behind_added(front, added, back, directive@);
                    added = added.push(directive@);
                }
                insert_line(&mut script_lines, insert_index, directive);
                insert_index = insert_index + 1;
            }
            if options.print_commands {
                let directive = chars_of("set -x");
                proof {
                    lemma_insert_behind_added(front, added, back, directive@);
                    added = added.push(directive@);
                }
                insert_line(&mut script_lines, insert_index, directive);
                insert_index = insert_index + 1;
            }
        },
    }
    assert(added =~= shell_directives(options@, platform));
    proof {
        lemma_insert_behind_added(front, added, back, cd_command@);
    }
    insert_line(&mut script_lines, insert_index, cd_command);
    let mut closing: Vec<char> = Vec::new();
    closing.push('\n');
    assert(closing@ =~= seq!['\n']);
    push_line(&mut script_lines, closing);
    assert(lines_view(script_lines@) =~= transformed_lines(script@, options@, platform, cwd@));
    let updated_script = join(&script_lines);
    string_of(&updated_script)
}

/// Rewrites `script` for a run in the working directory `cwd`.
///
/// The text is trimmed and taken apart into lines. A first line that starts with `#!`
/// stays first. Behind it, or at the very start, come `set -e` where
/// `options.exit_on_error` is set and `set -x` where `options.print_commands` is set,
/// both never on Windows, and then `cd` with the working directory. The script's
/// remaining lines follow, and a closing line that holds a line separator.
///
/// `cwd` is what the host learned of its working directory. Without a directory that
/// is valid text there is nothing to rewrite, and the failure is reported in words:
/// both where the directory is no valid text and where the lookup itself failed.
pub fn modify_script(
    script: &String,
    options: &ScriptOptions,
    platform: Platform,
    cwd: Result<Option<String>, std::io::Error>,
) -> (result: Result<String, ScriptError>)
    ensures
        modified_view(result) == modified(
            script@,
            options@,
            platform,
            working_directory_view(cwd),
        ),
{
    match cwd {
        Ok(Some(dir)) => Ok(rewrite(script.as_str(), options, platform, dir.as_str())),
        Ok(None) => Err(
            ScriptError {
                info: ErrorInfo::Description("Unable to extract current working directory path."),
            },
        ),
        Err(_) => Err(
            ScriptError {
                info: ErrorInfo::Description("Unable to extract current working directory path."),
            },
        ),
    }
}

} // verus!
