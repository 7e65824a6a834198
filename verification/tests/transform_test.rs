use run_script::transform::modify_script;
use run_script::{ErrorInfo, Platform, ScriptOptions};
use std::io::{Error, ErrorKind};

fn cwd(dir: &str) -> Result<Option<String>, Error> {
    Ok(Some(dir.to_string()))
}

fn modified(script: &str, options: &ScriptOptions, platform: Platform, dir: &str) -> String {
    modify_script(&script.to_string(), options, platform, cwd(dir)).unwrap()
}

#[test]
fn modify_script_plain_script_gets_cd_first() {
    let options = ScriptOptions::new();
    let text = modified("echo test", &options, Platform::Unix, "/home/me");
    assert_eq!(text, "cd /home/me\necho test\n\n");
}

#[test]
fn modify_script_keeps_interpreter_line_first() {
    let options = ScriptOptions::new();
    let text = modified("#!/bin/bash\necho test", &options, Platform::Unix, "/work");
    assert_eq!(text, "#!/bin/bash\ncd /work\necho test\n\n");
    assert_eq!(text.lines().next(), Some("#!/bin/bash"));
}

#[test]
fn modify_script_interpreter_line_alone() {
    let options = ScriptOptions::new();
    let text = modified("#!/bin/sh", &options, Platform::Unix, "/work");
    assert_eq!(text, "#!/bin/sh\ncd /work\n\n");
}

#[test]
fn modify_script_exit_on_error() {
    let mut options = ScriptOptions::new();
    options.exit_on_error = true;
    let text = modified("false\necho after", &options, Platform::Unix, "/work");
    assert_eq!(text, "set -e\ncd /work\nfalse\necho after\n\n");
}

#[test]
fn modify_script_print_commands() {
    let mut options = ScriptOptions::new();
    options.print_commands = true;
    let text = modified("echo test", &options, Platform::Unix, "/work");
    assert_eq!(text, "set -x\ncd /work\necho test\n\n");
}

#[test]
fn modify_script_both_directives_behind_interpreter_line() {
    let mut options = ScriptOptions::new();
    options.exit_on_error = true;
    options.print_commands = true;
    let text = modified("#!/bin/bash\necho a\necho b", &options, Platform::Unix, "/work");
    assert_eq!(text, "#!/bin/bash\nset -e\nset -x\ncd /work\necho a\necho b\n\n");
}

#[test]
fn modify_script_windows_gets_no_shell_directives() {
    let mut options = ScriptOptions::new();
    options.exit_on_error = true;
    options.print_commands = true;
    let text = modified("dir", &options, Platform::Windows, "C:\\work");
    assert_eq!(text, "cd C:\\work\ndir\n\n");
}

#[test]
fn modify_script_trims_both_ends() {
    let options = ScriptOptions::new();
    let text = modified("\n        echo \"Test\"\n        exit 0\n        ", &options, Platform::Unix, "/w");
    assert_eq!(text, "cd /w\necho \"Test\"\n        exit 0\n\n");
}

#[test]
fn modify_script_trimming_uncovers_interpreter_line() {
    let options = ScriptOptions::new();
    let text = modified("  \n#!/bin/sh\nls", &options, Platform::Unix, "/w");
    assert_eq!(text, "#!/bin/sh\ncd /w\nls\n\n");
}

#[test]
fn modify_script_empty_script() {
    let options = ScriptOptions::new();
    assert_eq!(modified("", &options, Platform::Unix, "/w"), "cd /w\n\n\n");
    assert_eq!(modified("   \n\t ", &options, Platform::Unix, "/w"), "cd /w\n\n\n");
}

#[test]
fn modify_script_keeps_inner_blank_lines_and_unicode() {
    let options = ScriptOptions::new();
    let text = modified("echo α\n\necho \u{a0}β\u{3000}", &options, Platform::Unix, "/høme");
    assert_eq!(text, "cd /høme\necho α\n\necho \u{a0}β\n\n");
}

#[test]
fn modify_script_hash_without_bang_is_no_interpreter_line() {
    let options = ScriptOptions::new();
    assert_eq!(modified("# note\nls", &options, Platform::Unix, "/w"), "cd /w\n# note\nls\n\n");
    assert_eq!(modified("#", &options, Platform::Unix, "/w"), "cd /w\n#\n\n");
}

#[test]
fn modify_script_directory_that_is_no_text() {
    let options = ScriptOptions::new();
    let result = modify_script(&"echo test".to_string(), &options, Platform::Unix, Ok(None));
    match result {
        Err(error) => match error.info {
            ErrorInfo::Description(text) => {
                assert_eq!(text, "Unable to extract current working directory path.")
            }
            ErrorInfo::IOError(_) => panic!("expected a description"),
        },
        Ok(_) => panic!("expected an error"),
    }
}

#[test]
fn modify_script_directory_lookup_failed() {
    let options = ScriptOptions::new();
    let lookup = Err(Error::new(ErrorKind::NotFound, "gone"));
    let result = modify_script(&"echo test".to_string(), &options, Platform::Unix, lookup);
    match result {
        Err(error) => match error.info {
            ErrorInfo::Description(text) => {
                assert_eq!(text, "Unable to extract current working directory path.")
            }
            ErrorInfo::IOError(_) => panic!("expected a description"),
        },
        Ok(_) => panic!("expected an error"),
    }
}
