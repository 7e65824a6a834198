use run_script::launch::{create_command_builder, resolve_command};
use run_script::{IoOptions, Platform, ScriptOptions};

fn strings(texts: &[&str]) -> Vec<String> {
    texts.iter().map(|text| text.to_string()).collect()
}

#[test]
fn create_command_builder_default_options() {
    let options = ScriptOptions::new();
    let command = create_command_builder("sh", &strings(&["/tmp/a.sh", "x"]), &options);
    assert_eq!(command.program, "sh");
    assert_eq!(command.args, strings(&["/tmp/a.sh", "x"]));
    assert_eq!(command.stdin, IoOptions::Inherit);
    assert_eq!(command.stdout, IoOptions::Pipe);
    assert_eq!(command.stderr, IoOptions::Pipe);
}

#[test]
fn create_command_builder_each_policy() {
    for (input, output) in [
        (IoOptions::Null, IoOptions::Inherit),
        (IoOptions::Pipe, IoOptions::Null),
        (IoOptions::Inherit, IoOptions::Pipe),
    ] {
        let mut options = ScriptOptions::new();
        options.capture_input = input;
        options.capture_output = output;
        let command = create_command_builder("prog", &strings(&[]), &options);
        assert_eq!(command.program, "prog");
        assert!(command.args.is_empty());
        assert_eq!(command.stdin, input);
        assert_eq!(command.stdout, output);
        assert_eq!(command.stderr, output);
    }
}

#[test]
fn resolve_command_default_shell_elsewhere() {
    let options = ScriptOptions::new();
    let command = resolve_command(
        &"/tmp/run_script/abc.sh".to_string(),
        &strings(&["ARG1", "ARG2"]),
        &options,
        Platform::Unix,
    );
    assert_eq!(command.program, "sh");
    assert_eq!(command.args, strings(&["/tmp/run_script/abc.sh", "ARG1", "ARG2"]));
}

#[test]
fn resolve_command_default_shell_on_windows() {
    let options = ScriptOptions::new();
    let command = resolve_command(
        &"C:\\Temp\\run_script\\abc.bat".to_string(),
        &strings(&["ARG1"]),
        &options,
        Platform::Windows,
    );
    assert_eq!(command.program, "cmd.exe");
    assert_eq!(command.args, strings(&["/C", "C:\\Temp\\run_script\\abc.bat", "ARG1"]));
}

#[test]
fn resolve_command_with_runner() {
    let mut options = ScriptOptions::new();
    options.runner = Some("/bin/bash".to_string());
    let command =
        resolve_command(&"/tmp/x.sh".to_string(), &strings(&["a"]), &options, Platform::Unix);
    assert_eq!(command.program, "/bin/bash");
    assert_eq!(command.args, strings(&["/tmp/x.sh", "a"]));
}

#[test]
fn resolve_command_with_runner_on_windows_passes_the_file_first() {
    let mut options = ScriptOptions::new();
    options.runner = Some("powershell".to_string());
    let command =
        resolve_command(&"C:\\x.bat".to_string(), &strings(&[]), &options, Platform::Windows);
    assert_eq!(command.program, "powershell");
    assert_eq!(command.args, strings(&["C:\\x.bat"]));
}

#[test]
fn resolve_command_follows_stream_policy() {
    let mut options = ScriptOptions::new();
    options.capture_input = IoOptions::Null;
    options.capture_output = IoOptions::Inherit;
    let command = resolve_command(&"f".to_string(), &strings(&[]), &options, Platform::Unix);
    assert_eq!(command.stdin, IoOptions::Null);
    assert_eq!(command.stdout, IoOptions::Inherit);
    assert_eq!(command.stderr, IoOptions::Inherit);
}
