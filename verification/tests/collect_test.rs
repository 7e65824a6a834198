use run_script::collect::{collect, get_exit_code, ProcessOutput};

#[test]
fn get_exit_code_success_is_zero() {
    assert_eq!(get_exit_code(true, Some(0)), 0);
    assert_eq!(get_exit_code(true, None), 0);
    assert_eq!(get_exit_code(true, Some(3)), 0);
}

#[test]
fn get_exit_code_failure_keeps_the_code() {
    assert_eq!(get_exit_code(false, Some(7)), 7);
    assert_eq!(get_exit_code(false, Some(-5)), -5);
    assert_eq!(get_exit_code(false, Some(0)), 0);
    assert_eq!(get_exit_code(false, Some(i32::MAX)), i32::MAX);
}

#[test]
fn get_exit_code_without_code_is_minus_one() {
    assert_eq!(get_exit_code(false, None), -1);
}

#[test]
fn collect_valid_output() {
    let output = ProcessOutput {
        success: true,
        code: Some(0),
        stdout: b"hello\n".to_vec(),
        stderr: "wärn".as_bytes().to_vec(),
    };
    assert_eq!(collect(&output), (0, "hello\n".to_string(), "wärn".to_string()));
}

#[test]
fn collect_empty_output() {
    let output = ProcessOutput { success: true, code: Some(0), stdout: vec![], stderr: vec![] };
    assert_eq!(collect(&output), (0, String::new(), String::new()));
}

#[test]
fn collect_replaces_what_is_no_text() {
    let output = ProcessOutput {
        success: false,
        code: Some(2),
        stdout: vec![0x66, 0x6f, 0xff, 0x6f],
        stderr: vec![0xc3],
    };
    assert_eq!(collect(&output), (2, "fo\u{fffd}o".to_string(), "\u{fffd}".to_string()));
}

#[test]
fn collect_after_a_signal() {
    let output = ProcessOutput { success: false, code: None, stdout: vec![], stderr: vec![] };
    assert_eq!(collect(&output).0, -1);
}

#[test]
fn exit_code_is_zero_exactly_after_success() {
    for (success, code) in [(true, Some(0)), (false, Some(1)), (false, Some(-1)), (false, None)] {
        assert_eq!(success, code == Some(0));
        assert_eq!(get_exit_code(success, code) == 0, success);
    }
}
