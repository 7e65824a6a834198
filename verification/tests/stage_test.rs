use run_script::stage::{
    additional_temp_path_of, create_script_file, get_additional_temp_path, random_file_name,
};
use run_script::Platform;
use std::path::PathBuf;

#[test]
fn random_file_name_is_ten_letters_and_digits() {
    for _ in 0..200 {
        let name = random_file_name();
        assert_eq!(name.chars().count(), 10);
        assert!(name.chars().all(|c| c.is_ascii_alphanumeric()));
    }
}

#[test]
fn random_file_names_vary() {
    let first = random_file_name();
    let mut varied = false;
    for _ in 0..20 {
        if random_file_name() != first {
            varied = true;
        }
    }
    assert!(varied);
}

#[test]
fn windows_has_no_additional_temp_path() {
    assert_eq!(get_additional_temp_path(Platform::Windows), None);
}

#[test]
fn additional_temp_path_is_plain_text() {
    if let Some(user) = get_additional_temp_path(Platform::Unix) {
        assert!(!user.is_empty());
    }
}

#[test]
fn additional_temp_path_of_each_lookup() {
    assert_eq!(additional_temp_path_of(None), None);
    assert_eq!(additional_temp_path_of(Some(None)), None);
    assert_eq!(additional_temp_path_of(Some(Some("me".to_string()))), Some("me".to_string()));
}

#[test]
fn create_script_file_with_user() {
    let file = create_script_file(
        &"cd /w\nls\n\n".to_string(),
        PathBuf::from("/tmp"),
        &Some("me".to_string()),
        &"aB3dE6gH9j".to_string(),
        Platform::Unix,
    );
    assert_eq!(file.root, PathBuf::from("/tmp"));
    assert_eq!(file.directories, vec!["me".to_string(), "run_script".to_string()]);
    assert_eq!(file.file_name, "aB3dE6gH9j.sh");
    assert_eq!(file.contents, "cd /w\nls\n\n");
}

#[test]
fn create_script_file_without_user() {
    let file = create_script_file(
        &"dir".to_string(),
        PathBuf::from("C:\\Temp"),
        &None,
        &"0123456789".to_string(),
        Platform::Windows,
    );
    assert_eq!(file.root, PathBuf::from("C:\\Temp"));
    assert_eq!(file.directories, vec!["run_script".to_string()]);
    assert_eq!(file.file_name, "0123456789.bat");
    assert_eq!(file.contents, "dir");
}

#[test]
fn different_names_give_different_files() {
    let script = "echo same".to_string();
    let temp = PathBuf::from("/tmp");
    let first =
        create_script_file(&script, temp.clone(), &None, &"aaaaaaaaaa".to_string(), Platform::Unix);
    let second =
        create_script_file(&script, temp, &None, &"aaaaaaaaab".to_string(), Platform::Unix);
    assert_eq!(first.root, second.root);
    assert_eq!(first.directories, second.directories);
    assert_ne!(first.file_name, second.file_name);
}
