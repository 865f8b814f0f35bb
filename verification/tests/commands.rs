use persist_commands::commands::{
    check_project_exists_response, load_project_response, save_export_response,
    save_project_response,
};
use persist_commands::messages::{
    decode_failure_message, load_failure_message, save_export_failure_message,
    save_project_failure_message,
};

#[test]
fn load_failure_message_is_exact() {
    let m = load_failure_message("/tmp/project.json", "No such file or directory (os error 2)");
    assert_eq!(
        m,
        "Failed to load project file /tmp/project.json: No such file or directory (os error 2)"
    );
}

#[test]
fn save_project_failure_message_is_exact() {
    let m = save_project_failure_message("/tmp/project.json", "Permission denied (os error 13)");
    assert_eq!(
        m,
        "Failed to save project file /tmp/project.json: Permission denied (os error 13)"
    );
}

#[test]
fn save_export_failure_message_is_exact() {
    let m = save_export_failure_message("/tmp/export.bin", "Permission denied (os error 13)");
    assert_eq!(
        m,
        "Failed to save export file /tmp/export.bin: Permission denied (os error 13)"
    );
}

#[test]
fn decode_failure_message_is_exact() {
    let m = decode_failure_message("Invalid symbol 33, offset 10.");
    assert_eq!(
        m,
        "Failed to decode base64 content: Invalid symbol 33, offset 10."
    );
}

#[test]
fn load_response_passes_text_through() {
    let r = load_project_response("/tmp/project.json", Ok(String::from("{\"title\":\"x\"}")));
    assert_eq!(r, Ok(String::from("{\"title\":\"x\"}")));
}

#[test]
fn load_response_failure_names_path() {
    let r = load_project_response(
        "/no/such/dir/project.json",
        Err(String::from("No such file or directory (os error 2)")),
    );
    let m = r.unwrap_err();
    assert!(m.contains("/no/such/dir/project.json"));
    assert_eq!(
        m,
        "Failed to load project file /no/such/dir/project.json: \
         No such file or directory (os error 2)"
    );
}

#[test]
fn save_project_response_passes_success_through() {
    let r = save_project_response("/tmp/project.json", Ok(()));
    assert_eq!(r, Ok(()));
}

#[test]
fn save_project_response_failure_names_path() {
    let r = save_project_response(
        "/no/such/dir/project.json",
        Err(String::from("No such file or directory (os error 2)")),
    );
    let m = r.unwrap_err();
    assert!(m.contains("/no/such/dir/project.json"));
    assert_eq!(
        m,
        "Failed to save project file /no/such/dir/project.json: \
         No such file or directory (os error 2)"
    );
}

#[test]
fn save_export_response_passes_success_through() {
    let r = save_export_response("/tmp/export.bin", Ok(()));
    assert_eq!(r, Ok(()));
}

#[test]
fn save_export_response_failure_names_path() {
    let r = save_export_response(
        "/no/such/dir/export.bin",
        Err(String::from("Permission denied (os error 13)")),
    );
    let m = r.unwrap_err();
    assert!(m.contains("/no/such/dir/export.bin"));
    assert_eq!(
        m,
        "Failed to save export file /no/such/dir/export.bin: \
         Permission denied (os error 13)"
    );
}

#[test]
fn exists_response_never_fails() {
    assert_eq!(check_project_exists_response(true), Ok(true));
    assert_eq!(check_project_exists_response(false), Ok(false));
}
