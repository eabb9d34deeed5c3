use xmr_supervisor::install::{
    archive_path, expand_tilde, extraction_result, home_result, install_dir, is_txt_name, owner_writable,
    tool_result, ToolOutcome, ARCHIVE_URL,
};

#[test]
fn test_initialize() {
    assert_eq!(install_dir("/home/u"), "/home/u/xmr");
    assert_eq!(archive_path("/home/u"), "/home/u/xmr.zip");
    assert!(ARCHIVE_URL.ends_with("/xmr.zip"));
}

#[test]
fn acquisition_outcomes() {
    assert_eq!(home_result(Some("/h".to_string())), Ok("/h".to_string()));
    assert_eq!(home_result(None), Err("Could not determine home directory".to_string()));
    assert_eq!(
        tool_result("wget", ToolOutcome::NotRun("no such file".to_string())),
        Err("Failed to execute wget: no such file".to_string())
    );
    assert_eq!(
        tool_result("unzip", ToolOutcome::Exited { success: false, status: "exit status: 9".to_string() }),
        Err("unzip failed with exit code: exit status: 9".to_string())
    );
    assert_eq!(tool_result("unzip", ToolOutcome::Exited { success: true, status: String::new() }), Ok(()));
    assert_eq!(extraction_result(true), Ok(()));
    assert_eq!(
        extraction_result(false),
        Err("XMR folder was not created properly after extraction".to_string())
    );
}

#[test]
fn tilde_expansion() {
    assert_eq!(expand_tilde("~/xmr/", "/home/u"), "/home/u/xmr/");
    assert_eq!(expand_tilde("/usr/bin/", "/home/u"), "/usr/bin/");
    assert_eq!(expand_tilde("~", "/home/u"), "~");
    assert_eq!(expand_tilde("~/", "/home/u/"), "/home/u/");
}

#[test]
fn txt_names() {
    assert!(is_txt_name("notes.txt"));
    assert!(is_txt_name("a.b.txt"));
    assert!(!is_txt_name(".txt"));
    assert!(!is_txt_name("notes.txt.bak"));
    assert!(!is_txt_name("txt"));
}

#[test]
fn owner_write_bit() {
    assert!(owner_writable(0o755));
    assert!(owner_writable(0o40200));
    assert!(!owner_writable(0o555));
    assert!(!owner_writable(0));
}
