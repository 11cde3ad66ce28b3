use cliperge::clipboard::{
    get_platform_tools, select_helper, transfer_result, ClipboardError, HelperRun, Platform,
};

#[test]
fn platforms_by_name() {
    assert_eq!(Platform::from_os("macos"), Platform::MacOs);
    assert_eq!(Platform::from_os("linux"), Platform::Linux);
    assert_eq!(Platform::from_os("windows"), Platform::Unsupported);
    assert_eq!(Platform::from_os("Linux"), Platform::Unsupported);
    assert_eq!(Platform::from_os(""), Platform::Unsupported);
}

#[test]
fn helper_of_each_platform() {
    let helper = Platform::MacOs.helper().unwrap();
    assert_eq!(helper.program, "pbcopy");
    assert!(helper.arguments.is_empty());
    let helper = Platform::Linux.helper().unwrap();
    assert_eq!(helper.program, "xclip");
    assert_eq!(helper.arguments, vec!["-selection".to_string(), "clipboard".to_string()]);
    assert!(Platform::Unsupported.helper().is_none());
}

#[test]
fn tools_of_each_platform() {
    assert_eq!(get_platform_tools(Platform::MacOs), vec!["pbcopy".to_string()]);
    assert_eq!(
        get_platform_tools(Platform::Linux),
        vec!["xclip".to_string(), "xsel".to_string(), "wl-copy".to_string()]
    );
    assert!(get_platform_tools(Platform::Unsupported).is_empty());
}

#[test]
fn unsupported_platform_has_no_helper() {
    let error = select_helper(Platform::Unsupported).unwrap_err();
    assert!(matches!(error, ClipboardError::UnsupportedPlatform));
    assert_eq!(error.message(), "Unsupported operating system");
    assert_eq!(select_helper(Platform::Linux).unwrap().program, "xclip");
    assert_eq!(select_helper(Platform::MacOs).unwrap().program, "pbcopy");
}

#[test]
fn successful_run_is_a_transfer() {
    let run = HelperRun::Exited { success: true, status: "exit status: 0".to_string() };
    assert!(transfer_result("xclip", &run).is_ok());
}

#[test]
fn helper_that_cannot_be_started() {
    let run = HelperRun::SpawnFailed { detail: "No such file or directory".to_string() };
    let error = transfer_result("pbcopy", &run).unwrap_err();
    assert!(matches!(&error, ClipboardError::Execute { helper, .. } if helper == "pbcopy"));
    assert_eq!(error.message(), "Failed to execute pbcopy: No such file or directory");
}

#[test]
fn helper_that_does_not_take_the_text() {
    let run = HelperRun::WriteFailed { detail: "Broken pipe".to_string() };
    let error = transfer_result("xclip", &run).unwrap_err();
    assert!(matches!(&error, ClipboardError::Write { .. }));
    assert_eq!(error.message(), "Failed to write to xclip stdin: Broken pipe");
}

#[test]
fn helper_that_cannot_be_waited_for() {
    let run = HelperRun::WaitFailed { detail: "interrupted".to_string() };
    let error = transfer_result("xclip", &run).unwrap_err();
    assert!(matches!(&error, ClipboardError::Wait { .. }));
    assert_eq!(error.message(), "Failed to wait on xclip: interrupted");
}

#[test]
fn helper_that_ends_without_success() {
    let run = HelperRun::Exited { success: false, status: "exit status: 1".to_string() };
    let error = transfer_result("xclip", &run).unwrap_err();
    assert!(matches!(&error, ClipboardError::Status { .. }));
    assert_eq!(error.message(), "xclip exited with non-zero status: exit status: 1");
}

#[test]
fn failed_transfer_leaves_the_document_as_it_was() {
    let document = "```a.txt\nhello\n```\n\n".to_string();
    let run = HelperRun::SpawnFailed { detail: "No such file or directory".to_string() };
    assert!(transfer_result("xclip", &run).is_err());
    assert_eq!(document, "```a.txt\nhello\n```\n\n");
}
