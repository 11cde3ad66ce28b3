use cliperge::environment::{
    check_clipboard_environment, diagnosis_report, is_listed, missing_tools_warning,
    suggest_installation, ClipboardEnvironment, ToolProbe,
};

fn probes(list: &[(&str, bool)]) -> Vec<ToolProbe> {
    list.iter().map(|(name, present)| ToolProbe { name: name.to_string(), present: *present }).collect()
}

fn strings(list: &[&str]) -> Vec<String> {
    list.iter().map(|text| text.to_string()).collect()
}

#[test]
fn tools_are_sorted_into_available_and_missing() {
    let found = probes(&[("xclip", false), ("xsel", true), ("wl-copy", false)]);
    let environment = check_clipboard_environment("linux", &found);
    assert_eq!(environment.os, "linux");
    assert_eq!(environment.available_tools, strings(&["xsel"]));
    assert_eq!(environment.missing_tools, strings(&["xclip", "wl-copy"]));
    assert!(environment.has_native_support);
}

#[test]
fn no_tool_found_means_no_native_support() {
    let found = probes(&[("xclip", false), ("xsel", false), ("wl-copy", false)]);
    let environment = check_clipboard_environment("linux", &found);
    assert!(environment.available_tools.is_empty());
    assert_eq!(environment.missing_tools, strings(&["xclip", "xsel", "wl-copy"]));
    assert!(!environment.has_native_support);
}

#[test]
fn no_tool_looked_for_means_no_native_support() {
    let environment = check_clipboard_environment("freebsd", &vec![]);
    assert_eq!(environment.os, "freebsd");
    assert!(environment.available_tools.is_empty());
    assert!(environment.missing_tools.is_empty());
    assert!(!environment.has_native_support);
}

#[test]
fn all_tools_found_in_order() {
    let found = probes(&[("xclip", true), ("xsel", true), ("wl-copy", true)]);
    let environment = check_clipboard_environment("linux", &found);
    assert_eq!(environment.available_tools, strings(&["xclip", "xsel", "wl-copy"]));
    assert!(environment.missing_tools.is_empty());
    assert!(environment.has_native_support);
}

#[test]
fn nothing_is_suggested_where_a_tool_is_available() {
    let environment = check_clipboard_environment("linux", &probes(&[("xclip", true)]));
    assert!(suggest_installation(&environment).is_empty());
    assert!(missing_tools_warning(&environment).is_empty());
}

#[test]
fn suggestions_on_linux_with_wayland() {
    let found = probes(&[("xclip", false), ("xsel", false), ("wl-copy", false)]);
    let environment = check_clipboard_environment("linux", &found);
    assert_eq!(
        suggest_installation(&environment),
        strings(&[
            "",
            "Installation Suggestions:",
            "",
            "Install one of the following clipboard tools:",
            "  Ubuntu/Debian: sudo apt install xclip",
            "  Fedora/RHEL:   sudo dnf install xclip",
            "  Arch Linux:    sudo pacman -S xclip",
            "  openSUSE:      sudo zypper install xclip",
            "",
            "For Wayland users:",
            "  Ubuntu/Debian: sudo apt install wl-clipboard",
        ])
    );
}

#[test]
fn suggestions_on_linux_without_wayland() {
    let environment = ClipboardEnvironment {
        os: "linux".to_string(),
        available_tools: vec![],
        missing_tools: strings(&["xclip", "xsel"]),
        has_native_support: false,
    };
    let lines = suggest_installation(&environment);
    assert_eq!(lines.len(), 8);
    assert_eq!(lines[7], "  openSUSE:      sudo zypper install xclip");
}

#[test]
fn suggestions_on_macos() {
    let environment = check_clipboard_environment("macos", &probes(&[("pbcopy", false)]));
    assert_eq!(
        suggest_installation(&environment),
        strings(&[
            "",
            "Installation Suggestions:",
            "pbcopy should be pre-installed on macOS.",
            "If missing, reinstall Command Line Tools:",
            "  xcode-select --install",
        ])
    );
}

#[test]
fn suggestions_on_another_system() {
    let environment = check_clipboard_environment("windows", &vec![]);
    assert_eq!(suggest_installation(&environment), strings(&["", "Installation Suggestions:"]));
}

#[test]
fn report_with_a_tool_available() {
    let found = probes(&[("xclip", true), ("xsel", false), ("wl-copy", false)]);
    let environment = check_clipboard_environment("linux", &found);
    assert_eq!(
        diagnosis_report(&environment),
        strings(&[
            "Clipboard Environment Diagnostics",
            "========================================",
            "",
            "Operating System: linux",
            "",
            "Clipboard Tools:",
            "  ✓ xclip (available)",
            "  ✗ xsel (not found)",
            "  ✗ wl-copy (not found)",
            "",
            "Status:",
            "  ✓ Native clipboard support available",
        ])
    );
}

#[test]
fn report_without_any_tool() {
    let environment = check_clipboard_environment("macos", &probes(&[("pbcopy", false)]));
    assert_eq!(
        diagnosis_report(&environment),
        strings(&[
            "Clipboard Environment Diagnostics",
            "========================================",
            "",
            "Operating System: macos",
            "",
            "Clipboard Tools:",
            "  ✗ No clipboard tools found",
            "  ✗ pbcopy (not found)",
            "",
            "Status:",
            "  ✗ No native clipboard support",
            "  ⚠ cliperge may not work properly",
            "",
            "Installation Suggestions:",
            "pbcopy should be pre-installed on macOS.",
            "If missing, reinstall Command Line Tools:",
            "  xcode-select --install",
        ])
    );
}

#[test]
fn rule_of_the_report_is_forty_wide() {
    let environment = check_clipboard_environment("linux", &vec![]);
    assert_eq!(diagnosis_report(&environment)[1], "=".repeat(40));
}

#[test]
fn warning_without_any_tool() {
    let environment = check_clipboard_environment("macos", &probes(&[("pbcopy", false)]));
    assert_eq!(
        missing_tools_warning(&environment),
        strings(&[
            "Warning: No clipboard tools found!",
            "cliperge may not work properly on this system.",
            "",
            "Available tools:",
            "  None",
            "",
            "Missing tools:",
            "  ✗ pbcopy",
            "",
            "Installation Suggestions:",
            "pbcopy should be pre-installed on macOS.",
            "If missing, reinstall Command Line Tools:",
            "  xcode-select --install",
            "",
            "Run 'cliperge doctor' for more information.",
            "",
        ])
    );
}

#[test]
fn warning_lists_tools_that_are_named_available() {
    let environment = ClipboardEnvironment {
        os: "plan9".to_string(),
        available_tools: strings(&["snarf"]),
        missing_tools: vec![],
        has_native_support: false,
    };
    let lines = missing_tools_warning(&environment);
    assert_eq!(lines[4], "  ✓ snarf");
    assert_eq!(lines[6], "Missing tools:");
}

#[test]
fn membership_in_a_list() {
    let list = strings(&["xclip", "wl-copy"]);
    assert!(is_listed(&list, "wl-copy"));
    assert!(!is_listed(&list, "wl-cop"));
    assert!(!is_listed(&vec![], "wl-copy"));
}
