//! The clipboard tools of the machine: which are there, which are missing,
//! and what to tell the user about it.

use crate::clipboard::{platform_named, Platform};
use crate::text::{push_line, same_text, texts};
use vstd::prelude::*;
use vstd::string::*;

verus! {

/// Whether one clipboard tool was found on the execution path.
#[derive(Debug)]
pub struct ToolProbe {
    pub name: String,
    pub present: bool,
}

/// What is known of the clipboard tools of the machine.
#[derive(Debug)]
pub struct ClipboardEnvironment {
    pub os: String,
    pub available_tools: Vec<String>,
    pub missing_tools: Vec<String>,
    pub has_native_support: bool,
}

/// A `ClipboardEnvironment` as plain values.
pub struct Snapshot {
    pub os: Seq<char>,
    pub available: Seq<Seq<char>>,
    pub missing: Seq<Seq<char>>,
    pub has_native_support: bool,
}

impl View for ClipboardEnvironment {
    type V = Snapshot;

    open spec fn view(&self) -> Snapshot {
        Snapshot {
            os: self.os@,
            available: texts(self.available_tools@),
            missing: texts(self.missing_tools@),
            has_native_support: self.has_native_support,
        }
    }
}

impl ClipboardEnvironment {
    /// There is native support exactly where a tool is available.
    pub open spec fn well_formed(&self) -> bool {
        self.has_native_support == (self.available_tools@.len() > 0)
    }
}

/// The names of the probed tools that were found (`present` true) or were not
/// (`present` false), in the order of the probes.
pub open spec fn tools_where(probes: Seq<ToolProbe>, present: bool) -> Seq<Seq<char>> {
    probes.filter(|probe: ToolProbe| probe.present == present).map_values(
        |probe: ToolProbe| probe.name@,
    )
}

/// The snapshot that the probes of the tools give on the system `os`.
pub open spec fn snapshot_of(os: Seq<char>, probes: Seq<ToolProbe>) -> Snapshot {
    Snapshot {
        os,
        available: tools_where(probes, true),
        missing: tools_where(probes, false),
        has_native_support: tools_where(probes, true).len() > 0,
    }
}

/// Every probed tool is either available or missing: the two lists together
/// are as long as the list of probes.
pub proof fn lemma_every_tool_is_sorted(probes: Seq<ToolProbe>)
    ensures
        tools_where(probes, true).len() + tools_where(probes, false).len() == probes.len(),
    decreases probes.len(),
{
    let found = |probe: ToolProbe| probe.present == true;
    let lost = |probe: ToolProbe| probe.present == false;
    reveal(Seq::filter);
    if probes.len() > 0 {
        lemma_every_tool_is_sorted(probes.drop_last());
        assert(probes.filter(found).len() + probes.filter(lost).len() == probes.len());
    }
}

/// Sorts the probed tools into those that are available and those that are
/// missing, each in the order of the probes.
pub fn check_clipboard_environment(os: &str, probes: &Vec<ToolProbe>) -> (environment:
    ClipboardEnvironment)
    ensures
        environment@ == snapshot_of(os@, probes@),
        environment.well_formed(),
{
    let ghost found = |probe: ToolProbe| probe.present == true;
    let ghost lost = |probe: ToolProbe| probe.present == false;
    let ghost name = |probe: ToolProbe| probe.name@;
    let mut available_tools: Vec<String> = Vec::new();
    let mut missing_tools: Vec<String> = Vec::new();
    let mut i: usize = 0;
    proof {
        reveal(Seq::filter);
        assert(probes@.take(0).filter(found) =~= Seq::<ToolProbe>::empty());
        assert(probes@.take(0).filter(lost) =~= Seq::<ToolProbe>::empty());
        assert(texts(available_tools@) =~= tools_where(probes@.take(0), true));
        assert(texts(missing_tools@) =~= tools_where(probes@.take(0), false));
    }
    while i < probes.len()
        invariant
            i <= probes.len(),
            found == |probe: ToolProbe| probe.present == true,
            lost == |probe: ToolProbe| probe.present == false,
            name == |probe: ToolProbe| probe.name@,
            texts(available_tools@) == tools_where(probes@.take(i as int), true),
            texts(missing_tools@) == tools_where(probes@.take(i as int), false),
        decreases probes.len() - i,
    {
        let probe = &probes[i];
        let ghost before = probes@.take(i as int);
        let ghost available = texts(available_tools@);
        let ghost missing = texts(missing_tools@);
        proof {
            assert(probes@.take(i + 1) =~= before.push(*probe));
            before.lemma_filter_push(*probe, found);
            before.lemma_filter_push(*probe, lost);
        }
        if probe.present {
            available_tools.push(probe.name.clone());
            assert(texts(available_tools@) =~= available.push(probe.name@));
            assert(before.filter(found).push(*probe).map_values(name) =~= before.filter(
                found,
            ).map_values(name).push(probe.name@));
        } else {
            missing_tools.push(probe.name.clone());
            assert(texts(missing_tools@) =~= missing.push(probe.name@));
            assert(before.filter(lost).push(*probe).map_values(name) =~= before.filter(
                lost,
            ).map_values(name).push(probe.name@));
        }
        i += 1;
    }
    assert(probes@.take(probes.len() as int) =~= probes@);
    let has_native_support = available_tools.len() > 0;
    ClipboardEnvironment { os: os.to_owned(), available_tools, missing_tools, has_native_support }
}

/// How to come by a clipboard tool on Linux.
pub open spec fn linux_suggestions() -> Seq<Seq<char>> {
    seq![
        ""@,
        "Install one of the following clipboard tools:"@,
        "  Ubuntu/Debian: sudo apt install xclip"@,
        "  Fedora/RHEL:   sudo dnf install xclip"@,
        "  Arch Linux:    sudo pacman -S xclip"@,
        "  openSUSE:      sudo zypper install xclip"@,
    ]
}

/// How to come by the Wayland clipboard tool.
pub open spec fn wayland_suggestions() -> Seq<Seq<char>> {
    seq![""@, "For Wayland users:"@, "  Ubuntu/Debian: sudo apt install wl-clipboard"@]
}

/// How to come by the clipboard tool on macOS.
pub open spec fn macos_suggestions() -> Seq<Seq<char>> {
    seq![
        "pbcopy should be pre-installed on macOS."@,
        "If missing, reinstall Command Line Tools:"@,
        "  xcode-select --install"@,
    ]
}

/// The lines that suggest what to install: none where a tool is available,
/// else a heading and the advice for the operating system of the snapshot,
/// with the advice for Wayland where `wl-copy` is among the missing tools.
pub open spec fn suggestion_lines(environment: Snapshot) -> Seq<Seq<char>> {
    if environment.has_native_support {
        Seq::empty()
    } else {
        seq![""@, "Installation Suggestions:"@] + match platform_named(environment.os) {
            Platform::Linux => linux_suggestions() + if environment.missing.contains("wl-copy"@) {
                wayland_suggestions()
            } else {
                Seq::empty()
            },
            Platform::MacOs => macos_suggestions(),
            Platform::Unsupported => Seq::empty(),
        }
    }
}

/// Whether `name` is among `list`.
pub fn is_listed(list: &Vec<String>, name: &str) -> (found: bool)
    ensures
        found == texts(list@).contains(name@),
{
    let mut i: usize = 0;
    while i < list.len()
        invariant
            i <= list.len(),
            forall|j: int| 0 <= j < i ==> texts(list@)[j] != name@,
        decreases list.len() - i,
    {
        if same_text(list[i].as_str(), name) {
            assert(texts(list@)[i as int] == name@);
            return true;
        }
        i += 1;
    }
    false
}

/// The lines that suggest what to install, in the order in which they are
/// to be shown; an empty string is an empty line.
pub fn suggest_installation(environment: &ClipboardEnvironment) -> (lines: Vec<String>)
    ensures
        texts(lines@) == suggestion_lines(environment@),
{
    let mut lines: Vec<String> = Vec::new();
    assert(texts(lines@) =~= Seq::<Seq<char>>::empty());
    if environment.has_native_support {
        return lines;
    }
    push_line(&mut lines, "");
    push_line(&mut lines, "Installation Suggestions:");
    match Platform::from_os(environment.os.as_str()) {
        Platform::Linux => {
            push_line(&mut lines, "");
            push_line(&mut lines, "Install one of the following clipboard tools:");
            push_line(&mut lines, "  Ubuntu/Debian: sudo apt install xclip");
            push_line(&mut lines, "  Fedora/RHEL:   sudo dnf install xclip");
            push_line(&mut lines, "  Arch Linux:    sudo pacman -S xclip");
            push_line(&mut lines, "  openSUSE:      sudo zypper install xclip");
            if is_listed(&environment.missing_tools, "wl-copy") {
                push_line(&mut lines, "");
                push_line(&mut lines, "For Wayland users:");
                push_line(&mut lines, "  Ubuntu/Debian: sudo apt install wl-clipboard");
            }
        },
        Platform::MacOs => {
            push_line(&mut lines, "pbcopy should be pre-installed on macOS.");
            push_line(&mut lines, "If missing, reinstall Command Line Tools:");
            push_line(&mut lines, "  xcode-select --install");
        },
        Platform::Unsupported => {},
    }
    assert(texts(lines@) =~= suggestion_lines(environment@));
    lines
}

/// One line for each tool: `lead`, the tool's name, `trail`.
pub open spec fn tool_lines(tools: Seq<Seq<char>>, lead: Seq<char>, trail: Seq<char>) -> Seq<
    Seq<char>,
> {
    Seq::new(tools.len(), |i: int| lead + tools[i] + trail)
}

/// The lines of the report on the clipboard tools: a heading, the operating
/// system, a line for each tool that is available and for each that is
/// missing, the status, and the suggestions.
pub open spec fn diagnosis_lines(environment: Snapshot) -> Seq<Seq<char>> {
    seq![
        "Clipboard Environment Diagnostics"@,
        "========================================"@,
        ""@,
        "Operating System: "@ + environment.os,
        ""@,
        "Clipboard Tools:"@,
    ] + (if environment.available.len() == 0 {
        seq!["  ✗ No clipboard tools found"@]
    } else {
        tool_lines(environment.available, "  ✓ "@, " (available)"@)
    }) + tool_lines(environment.missing, "  ✗ "@, " (not found)"@) + seq![""@, "Status:"@] + (
    if environment.has_native_support {
        seq!["  ✓ Native clipboard support available"@]
    } else {
        seq!["  ✗ No native clipboard support"@, "  ⚠ cliperge may not work properly"@]
    }) + suggestion_lines(environment)
}

/// The lines that warn of missing clipboard tools before files are combined:
/// none where a tool is available.
pub open spec fn warning_lines(environment: Snapshot) -> Seq<Seq<char>> {
    if environment.has_native_support {
        Seq::empty()
    } else {
        seq![
            "Warning: No clipboard tools found!"@,
            "cliperge may not work properly on this system."@,
            ""@,
            "Available tools:"@,
        ] + (if environment.available.len() == 0 {
            seq!["  None"@]
        } else {
            tool_lines(environment.available, "  ✓ "@, ""@)
        }) + seq![""@, "Missing tools:"@] + tool_lines(environment.missing, "  ✗ "@, ""@)
            + suggestion_lines(environment) + seq![
            ""@,
            "Run 'cliperge doctor' for more information."@,
            ""@,
        ]
    }
}

fn push_tool_lines(lines: &mut Vec<String>, tools: &Vec<String>, lead: &str, trail: &str)
    ensures
        texts(final(lines)@) == texts(old(lines)@) + tool_lines(texts(tools@), lead@, trail@),
{
    let ghost start = texts(lines@);
    let mut i: usize = 0;
    assert(texts(lines@) =~= start + tool_lines(texts(tools@), lead@, trail@).take(0));
    while i < tools.len()
        invariant
            i <= tools.len(),
            texts(lines@) == start + tool_lines(texts(tools@), lead@, trail@).take(i as int),
        decreases tools.len() - i,
    {
        let mut line = lead.to_owned();
        line.append(tools[i].as_str());
        line.append(trail);
        let ghost before = texts(lines@);
        push_line(lines, line.as_str());
        assert(texts(lines@) =~= start + tool_lines(texts(tools@), lead@, trail@).take(i + 1));
        i += 1;
    }
    assert(tool_lines(texts(tools@), lead@, trail@).take(tools.len() as int) =~= tool_lines(
        texts(tools@),
        lead@,
        trail@,
    ));
}

fn push_lines(lines: &mut Vec<String>, more: &Vec<String>)
    ensures
        texts(final(lines)@) == texts(old(lines)@) + texts(more@),
{
    let ghost start = texts(lines@);
    let mut i: usize = 0;
    assert(texts(lines@) =~= start + texts(more@).take(0));
    while i < more.len()
        invariant
            i <= more.len(),
            texts(lines@) == start + texts(more@).take(i as int),
        decreases more.len() - i,
    {
        push_line(lines, more[i].as_str());
        assert(texts(lines@) =~= start + texts(more@).take(i + 1));
        i += 1;
    }
    assert(texts(more@).take(more.len() as int) =~= texts(more@));
}

/// The report on the clipboard tools, line by line; an empty string is an
/// empty line.
pub fn diagnosis_report(environment: &ClipboardEnvironment) -> (lines: Vec<String>)
    ensures
        texts(lines@) == diagnosis_lines(environment@),
{
    let mut lines: Vec<String> = Vec::new();
    assert(texts(lines@) =~= Seq::<Seq<char>>::empty());
    push_line(&mut lines, "Clipboard Environment Diagnostics");
    push_line(&mut lines, "========================================");
    push_line(&mut lines, "");
    let mut system = "Operating System: ".to_owned();
    system.append(environment.os.as_str());
    push_line(&mut lines, system.as_str());
    push_line(&mut lines, "");
    push_line(&mut lines, "Clipboard Tools:");
    if environment.available_tools.len() == 0 {
        push_line(&mut lines, "  ✗ No clipboard tools found");
    } else {
        push_tool_lines(&mut lines, &environment.available_tools, "  ✓ ", " (available)");
    }
    push_tool_lines(&mut lines, &environment.missing_tools, "  ✗ ", " (not found)");
    push_line(&mut lines, "");
    push_line(&mut lines, "Status:");
    if environment.has_native_support {
        push_line(&mut lines, "  ✓ Native clipboard support available");
    } else {
        push_line(&mut lines, "  ✗ No native clipboard support");
        push_line(&mut lines, "  ⚠ cliperge may not work properly");
    }
    let suggestions = suggest_installation(environment);
    push_lines(&mut lines, &suggestions);
    assert(texts(lines@) =~= diagnosis_lines(environment@));
    lines
}

/// The warning of missing clipboard tools, line by line; nothing where a
/// tool is available.
pub fn missing_tools_warning(environment: &ClipboardEnvironment) -> (lines: Vec<String>)
    ensures
        texts(lines@) == warning_lines(environment@),
{
    let mut lines: Vec<String> = Vec::new();
    assert(texts(lines@) =~= Seq::<Seq<char>>::empty());
    if environment.has_native_support {
        return lines;
    }
    push_line(&mut lines, "Warning: No clipboard tools found!");
    push_line(&mut lines, "cliperge may not work properly on this system.");
    push_line(&mut lines, "");
    push_line(&mut lines, "Available tools:");
    if environment.available_tools.len() == 0 {
        push_line(&mut lines, "  None");
    } else {
        push_tool_lines(&mut lines, &environment.available_tools, "  ✓ ", "");
    }
    push_line(&mut lines, "");
    push_line(&mut lines, "Missing tools:");
    push_tool_lines(&mut lines, &environment.missing_tools, "  ✗ ", "");
    let suggestions = suggest_installation(environment);
    push_lines(&mut lines, &suggestions);
    push_line(&mut lines, "");
    push_line(&mut lines, "Run 'cliperge doctor' for more information.");
    push_line(&mut lines, "");
    assert(texts(lines@) =~= warning_lines(environment@));
    lines
}

} // verus!
