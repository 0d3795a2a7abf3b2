use yaoscope::resolver::buffer_text;
use yaoscope::resolver::find_process_name;
use yaoscope::resolver::normalize_app_name;
use yaoscope::resolver::window_title_text;
use yaoscope::resolver::ProcessEntry;
use yaoscope::resolver::ResolveError;

fn units_of(text: &str) -> Vec<u16> {
    text.encode_utf16().collect()
}

fn entry(process_id: u32, exe: &str) -> ProcessEntry {
    let mut exe_file = units_of(exe);
    exe_file.push(0);
    exe_file.push(0x58); // stale data past the terminator
    ProcessEntry { process_id, exe_file }
}

#[test]
fn buffer_text_stops_at_the_terminator() {
    let mut units = units_of("notepad.exe");
    units.push(0);
    units.extend(units_of("junk"));
    assert_eq!(buffer_text(&units), "notepad.exe");
}

#[test]
fn buffer_text_without_terminator_reads_everything() {
    assert_eq!(buffer_text(&units_of("cmd")), "cmd");
    assert_eq!(buffer_text(&Vec::new()), "");
}

#[test]
fn window_title_uses_the_read_length() {
    let mut units = units_of("Document - Editor");
    units.resize(256, 0);
    assert_eq!(window_title_text(&units, 8), "Document");
}

#[test]
fn empty_title_maps_to_placeholder() {
    let units = vec![0u16; 256];
    assert_eq!(window_title_text(&units, 0), "Unknown Window");
}

#[test]
fn exe_suffix_is_stripped_case_insensitively() {
    assert_eq!(normalize_app_name("notepad.exe"), "notepad");
    assert_eq!(normalize_app_name("Notepad.EXE"), "Notepad");
    assert_eq!(normalize_app_name("oddball.eXe"), "oddball");
}

#[test]
fn names_without_the_suffix_are_unchanged() {
    assert_eq!(normalize_app_name("bash"), "bash");
    assert_eq!(normalize_app_name("archive.exec"), "archive.exec");
    assert_eq!(normalize_app_name("exe"), "exe");
    assert_eq!(normalize_app_name(""), "");
}

#[test]
fn process_lookup_finds_the_first_match() {
    let entries = vec![entry(1, "a.exe"), entry(2, "b.exe"), entry(2, "c.exe")];
    assert_eq!(find_process_name(&entries, 2), Ok("b.exe".to_string()));
    assert_eq!(find_process_name(&entries, 1), Ok("a.exe".to_string()));
}

#[test]
fn process_lookup_reports_a_miss() {
    let entries = vec![entry(1, "a.exe")];
    assert_eq!(find_process_name(&entries, 9), Err(ResolveError::ProcessNotFound));
    assert_eq!(find_process_name(&Vec::new(), 1), Err(ResolveError::ProcessNotFound));
}

#[test]
fn resolve_errors_describe_themselves() {
    assert_eq!(ResolveError::CursorUnavailable.message(), "Failed to get cursor position");
    assert_eq!(ResolveError::NoForegroundWindow.message(), "No foreground window found");
    assert_eq!(ResolveError::ProcessNotFound.message(), "Process not found");
}
