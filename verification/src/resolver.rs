//! The foreground-context resolver.
//!
//! The host probes the operating system — the cursor position, the foreground
//! window's title buffer and owning process id, and a snapshot of the process
//! list — and hands the raw values here. This module does the rest: it
//! truncates and decodes the title buffer, walks the snapshot for the owning
//! process, cuts the executable file name at its terminator, and strips the
//! executable suffix so that downstream matching is suffix-agnostic.

use vstd::prelude::*;
use vstd::slice::slice_subrange;
use vstd::string::StringExecFns;
use vstd::string::StrSliceExecFns;

verus! {

/// Relies on str's `PartialEq` implementation: equality of the underlying text.
#[verifier::external_body]
pub(crate) fn str_eq(a: &str, b: &str) -> (r: bool)
    ensures
        r == (a@ == b@),
{
    a == b
}

/// What `String::from_utf16_lossy` returns for the given code units; the
/// result is a function of the units alone.
pub uninterp spec fn utf16_lossy(units: Seq<u16>) -> Seq<char>;

/// Relies on `String::from_utf16_lossy`: decodes UTF-16 code units,
/// replacing invalid data with the replacement character; an empty input
/// gives an empty string.
#[verifier::external_body]
fn decode_utf16_lossy(units: &[u16]) -> (r: String)
    ensures
        r@ == utf16_lossy(units@),
        units@.len() == 0 ==> r@.len() == 0,
{
    String::from_utf16_lossy(units)
}

/// Index of the first zero code unit, or the buffer length when there is
/// none: a zero terminates the text stored in a fixed-size buffer.
pub open spec fn spec_nul_cut(units: Seq<u16>) -> int
    decreases units.len(),
{
    if units.len() == 0 {
        0
    } else if units[0] == 0 {
        0
    } else {
        1 + spec_nul_cut(units.drop_first())
    }
}

proof fn lemma_nul_cut_at(units: Seq<u16>, i: int)
    requires
        0 <= i <= units.len(),
        forall|j: int| 0 <= j < i ==> units[j] != 0,
        i < units.len() ==> units[i] == 0,
    ensures
        spec_nul_cut(units) == i,
    decreases units.len(),
{
    if i == 0 {
    } else {
        lemma_nul_cut_at(units.drop_first(), i - 1);
    }
}

/// The text content of a fixed-size buffer: everything before the first zero
/// code unit, decoded.
pub open spec fn spec_buffer_text(units: Seq<u16>) -> Seq<char> {
    utf16_lossy(units.subrange(0, spec_nul_cut(units)))
}

/// Decodes the name stored in a zero-terminated, fixed-size buffer, such as
/// the executable file name of a process-list entry.
pub fn buffer_text(units: &Vec<u16>) -> (r: String)
    ensures
        r@ == spec_buffer_text(units@),
{
    let mut i: usize = 0;
    while i < units.len() && units[i] != 0
        invariant
            0 <= i <= units@.len(),
            forall|j: int| 0 <= j < i ==> units@[j] != 0,
        decreases units@.len() - i,
    {
        i += 1;
    }
    proof {
        lemma_nul_cut_at(units@, i as int);
    }
    decode_utf16_lossy(slice_subrange(units.as_slice(), 0, i))
}

/// Decodes a window title read into a buffer of which the first `title_len`
/// code units are meaningful. A truncated or empty title maps to the
/// placeholder name, never to an error.
pub fn window_title_text(units: &Vec<u16>, title_len: usize) -> (r: String)
    requires
        title_len <= units@.len(),
    ensures
        title_len > 0 ==> r@ == utf16_lossy(units@.subrange(0, title_len as int)),
        title_len == 0 ==> r@ == "Unknown Window"@,
{
    if title_len > 0 {
        decode_utf16_lossy(slice_subrange(units.as_slice(), 0, title_len))
    } else {
        String::from_str("Unknown Window")
    }
}

/// Whether a name ends with the executable suffix, compared without regard
/// to letter case.
pub open spec fn spec_has_exe_suffix(s: Seq<char>) -> bool {
    &&& s.len() >= 4
    &&& s[s.len() - 4] == '.'
    &&& (s[s.len() - 3] == 'e' || s[s.len() - 3] == 'E')
    &&& (s[s.len() - 2] == 'x' || s[s.len() - 2] == 'X')
    &&& (s[s.len() - 1] == 'e' || s[s.len() - 1] == 'E')
}

/// A name with the executable suffix stripped when present, unchanged
/// otherwise.
pub open spec fn spec_normalized_name(s: Seq<char>) -> Seq<char> {
    if spec_has_exe_suffix(s) {
        s.subrange(0, s.len() - 4)
    } else {
        s
    }
}

/// Strips the executable suffix from a resolved process name when present,
/// so that matching on the bare application name is suffix-agnostic.
pub fn normalize_app_name(name: &str) -> (r: String)
    ensures
        r@ == spec_normalized_name(name@),
{
    let n = name.unicode_len();
    let has_suffix = n >= 4 && {
        let dot = name.get_char(n - 4);
        let e1 = name.get_char(n - 3);
        let x = name.get_char(n - 2);
        let e2 = name.get_char(n - 1);
        dot == '.' && (e1 == 'e' || e1 == 'E') && (x == 'x' || x == 'X') && (e2 == 'e' || e2
            == 'E')
    };
    if has_suffix {
        name.substring_char(0, n - 4).to_owned()
    } else {
        name.to_owned()
    }
}

/// One entry of a process-list snapshot: the process id and the fixed-size,
/// zero-terminated buffer holding its executable file name.
pub struct ProcessEntry {
    /// Identifier of the process.
    pub process_id: u32,
    /// Executable file name, zero-terminated inside a fixed-size buffer.
    pub exe_file: Vec<u16>,
}

/// The executable-name buffer of the first snapshot entry whose process id
/// matches, if any.
pub open spec fn spec_process_lookup(entries: Seq<ProcessEntry>, process_id: u32) -> Option<
    Seq<u16>,
>
    decreases entries.len(),
{
    if entries.len() == 0 {
        None
    } else if entries[0].process_id == process_id {
        Some(entries[0].exe_file@)
    } else {
        spec_process_lookup(entries.drop_first(), process_id)
    }
}

proof fn lemma_process_lookup_at(entries: Seq<ProcessEntry>, process_id: u32, i: int)
    requires
        0 <= i < entries.len(),
        forall|j: int| 0 <= j < i ==> entries[j].process_id != process_id,
        entries[i].process_id == process_id,
    ensures
        spec_process_lookup(entries, process_id) == Some(entries[i].exe_file@),
    decreases entries.len(),
{
    if i == 0 {
    } else {
        lemma_process_lookup_at(entries.drop_first(), process_id, i - 1);
    }
}

proof fn lemma_process_lookup_none(entries: Seq<ProcessEntry>, process_id: u32)
    requires
        forall|j: int| 0 <= j < entries.len() ==> entries[j].process_id != process_id,
    ensures
        spec_process_lookup(entries, process_id) is None,
    decreases entries.len(),
{
    if entries.len() == 0 {
    } else {
        lemma_process_lookup_none(entries.drop_first(), process_id);
    }
}

/// Why the foreground context could not be resolved.
#[derive(Clone, Copy, Debug, PartialEq, Eq, Structural)]
pub enum ResolveError {
    /// The cursor position could not be read.
    CursorUnavailable,
    /// There is no foreground window to resolve.
    NoForegroundWindow,
    /// No process in the snapshot matches the window's owning process id.
    ProcessNotFound,
}

impl ResolveError {
    /// A human-readable description of the failure.
    pub fn message(&self) -> (r: String)
        ensures
            *self is CursorUnavailable ==> r@ == "Failed to get cursor position"@,
            *self is NoForegroundWindow ==> r@ == "No foreground window found"@,
            *self is ProcessNotFound ==> r@ == "Process not found"@,
    {
        match self {
            ResolveError::CursorUnavailable => String::from_str("Failed to get cursor position"),
            ResolveError::NoForegroundWindow => String::from_str("No foreground window found"),
            ResolveError::ProcessNotFound => String::from_str("Process not found"),
        }
    }
}

/// Resolves a process id to the executable file name of the first matching
/// snapshot entry, or reports that no entry matches.
pub fn find_process_name(entries: &Vec<ProcessEntry>, process_id: u32) -> (r: Result<
    String,
    ResolveError,
>)
    ensures
        r is Ok <==> spec_process_lookup(entries@, process_id) is Some,
        r matches Ok(name) ==> spec_process_lookup(entries@, process_id) matches Some(units)
            && name@ == spec_buffer_text(units),
        r matches Err(e) ==> e is ProcessNotFound,
{
    let n = entries.len();
    let mut i: usize = 0;
    while i < n
        invariant
            n == entries@.len(),
            0 <= i <= n,
            forall|j: int| 0 <= j < i ==> entries@[j].process_id != process_id,
        decreases n - i,
    {
        if entries[i].process_id == process_id {
            proof {
                lemma_process_lookup_at(entries@, process_id, i as int);
            }
            return Ok(buffer_text(&entries[i].exe_file));
        }
        i += 1;
    }
    proof {
        lemma_process_lookup_none(entries@, process_id);
    }
    Err(ResolveError::ProcessNotFound)
}

} // verus!
