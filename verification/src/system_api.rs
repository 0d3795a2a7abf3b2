//! The system API manager: the captured-context store and the screenshot
//! cache.
//!
//! The manager assembles a [`CursorAppInfo`] from the raw values of a
//! foreground probe, keeps the most recent one for later queries, and caches
//! screenshots per application, serving a cached image while it is still
//! fresh. The host guards the one manager value of the process with a lock.

use vstd::prelude::*;
use vstd::string::StringExecFns;
use vstd::string::StrSliceExecFns;
use crate::resolver::str_eq;
use crate::resolver::ProcessEntry;
use crate::resolver::ResolveError;
use crate::resolver::find_process_name;
use crate::resolver::normalize_app_name;
use crate::resolver::spec_buffer_text;
use crate::resolver::spec_normalized_name;
use crate::resolver::spec_process_lookup;
use crate::resolver::utf16_lossy;
use crate::resolver::window_title_text;
use base64::Engine;
use base64::engine::general_purpose::STANDARD;

verus! {

/// How long a cached screenshot stays fresh, in seconds.
pub const SCREENSHOT_CACHE_FRESH_SECS: u64 = 5;

/// The context captured for one gesture: where the cursor was and what
/// application the user was interacting with at that instant.
#[derive(Debug)]
pub struct CursorAppInfo {
    /// Cursor position on screen.
    pub cursor_x: i32,
    /// Cursor position on screen.
    pub cursor_y: i32,
    /// Resolved application name, without the executable suffix.
    pub app_name: String,
    /// Title of the foreground window.
    pub window_title: String,
    /// Identifier of the owning process.
    pub process_id: u32,
    /// Wall-clock time of the capture, in seconds.
    pub timestamp: u64,
}

impl Clone for CursorAppInfo {
    fn clone(&self) -> (r: Self)
        ensures
            r == *self,
    {
        CursorAppInfo {
            cursor_x: self.cursor_x,
            cursor_y: self.cursor_y,
            app_name: self.app_name.clone(),
            window_title: self.window_title.clone(),
            process_id: self.process_id,
            timestamp: self.timestamp,
        }
    }
}

/// One captured screenshot, stored per application.
#[derive(Debug)]
pub struct ScreenshotInfo {
    /// Application the screenshot belongs to.
    pub app_name: String,
    /// Title of the captured window.
    pub window_title: String,
    /// Image data, encoded for transport.
    pub data: String,
    /// Width of the image in pixels.
    pub width: u32,
    /// Height of the image in pixels.
    pub height: u32,
    /// Wall-clock time of the capture, in seconds.
    pub timestamp: u64,
}

impl Clone for ScreenshotInfo {
    fn clone(&self) -> (r: Self)
        ensures
            r == *self,
    {
        ScreenshotInfo {
            app_name: self.app_name.clone(),
            window_title: self.window_title.clone(),
            data: self.data.clone(),
            width: self.width,
            height: self.height,
            timestamp: self.timestamp,
        }
    }
}

/// What the host read about the foreground window at probe time.
pub struct WindowProbe {
    /// The window title, as read into a fixed-size buffer.
    pub title_units: Vec<u16>,
    /// How many leading code units of the buffer are meaningful.
    pub title_len: usize,
    /// Identifier of the process owning the window.
    pub process_id: u32,
}

impl WindowProbe {
    /// The meaningful part of the title never exceeds the buffer.
    pub open spec fn wf(&self) -> bool {
        self.title_len <= self.title_units@.len()
    }
}

/// Everything the host could read from the OS at the moment of resolution,
/// as plain values. A `None` marks the corresponding query as failed.
pub struct ForegroundProbe {
    /// The cursor position, or `None` when it could not be read.
    pub cursor: Option<(i32, i32)>,
    /// The foreground window, or `None` when there is none.
    pub window: Option<WindowProbe>,
}

impl ForegroundProbe {
    /// Well-formedness of the raw values.
    pub open spec fn wf(&self) -> bool {
        self.window matches Some(w) ==> w.wf()
    }
}

/// The process-list snapshot as the resolution sees it: `None` when the
/// snapshot could not be taken.
pub open spec fn spec_snapshot_view(snapshot: Option<&Vec<ProcessEntry>>) -> Option<
    Seq<ProcessEntry>,
> {
    match snapshot {
        Some(entries) => Some(entries@),
        None => None,
    }
}

/// The window title the resolution reports: the decoded meaningful prefix of
/// the buffer, or the placeholder for an empty read.
pub open spec fn spec_resolved_title(w: &WindowProbe) -> Seq<char> {
    if w.title_len > 0 {
        utf16_lossy(w.title_units@.subrange(0, w.title_len as int))
    } else {
        "Unknown Window"@
    }
}

/// The application name the resolution reports, before suffix stripping:
/// the executable name of the owning process, or the placeholder when the
/// snapshot is missing or holds no matching process.
pub open spec fn spec_raw_process_name(snapshot: Option<Seq<ProcessEntry>>, process_id: u32) -> Seq<
    char,
> {
    match snapshot {
        Some(entries) => match spec_process_lookup(entries, process_id) {
            Some(units) => spec_buffer_text(units),
            None => "Unknown Process"@,
        },
        None => "Unknown Process"@,
    }
}

/// The error a probe resolves to, if any: no cursor reading or no foreground
/// window makes the whole resolution fail; everything else is recovered with
/// placeholders.
pub open spec fn spec_resolution_error(probe: &ForegroundProbe) -> Option<ResolveError> {
    if probe.cursor is None {
        Some(ResolveError::CursorUnavailable)
    } else if probe.window is None {
        Some(ResolveError::NoForegroundWindow)
    } else {
        None
    }
}

/// Whether `info` is exactly what the given probe and snapshot resolve to.
pub open spec fn spec_resolves_to(
    probe: &ForegroundProbe,
    snapshot: Option<&Vec<ProcessEntry>>,
    now: u64,
    info: CursorAppInfo,
) -> bool {
    &&& probe.cursor matches Some(c) && info.cursor_x == c.0 && info.cursor_y == c.1
    &&& probe.window matches Some(w) && info.process_id == w.process_id
        && info.window_title@ == spec_resolved_title(&w) && info.app_name@
        == spec_normalized_name(spec_raw_process_name(spec_snapshot_view(snapshot), w.process_id))
    &&& info.timestamp == now
}

/// The first cached screenshot stored under the given application name.
pub open spec fn spec_cache_lookup(cache: Seq<ScreenshotInfo>, app_name: Seq<char>) -> Option<
    ScreenshotInfo,
>
    decreases cache.len(),
{
    if cache.len() == 0 {
        None
    } else if cache[0].app_name@ == app_name {
        Some(cache[0])
    } else {
        spec_cache_lookup(cache.drop_first(), app_name)
    }
}

/// Whether a cached screenshot is still fresh at time `now`.
pub open spec fn spec_cache_fresh(shot: ScreenshotInfo, now: u64) -> bool {
    shot.timestamp <= now && now - shot.timestamp < SCREENSHOT_CACHE_FRESH_SECS
}

/// The cached screenshot a lookup at time `now` serves: the entry stored
/// under the name, provided it is still fresh.
pub open spec fn spec_fresh_cached(
    cache: Seq<ScreenshotInfo>,
    app_name: Seq<char>,
    now: u64,
) -> Option<ScreenshotInfo> {
    match spec_cache_lookup(cache, app_name) {
        Some(shot) => if spec_cache_fresh(shot, now) {
            Some(shot)
        } else {
            None
        },
        None => None,
    }
}

proof fn lemma_cache_lookup_at(cache: Seq<ScreenshotInfo>, app_name: Seq<char>, i: int)
    requires
        0 <= i < cache.len(),
        forall|j: int| 0 <= j < i ==> cache[j].app_name@ != app_name,
        cache[i].app_name@ == app_name,
    ensures
        spec_cache_lookup(cache, app_name) == Some(cache[i]),
    decreases cache.len(),
{
    if i == 0 {
    } else {
        lemma_cache_lookup_at(cache.drop_first(), app_name, i - 1);
    }
}

proof fn lemma_cache_lookup_none(cache: Seq<ScreenshotInfo>, app_name: Seq<char>)
    requires
        forall|j: int| 0 <= j < cache.len() ==> cache[j].app_name@ != app_name,
    ensures
        spec_cache_lookup(cache, app_name) is None,
    decreases cache.len(),
{
    if cache.len() == 0 {
    } else {
        lemma_cache_lookup_none(cache.drop_first(), app_name);
    }
}

proof fn lemma_cache_lookup_update_other(
    cache: Seq<ScreenshotInfo>,
    i: int,
    shot: ScreenshotInfo,
    app_name: Seq<char>,
)
    requires
        0 <= i < cache.len(),
        cache[i].app_name@ == shot.app_name@,
        app_name != shot.app_name@,
    ensures
        spec_cache_lookup(cache.update(i, shot), app_name) == spec_cache_lookup(cache, app_name),
    decreases cache.len(),
{
    let updated = cache.update(i, shot);
    if i == 0 {
        assert(updated.drop_first() =~= cache.drop_first());
    } else {
        assert(updated.drop_first() =~= cache.drop_first().update(i - 1, shot));
        lemma_cache_lookup_update_other(cache.drop_first(), i - 1, shot, app_name);
    }
}

proof fn lemma_cache_lookup_push_other(
    cache: Seq<ScreenshotInfo>,
    shot: ScreenshotInfo,
    app_name: Seq<char>,
)
    requires
        app_name != shot.app_name@,
    ensures
        spec_cache_lookup(cache.push(shot), app_name) == spec_cache_lookup(cache, app_name),
    decreases cache.len(),
{
    if cache.len() == 0 {
        assert(cache.push(shot)[0] == shot);
        assert(cache.push(shot).drop_first() =~= Seq::<ScreenshotInfo>::empty());
        assert(spec_cache_lookup(cache.push(shot).drop_first(), app_name) is None);
    } else {
        assert(cache.push(shot)[0] == cache[0]);
        assert(cache.push(shot).drop_first() =~= cache.drop_first().push(shot));
        lemma_cache_lookup_push_other(cache.drop_first(), shot, app_name);
    }
}

proof fn lemma_cache_lookup_push_hit(cache: Seq<ScreenshotInfo>, shot: ScreenshotInfo)
    requires
        forall|j: int| 0 <= j < cache.len() ==> cache[j].app_name@ != shot.app_name@,
    ensures
        spec_cache_lookup(cache.push(shot), shot.app_name@) == Some(shot),
    decreases cache.len(),
{
    if cache.len() == 0 {
    } else {
        assert(cache.push(shot).drop_first() =~= cache.drop_first().push(shot));
        lemma_cache_lookup_push_hit(cache.drop_first(), shot);
    }
}

proof fn lemma_cache_lookup_update_hit(cache: Seq<ScreenshotInfo>, i: int, shot: ScreenshotInfo)
    requires
        0 <= i < cache.len(),
        forall|j: int| 0 <= j < i ==> cache[j].app_name@ != shot.app_name@,
        cache[i].app_name@ == shot.app_name@,
    ensures
        spec_cache_lookup(cache.update(i, shot), shot.app_name@) == Some(shot),
    decreases cache.len(),
{
    let updated = cache.update(i, shot);
    if i == 0 {
        assert(updated[0] == shot);
    } else {
        assert(updated.drop_first() =~= cache.drop_first().update(i - 1, shot));
        assert(updated[0] == cache[0]);
        lemma_cache_lookup_update_hit(cache.drop_first(), i - 1, shot);
    }
}

/// What `base64`'s standard-alphabet encoder returns for the given bytes;
/// the result is a function of the bytes alone.
pub uninterp spec fn base64_standard(bytes: Seq<u8>) -> Seq<char>;

/// Relies on base64's `Engine::encode` with the standard alphabet: four
/// output characters for every started group of three input bytes, padded.
/// The length bound keeps the computation of the encoded size from
/// overflowing, on which the encoder would panic.
#[verifier::external_body]
fn base64_encode(bytes: &[u8]) -> (r: String)
    requires
        bytes@.len() <= usize::MAX / 2,
    ensures
        r@ == base64_standard(bytes@),
        r@.len() == 4 * ((bytes@.len() + 2) / 3),
{
    STANDARD.encode(bytes)
}

/// The system API manager: the most recent captured context and the
/// per-application screenshot cache.
pub struct SystemApiManager {
    current_cursor_info: Option<CursorAppInfo>,
    screenshot_cache: Vec<ScreenshotInfo>,
}

impl SystemApiManager {
    /// The most recent captured context, if any.
    pub closed spec fn spec_stored_info(&self) -> Option<CursorAppInfo> {
        self.current_cursor_info
    }

    /// The cached screenshots, in storage order.
    pub closed spec fn spec_cache(&self) -> Seq<ScreenshotInfo> {
        self.screenshot_cache@
    }

    /// The cache holds at most one screenshot per application name.
    pub open spec fn inv(&self) -> bool {
        forall|i: int, j: int|
            0 <= i < j < self.spec_cache().len() ==> #[trigger] self.spec_cache()[i].app_name@
                != #[trigger] self.spec_cache()[j].app_name@
    }

    /// A manager with no captured context and an empty cache.
    pub fn new() -> (m: SystemApiManager)
        ensures
            m.spec_stored_info() is None,
            m.spec_cache() == Seq::<ScreenshotInfo>::empty(),
            m.inv(),
    {
        let m = SystemApiManager { current_cursor_info: None, screenshot_cache: Vec::new() };
        proof {
            assert(m.spec_cache() =~= Seq::<ScreenshotInfo>::empty());
        }
        m
    }

    /// Resolves the raw probe values to the captured context.
    ///
    /// A failed cursor reading or a missing foreground window fails the
    /// whole resolution; a missing snapshot, an unmatched process id, or an
    /// empty title are recovered with placeholder names instead.
    pub fn get_cursor_app_info(
        &self,
        probe: &ForegroundProbe,
        snapshot: Option<&Vec<ProcessEntry>>,
        now: u64,
    ) -> (r: Result<CursorAppInfo, ResolveError>)
        requires
            probe.wf(),
        ensures
            r is Ok <==> spec_resolution_error(probe) is None,
            r matches Ok(info) ==> spec_resolves_to(probe, snapshot, now, info),
            r matches Err(e) ==> spec_resolution_error(probe) == Some(e),
    {
        let (cursor_x, cursor_y) = match &probe.cursor {
            Some(c) => (c.0, c.1),
            None => {
                return Err(ResolveError::CursorUnavailable);
            },
        };
        let w = match &probe.window {
            Some(w) => w,
            None => {
                return Err(ResolveError::NoForegroundWindow);
            },
        };
        let window_title = window_title_text(&w.title_units, w.title_len);
        let raw_name = match snapshot {
            Some(entries) => match find_process_name(entries, w.process_id) {
                Ok(name) => name,
                Err(_) => String::from_str("Unknown Process"),
            },
            None => String::from_str("Unknown Process"),
        };
        let app_name = normalize_app_name(raw_name.as_str());
        Ok(
            CursorAppInfo {
                cursor_x,
                cursor_y,
                app_name,
                window_title,
                process_id: w.process_id,
                timestamp: now,
            },
        )
    }

    /// Resolves the probe as [`Self::get_cursor_app_info`] does and, on
    /// success, stores the captured context as the most recent one,
    /// superseding any earlier capture. A failed resolution leaves the
    /// stored context untouched.
    pub fn record_cursor_app_info(
        &mut self,
        probe: &ForegroundProbe,
        snapshot: Option<&Vec<ProcessEntry>>,
        now: u64,
    ) -> (r: Result<CursorAppInfo, ResolveError>)
        requires
            probe.wf(),
        ensures
            r is Ok <==> spec_resolution_error(probe) is None,
            r matches Ok(info) ==> spec_resolves_to(probe, snapshot, now, info)
                && final(self).spec_stored_info() == Some(info),
            r matches Err(e) ==> spec_resolution_error(probe) == Some(e) && *final(self) == *old(
                self,
            ),
            final(self).spec_cache() == old(self).spec_cache(),
            old(self).inv() ==> final(self).inv(),
    {
        match self.get_cursor_app_info(probe, snapshot, now) {
            Ok(info) => {
                self.current_cursor_info = Some(info.clone());
                Ok(info)
            },
            Err(e) => Err(e),
        }
    }

    /// The most recent captured context, or `None` when no capture has been
    /// stored yet.
    pub fn get_stored_cursor_info(&self) -> (r: Option<CursorAppInfo>)
        ensures
            r == self.spec_stored_info(),
    {
        match &self.current_cursor_info {
            Some(info) => Some(info.clone()),
            None => None,
        }
    }

    /// The cached screenshot for the given application, provided it is still
    /// fresh at time `now`.
    pub fn cached_screenshot(&self, app_name: &str, now: u64) -> (r: Option<ScreenshotInfo>)
        ensures
            r == spec_fresh_cached(self.spec_cache(), app_name@, now),
    {
        let n = self.screenshot_cache.len();
        let mut i: usize = 0;
        while i < n
            invariant
                n == self.spec_cache().len(),
                0 <= i <= n,
                forall|j: int| 0 <= j < i ==> self.spec_cache()[j].app_name@ != app_name@,
            decreases n - i,
        {
            if str_eq(self.screenshot_cache[i].app_name.as_str(), app_name) {
                proof {
                    lemma_cache_lookup_at(self.spec_cache(), app_name@, i as int);
                }
                let shot = &self.screenshot_cache[i];
                if shot.timestamp <= now && now - shot.timestamp < SCREENSHOT_CACHE_FRESH_SECS {
                    return Some(shot.clone());
                } else {
                    return None;
                }
            }
            i += 1;
        }
        proof {
            lemma_cache_lookup_none(self.spec_cache(), app_name@);
        }
        None
    }

    /// Stores a screenshot in the cache, replacing any entry already stored
    /// under the same application name. Lookups under every other name are
    /// unaffected.
    pub fn store_screenshot(&mut self, shot: ScreenshotInfo)
        requires
            old(self).inv(),
        ensures
            final(self).inv(),
            spec_cache_lookup(final(self).spec_cache(), shot.app_name@) == Some(shot),
            forall|name: Seq<char>|
                name != shot.app_name@ ==> #[trigger] spec_cache_lookup(
                    final(self).spec_cache(),
                    name,
                ) == spec_cache_lookup(old(self).spec_cache(), name),
            final(self).spec_stored_info() == old(self).spec_stored_info(),
    {
        let n = self.screenshot_cache.len();
        let mut i: usize = 0;
        while i < n
            invariant
                n == self.spec_cache().len(),
                0 <= i <= n,
                forall|j: int| 0 <= j < i ==> self.spec_cache()[j].app_name@ != shot.app_name@,
                old(self).inv(),
                *self == *old(self),
            decreases n - i,
        {
            if str_eq(self.screenshot_cache[i].app_name.as_str(), shot.app_name.as_str()) {
                proof {
                    lemma_cache_lookup_update_hit(self.spec_cache(), i as int, shot);
                    assert forall|name: Seq<char>| name != shot.app_name@ implies
                        #[trigger] spec_cache_lookup(
                        self.spec_cache().update(i as int, shot),
                        name,
                    ) == spec_cache_lookup(self.spec_cache(), name) by {
                        lemma_cache_lookup_update_other(self.spec_cache(), i as int, shot, name);
                    }
                }
                self.screenshot_cache.set(i, shot);
                return ;
            }
            i += 1;
        }
        proof {
            lemma_cache_lookup_push_hit(self.spec_cache(), shot);
            assert forall|name: Seq<char>| name != shot.app_name@ implies
                #[trigger] spec_cache_lookup(self.spec_cache().push(shot), name)
                == spec_cache_lookup(self.spec_cache(), name) by {
                lemma_cache_lookup_push_other(self.spec_cache(), shot, name);
            }
        }
        self.screenshot_cache.push(shot);
    }

    /// The screenshot this platform's fallback capture produces: no image
    /// data and no window identification, only the application name and the
    /// capture time. Platforms with a native capture path store their result
    /// through [`Self::store_screenshot`] instead.
    pub fn capture_app_screenshot_impl(&self, app_name: &str, now: u64) -> (r: ScreenshotInfo)
        ensures
            r.app_name@ == app_name@,
            r.window_title@ == "Unknown"@,
            r.data@ == Seq::<char>::empty(),
            r.width == 0,
            r.height == 0,
            r.timestamp == now,
    {
        ScreenshotInfo {
            app_name: app_name.to_owned(),
            window_title: String::from_str("Unknown"),
            data: String::new(),
            width: 0,
            height: 0,
            timestamp: now,
        }
    }

    /// Takes (or reuses) a screenshot of the given application: a cached
    /// image that is still fresh at time `now` is returned as is; otherwise
    /// a new capture is made, stored in the cache, and returned.
    pub fn capture_app_screenshot(&mut self, app_name: &str, now: u64) -> (r: ScreenshotInfo)
        requires
            old(self).inv(),
        ensures
            final(self).inv(),
            final(self).spec_stored_info() == old(self).spec_stored_info(),
            spec_fresh_cached(old(self).spec_cache(), app_name@, now) matches Some(shot) ==> r
                == shot && *final(self) == *old(self),
            spec_fresh_cached(old(self).spec_cache(), app_name@, now) is None ==> {
                &&& r.app_name@ == app_name@
                &&& r.window_title@ == "Unknown"@
                &&& r.data@ == Seq::<char>::empty()
                &&& r.width == 0
                &&& r.height == 0
                &&& r.timestamp == now
                &&& spec_cache_lookup(final(self).spec_cache(), app_name@) == Some(r)
            },
    {
        if let Some(cached) = self.cached_screenshot(app_name, now) {
            return cached;
        }
        let shot = self.capture_app_screenshot_impl(app_name, now);
        let result = shot.clone();
        self.store_screenshot(shot);
        result
    }

    /// Empties the screenshot cache.
    pub fn clear_screenshot_cache(&mut self)
        ensures
            final(self).inv(),
            final(self).spec_cache() == Seq::<ScreenshotInfo>::empty(),
            final(self).spec_stored_info() == old(self).spec_stored_info(),
    {
        self.screenshot_cache.clear();
        proof {
            assert(self.spec_cache() =~= Seq::<ScreenshotInfo>::empty());
        }
    }

    /// This platform's fallback for direct text delivery to an application:
    /// it performs no input and reports success. Platforms with a native
    /// message path send the sequence of [`wm_char_sequence`] instead.
    pub fn input_text_to_app(&self, app_name: &str, text: &str) -> (r: bool)
        ensures
            r,
    {
        let _ = app_name;
        let _ = text;
        true
    }
}

/// Builds a screenshot record from a raw captured image: the pixel data is
/// encoded for transport, everything else is taken as given.
pub fn screenshot_from_raw(
    app_name: &str,
    window_title: String,
    pixels: &Vec<u8>,
    width: u32,
    height: u32,
    now: u64,
) -> (r: ScreenshotInfo)
    requires
        pixels@.len() <= usize::MAX / 2,
    ensures
        r.app_name@ == app_name@,
        r.window_title == window_title,
        r.data@ == base64_standard(pixels@),
        r.width == width,
        r.height == height,
        r.timestamp == now,
{
    let data = base64_encode(pixels.as_slice());
    ScreenshotInfo { app_name: app_name.to_owned(), window_title, data, width, height, timestamp: now }
}

/// The characters delivered when text is sent to an application as discrete
/// character messages: the text itself followed by a carriage return that
/// commits it.
pub fn wm_char_sequence(text: &str) -> (r: Vec<char>)
    ensures
        r@ == text@.push('\r'),
{
    let n = text.unicode_len();
    let mut out: Vec<char> = Vec::new();
    for i in 0..n
        invariant
            n == text@.len(),
            out@ == text@.subrange(0, i as int),
    {
        let c = text.get_char(i);
        out.push(c);
        proof {
            assert(out@ =~= text@.subrange(0, i + 1 as int));
        }
    }
    out.push('\r');
    proof {
        assert(text@.subrange(0, n as int) =~= text@);
    }
    out
}

} // verus!
