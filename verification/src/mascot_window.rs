use vstd::prelude::*;

use crate::app_settings::CharacterWindowPosition;
use crate::codex::parser::opt_view;
use crate::contracts::DisplayMonitorOption;
use crate::json::str_eq;

verus! {

pub const MIN_WINDOW_SIZE: u32 = 180;
pub const MAX_WINDOW_SIZE: u32 = 1200;

#[derive(Debug, Clone, Copy, PartialEq, Eq, Structural)]
pub struct MascotWindowSize {
    pub width: u32,
    pub height: u32,
}

/// Where the character window ended up: its monitor and position, where known.
#[derive(Debug, Clone, PartialEq, Eq)]
pub struct MascotWindowPlacement {
    pub monitor_id: Option<String>,
    pub position: Option<CharacterWindowPosition>,
}

/// The part of a monitor that windows may use, as edges in desktop coordinates.
#[derive(Debug, Clone, Copy, PartialEq, Eq, Structural)]
pub struct MonitorWorkArea {
    pub left: i32,
    pub top: i32,
    pub right: i32,
    pub bottom: i32,
}

/// A monitor as the window code sees it.
#[derive(Debug, Clone, PartialEq, Eq)]
pub struct DisplayMonitorSnapshot {
    pub option: DisplayMonitorOption,
    pub work_area: MonitorWorkArea,
    pub is_primary: bool,
}

/// The native window handle of the character window.
#[derive(Debug, Clone, Copy, PartialEq, Eq, Structural)]
pub struct NativeMascotWindow {
    pub hwnd: isize,
}

pub open spec fn max0(v: int) -> int {
    if v > 0 { v } else { 0 }
}

pub open spec fn in_i32(v: int) -> bool {
    i32::MIN <= v <= i32::MAX
}

/// The window arithmetic on this size and work area stays within `i32`.
pub open spec fn fits(size: MascotWindowSize, area: MonitorWorkArea) -> bool {
    let w = size.width as i32;
    let h = size.height as i32;
    &&& in_i32(area.right - area.left)
    &&& in_i32(area.bottom - area.top)
    &&& in_i32((area.right - area.left) - w)
    &&& in_i32((area.bottom - area.top) - h)
    &&& in_i32(max0(area.right - area.left) - w)
    &&& in_i32(max0(area.bottom - area.top) - h)
    &&& in_i32(area.left + max0((area.right - area.left) - w))
    &&& in_i32(area.top + max0((area.bottom - area.top) - h))
    &&& in_i32(area.left + max0(max0(area.right - area.left) - w) / 2)
    &&& in_i32(area.top + max0(max0(area.bottom - area.top) - h) / 2)
}

/// The window centred in the work area (top-left aligned where it does not fit).
pub open spec fn centred(size: MascotWindowSize, area: MonitorWorkArea) -> (int, int) {
    let w = size.width as i32;
    let h = size.height as i32;
    (
        area.left + max0(max0(area.right - area.left) - w) / 2,
        area.top + max0(max0(area.bottom - area.top) - h) / 2,
    )
}

pub open spec fn clamp_int(v: int, lo: int, hi: int) -> int {
    if v < lo { lo } else if v > hi { hi } else { v }
}

/// The position moved just enough that the window lies inside the work area
/// (against the left and top edges where it is larger than the area).
pub open spec fn clamped(position: CharacterWindowPosition, size: MascotWindowSize, area: MonitorWorkArea) -> (int, int) {
    let w = size.width as i32;
    let h = size.height as i32;
    (
        clamp_int(position.x as int, area.left as int, area.left + max0((area.right - area.left) - w)),
        clamp_int(position.y as int, area.top as int, area.top + max0((area.bottom - area.top) - h)),
    )
}

pub fn place_window_in_work_area(size: MascotWindowSize, work_area: MonitorWorkArea) -> (r: (i32, i32))
    requires
        fits(size, work_area),
    ensures
        r.0 == centred(size, work_area).0,
        r.1 == centred(size, work_area).1,
{
    let width = size.width as i32;
    let height = size.height as i32;
    let spanx = work_area.right - work_area.left;
    let spany = work_area.bottom - work_area.top;
    let available_width = if spanx > 0 { spanx } else { 0 };
    let available_height = if spany > 0 { spany } else { 0 };
    let extra_w = available_width - width;
    let extra_h = available_height - height;
    let extra_w = if extra_w > 0 { extra_w } else { 0 };
    let extra_h = if extra_h > 0 { extra_h } else { 0 };
    (work_area.left + extra_w / 2, work_area.top + extra_h / 2)
}

pub fn clamp_window_position_to_work_area(
    position: CharacterWindowPosition,
    size: MascotWindowSize,
    work_area: MonitorWorkArea,
) -> (r: CharacterWindowPosition)
    requires
        fits(size, work_area),
    ensures
        r.x == clamped(position, size, work_area).0,
        r.y == clamped(position, size, work_area).1,
{
    let width = size.width as i32;
    let height = size.height as i32;
    let room_x = (work_area.right - work_area.left) - width;
    let room_y = (work_area.bottom - work_area.top) - height;
    let max_x = work_area.left + if room_x > 0 { room_x } else { 0 };
    let max_y = work_area.top + if room_y > 0 { room_y } else { 0 };
    let x = if position.x < work_area.left { work_area.left } else if position.x > max_x { max_x } else { position.x };
    let y = if position.y < work_area.top { work_area.top } else if position.y > max_y { max_y } else { position.y };
    CharacterWindowPosition { x, y }
}

/// A position the user asked for, kept inside the work area.
pub fn clamp_requested_window_position(
    position: CharacterWindowPosition,
    size: MascotWindowSize,
    work_area: MonitorWorkArea,
) -> (r: CharacterWindowPosition)
    requires
        fits(size, work_area),
    ensures
        r.x == clamped(position, size, work_area).0,
        r.y == clamped(position, size, work_area).1,
{
    clamp_window_position_to_work_area(position, size, work_area)
}

/// The index of the first monitor with id `id`.
pub open spec fn index_of_id(ms: Seq<DisplayMonitorSnapshot>, id: Seq<char>) -> Option<int>
    decreases ms.len(),
{
    if ms.len() == 0 {
        None
    } else {
        match index_of_id(ms.drop_last(), id) {
            Some(i) => Some(i),
            None => if ms.last().option.id@ == id { Some(ms.len() - 1) } else { None },
        }
    }
}

/// The index of the first primary monitor.
pub open spec fn primary_index(ms: Seq<DisplayMonitorSnapshot>) -> Option<int>
    decreases ms.len(),
{
    if ms.len() == 0 {
        None
    } else {
        match primary_index(ms.drop_last()) {
            Some(i) => Some(i),
            None => if ms.last().is_primary { Some(ms.len() - 1) } else { None },
        }
    }
}

/// The point lies in the work area (left and top edges included, right and bottom excluded).
pub open spec fn contains_point(area: MonitorWorkArea, position: CharacterWindowPosition) -> bool {
    area.left <= position.x < area.right && area.top <= position.y < area.bottom
}

/// The index of the first monitor whose work area holds the point.
pub open spec fn index_at(ms: Seq<DisplayMonitorSnapshot>, position: CharacterWindowPosition) -> Option<int>
    decreases ms.len(),
{
    if ms.len() == 0 {
        None
    } else {
        match index_at(ms.drop_last(), position) {
            Some(i) => Some(i),
            None => if contains_point(ms.last().work_area, position) { Some(ms.len() - 1) } else { None },
        }
    }
}

pub open spec fn id_at(ms: Seq<DisplayMonitorSnapshot>, i: Option<int>) -> Option<Seq<char>> {
    match i {
        Some(k) => Some(ms[k].option.id@),
        None => None,
    }
}

/// The monitor to use: the requested one when it exists; without a request the current
/// one when it exists; otherwise the first primary monitor, else the first monitor.
pub open spec fn resolved_monitor(requested: Option<Seq<char>>, current: Option<Seq<char>>,
    ms: Seq<DisplayMonitorSnapshot>) -> Option<Seq<char>>
{
    if requested is Some && index_of_id(ms, requested->0) is Some {
        requested
    } else if requested is None && current is Some && index_of_id(ms, current->0) is Some {
        current
    } else if primary_index(ms) is Some {
        id_at(ms, primary_index(ms))
    } else if ms.len() > 0 {
        Some(ms[0].option.id@)
    } else {
        None
    }
}

proof fn lemma_index_of_id_bounds(ms: Seq<DisplayMonitorSnapshot>, id: Seq<char>)
    ensures
        index_of_id(ms, id) matches Some(i) ==> 0 <= i < ms.len() && ms[i].option.id@ == id,
    decreases ms.len(),
{
    if ms.len() > 0 {
        lemma_index_of_id_bounds(ms.drop_last(), id);
    }
}

proof fn lemma_primary_bounds(ms: Seq<DisplayMonitorSnapshot>)
    ensures
        primary_index(ms) matches Some(i) ==> 0 <= i < ms.len() && ms[i].is_primary,
    decreases ms.len(),
{
    if ms.len() > 0 {
        lemma_primary_bounds(ms.drop_last());
    }
}

proof fn lemma_index_at_bounds(ms: Seq<DisplayMonitorSnapshot>, p: CharacterWindowPosition)
    ensures
        index_at(ms, p) matches Some(i) ==> 0 <= i < ms.len() && contains_point(ms[i].work_area, p),
    decreases ms.len(),
{
    if ms.len() > 0 {
        lemma_index_at_bounds(ms.drop_last(), p);
    }
}

/// The index of the first monitor with id `id`.
pub fn find_monitor(monitors: &[DisplayMonitorSnapshot], id: &str) -> (r: Option<usize>)
    ensures
        r matches Some(i) ==> index_of_id(monitors@, id@) == Some(i as int),
        r is None ==> index_of_id(monitors@, id@) is None,
{
    let mut i: usize = 0;
    while i < monitors.len()
        invariant
            i <= monitors.len(),
            index_of_id(monitors@.take(i as int), id@) is None,
        decreases monitors.len() - i,
    {
        let ghost t = monitors@.take(i + 1);
        assert(t.drop_last() == monitors@.take(i as int));
        if str_eq(monitors[i].option.id.as_str(), id) {
            proof {
                lemma_prefix_index_of_id(monitors@, id@, i + 1);
            }
            return Some(i);
        }
        i += 1;
    }
    assert(monitors@.take(monitors@.len() as int) == monitors@);
    None
}

/// A prefix that already holds the id gives the same first index.
proof fn lemma_prefix_index_of_id(ms: Seq<DisplayMonitorSnapshot>, id: Seq<char>, n: int)
    requires
        0 <= n <= ms.len(),
        index_of_id(ms.take(n), id) is Some,
    ensures
        index_of_id(ms, id) == index_of_id(ms.take(n), id),
    decreases ms.len() - n,
{
    if n < ms.len() {
        assert(ms.take(n + 1).drop_last() == ms.take(n));
        lemma_prefix_index_of_id(ms, id, n + 1);
    } else {
        assert(ms.take(n) == ms);
    }
}

proof fn lemma_prefix_primary(ms: Seq<DisplayMonitorSnapshot>, n: int)
    requires
        0 <= n <= ms.len(),
        primary_index(ms.take(n)) is Some,
    ensures
        primary_index(ms) == primary_index(ms.take(n)),
    decreases ms.len() - n,
{
    if n < ms.len() {
        assert(ms.take(n + 1).drop_last() == ms.take(n));
        lemma_prefix_primary(ms, n + 1);
    } else {
        assert(ms.take(n) == ms);
    }
}

proof fn lemma_prefix_index_at(ms: Seq<DisplayMonitorSnapshot>, p: CharacterWindowPosition, n: int)
    requires
        0 <= n <= ms.len(),
        index_at(ms.take(n), p) is Some,
    ensures
        index_at(ms, p) == index_at(ms.take(n), p),
    decreases ms.len() - n,
{
    if n < ms.len() {
        assert(ms.take(n + 1).drop_last() == ms.take(n));
        lemma_prefix_index_at(ms, p, n + 1);
    } else {
        assert(ms.take(n) == ms);
    }
}

fn find_primary(monitors: &[DisplayMonitorSnapshot]) -> (r: Option<usize>)
    ensures
        r matches Some(i) ==> primary_index(monitors@) == Some(i as int),
        r is None ==> primary_index(monitors@) is None,
{
    let mut i: usize = 0;
    while i < monitors.len()
        invariant
            i <= monitors.len(),
            primary_index(monitors@.take(i as int)) is None,
        decreases monitors.len() - i,
    {
        let ghost t = monitors@.take(i + 1);
        assert(t.drop_last() == monitors@.take(i as int));
        if monitors[i].is_primary {
            proof {
                lemma_prefix_primary(monitors@, i + 1);
            }
            return Some(i);
        }
        i += 1;
    }
    assert(monitors@.take(monitors@.len() as int) == monitors@);
    None
}

pub fn resolve_monitor_id(
    requested_monitor_id: Option<&str>,
    current_monitor_id: Option<&str>,
    monitors: &[DisplayMonitorSnapshot],
) -> (r: Option<String>)
    ensures
        opt_view(r) == resolved_monitor(str_opt(requested_monitor_id), str_opt(current_monitor_id), monitors@),
{
    proof {
        if let Some(q) = requested_monitor_id {
            lemma_index_of_id_bounds(monitors@, q@);
        }
        if let Some(c) = current_monitor_id {
            lemma_index_of_id_bounds(monitors@, c@);
        }
        lemma_primary_bounds(monitors@);
    }
    if let Some(requested) = requested_monitor_id {
        if let Some(i) = find_monitor(monitors, requested) {
            return Some(monitors[i].option.id.clone());
        }
    } else if let Some(current) = current_monitor_id {
        if let Some(i) = find_monitor(monitors, current) {
            return Some(monitors[i].option.id.clone());
        }
    }
    if let Some(i) = find_primary(monitors) {
        return Some(monitors[i].option.id.clone());
    }
    if monitors.len() > 0 {
        return Some(monitors[0].option.id.clone());
    }
    None
}

pub open spec fn str_opt(o: Option<&str>) -> Option<Seq<char>> {
    match o {
        Some(s) => Some(s@),
        None => None,
    }
}

/// The id of the first monitor whose work area holds the position.
pub fn monitor_id_for_position(position: CharacterWindowPosition, monitors: &[DisplayMonitorSnapshot]) -> (r: Option<String>)
    ensures
        opt_view(r) == id_at(monitors@, index_at(monitors@, position)),
{
    proof {
        lemma_index_at_bounds(monitors@, position);
    }
    let mut i: usize = 0;
    while i < monitors.len()
        invariant
            i <= monitors.len(),
            index_at(monitors@.take(i as int), position) is None,
        decreases monitors.len() - i,
    {
        let ghost t = monitors@.take(i + 1);
        assert(t.drop_last() == monitors@.take(i as int));
        let area = monitors[i].work_area;
        if position.x >= area.left && position.x < area.right && position.y >= area.top && position.y < area.bottom {
            proof {
                lemma_prefix_index_at(monitors@, position, i + 1);
            }
            return Some(monitors[i].option.id.clone());
        }
        i += 1;
    }
    assert(monitors@.take(monitors@.len() as int) == monitors@);
    None
}

/// Every monitor's work area keeps the window arithmetic within `i32`.
pub open spec fn all_fit(size: MascotWindowSize, ms: Seq<DisplayMonitorSnapshot>) -> bool {
    forall|i: int| 0 <= i < ms.len() ==> fits(size, #[trigger] ms[i].work_area)
}

/// Where the window is restored on the target monitor: the saved position, kept inside the
/// monitor, when it lies on that monitor; otherwise centred on it. `None` without a target
/// monitor among the monitors.
pub open spec fn restored_position(target: Option<Seq<char>>, saved: Option<CharacterWindowPosition>,
    size: MascotWindowSize, ms: Seq<DisplayMonitorSnapshot>) -> Option<(int, int)>
{
    match target {
        None => None,
        Some(t) => match index_of_id(ms, t) {
            None => None,
            Some(k) => if saved is Some && id_at(ms, index_at(ms, saved->0)) == Some(t) {
                Some(clamped(saved->0, size, ms[k].work_area))
            } else {
                Some(centred(size, ms[k].work_area))
            },
        },
    }
}

pub fn resolve_restored_window_position(
    target_monitor_id: Option<&str>,
    saved_position: Option<CharacterWindowPosition>,
    size: MascotWindowSize,
    monitors: &[DisplayMonitorSnapshot],
) -> (r: Option<CharacterWindowPosition>)
    requires
        all_fit(size, monitors@),
    ensures
        r is Some == restored_position(str_opt(target_monitor_id), saved_position, size, monitors@) is Some,
        r matches Some(p) ==> restored_position(str_opt(target_monitor_id), saved_position, size, monitors@)
            == Some((p.x as int, p.y as int)),
{
    let target_monitor_id = match target_monitor_id {
        Some(id) => id,
        None => return None,
    };
    proof {
        lemma_index_of_id_bounds(monitors@, target_monitor_id@);
    }
    let k = match find_monitor(monitors, target_monitor_id) {
        Some(k) => k,
        None => return None,
    };
    let target = &monitors[k];
    assert(fits(size, monitors@[k as int].work_area));
    if let Some(saved) = saved_position {
        let on = monitor_id_for_position(saved, monitors);
        let same = match &on {
            Some(id) => str_eq(id.as_str(), target_monitor_id),
            None => false,
        };
        if same {
            return Some(clamp_window_position_to_work_area(saved, size, target.work_area));
        }
    }
    let (x, y) = place_window_in_work_area(size, target.work_area);
    Some(CharacterWindowPosition { x, y })
}

/// A text with leading and trailing whitespace removed (`str::trim`).
pub open spec fn trimmed(s: Seq<char>) -> Seq<char> {
    crate::text::trim(s)
}

/// The label of a monitor: its friendly name, else the fallback label, else the device
/// name (blank names skipped after trimming), with ` (Primary)` added for the primary monitor.
pub open spec fn monitor_label(device: Seq<char>, friendly: Option<Seq<char>>, fallback: Option<Seq<char>>,
    is_primary: bool) -> Seq<char>
{
    let base = if friendly is Some && trimmed(friendly->0).len() > 0 {
        trimmed(friendly->0)
    } else if fallback is Some && trimmed(fallback->0).len() > 0 {
        trimmed(fallback->0)
    } else {
        device
    };
    if is_primary { base + " (Primary)"@ } else { base }
}

pub fn display_monitor_label(
    device_name: &str,
    friendly_name: Option<&str>,
    fallback_label: Option<&str>,
    is_primary: bool,
) -> (r: String)
    ensures
        r@ == monitor_label(device_name@, str_opt(friendly_name), str_opt(fallback_label), is_primary),
{
    let mut base: Option<String> = None;
    if let Some(name) = friendly_name {
        let t = crate::text::trim_str(name);
        if !t.as_str().is_empty() {
            base = Some(t);
        }
    }
    if base.is_none() {
        if let Some(name) = fallback_label {
            let t = crate::text::trim_str(name);
            if !t.as_str().is_empty() {
                base = Some(t);
            }
        }
    }
    let base = match base {
        Some(b) => b,
        None => device_name.to_owned(),
    };
    if is_primary {
        let mut out = base;
        out.append(" (Primary)");
        out
    } else {
        base
    }
}

/// The character window's state: whether it is shown and kept on top, its size, and its
/// native handle once created.
#[derive(Debug)]
pub struct MascotWindowState {
    visible: bool,
    always_on_top: bool,
    window: Option<NativeMascotWindow>,
    monitor_move_suppressed: bool,
    size: MascotWindowSize,
}

pub open spec fn clamp_size(v: u32) -> u32 {
    if v < MIN_WINDOW_SIZE { MIN_WINDOW_SIZE } else if v > MAX_WINDOW_SIZE { MAX_WINDOW_SIZE } else { v }
}

impl MascotWindowState {
    pub closed spec fn visible_flag(&self) -> bool {
        self.visible
    }

    pub closed spec fn on_top_flag(&self) -> bool {
        self.always_on_top
    }

    pub closed spec fn window_handle(&self) -> Option<NativeMascotWindow> {
        self.window
    }

    pub closed spec fn suppressed_flag(&self) -> bool {
        self.monitor_move_suppressed
    }

    pub closed spec fn size_value(&self) -> MascotWindowSize {
        self.size
    }

    /// A hidden, always-on-top 420x720 window that is not created yet.
    pub fn new() -> (r: Self)
        ensures
            !r.visible_flag(),
            r.on_top_flag(),
            r.window_handle() is None,
            !r.suppressed_flag(),
            r.size_value() == (MascotWindowSize { width: 420, height: 720 }),
    {
        MascotWindowState {
            visible: false,
            always_on_top: true,
            window: None,
            monitor_move_suppressed: false,
            size: MascotWindowSize { width: 420, height: 720 },
        }
    }

    pub fn size(&self) -> (r: MascotWindowSize)
        ensures
            r == self.size_value(),
    {
        self.size
    }

    pub fn attach(&mut self, window: NativeMascotWindow)
        ensures
            final(self).window_handle() == Some(window),
            final(self).visible_flag() == old(self).visible_flag(),
            final(self).on_top_flag() == old(self).on_top_flag(),
            final(self).suppressed_flag() == old(self).suppressed_flag(),
            final(self).size_value() == old(self).size_value(),
    {
        self.window = Some(window);
    }

    pub fn window(&self) -> (r: Option<NativeMascotWindow>)
        ensures
            r == self.window_handle(),
    {
        self.window
    }

    pub fn is_monitor_move_suppressed(&self) -> (r: bool)
        ensures
            r == self.suppressed_flag(),
    {
        self.monitor_move_suppressed
    }

    pub fn set_monitor_move_suppressed(&mut self, value: bool)
        ensures
            final(self).suppressed_flag() == value,
            final(self).visible_flag() == old(self).visible_flag(),
            final(self).on_top_flag() == old(self).on_top_flag(),
            final(self).window_handle() == old(self).window_handle(),
            final(self).size_value() == old(self).size_value(),
    {
        self.monitor_move_suppressed = value;
    }

    /// The window was created (it has a native handle).
    pub fn is_initialized(&self) -> (r: bool)
        ensures
            r == self.window_handle() is Some,
    {
        self.window.is_some()
    }

    pub fn is_visible(&self) -> (r: bool)
        ensures
            r == self.visible_flag(),
    {
        self.visible
    }

    pub fn is_always_on_top(&self) -> (r: bool)
        ensures
            r == self.on_top_flag(),
    {
        self.always_on_top
    }

    pub fn set_always_on_top(&mut self, always_on_top: bool)
        ensures
            final(self).on_top_flag() == always_on_top,
            final(self).visible_flag() == old(self).visible_flag(),
            final(self).window_handle() == old(self).window_handle(),
            final(self).suppressed_flag() == old(self).suppressed_flag(),
            final(self).size_value() == old(self).size_value(),
    {
        self.always_on_top = always_on_top;
    }

    /// Records a new size, each side clamped to the window size limits.
    pub fn resize(&mut self, width: u32, height: u32) -> (r: MascotWindowSize)
        ensures
            r == (MascotWindowSize { width: clamp_size(width), height: clamp_size(height) }),
            final(self).size_value() == r,
            final(self).visible_flag() == old(self).visible_flag(),
            final(self).on_top_flag() == old(self).on_top_flag(),
            final(self).window_handle() == old(self).window_handle(),
            final(self).suppressed_flag() == old(self).suppressed_flag(),
    {
        let clamp = |v: u32| -> (c: u32)
            ensures
                c == clamp_size(v),
        {
            if v < MIN_WINDOW_SIZE { MIN_WINDOW_SIZE } else if v > MAX_WINDOW_SIZE { MAX_WINDOW_SIZE } else { v }
        };
        let size = MascotWindowSize { width: clamp(width), height: clamp(height) };
        self.size = size;
        size
    }

    pub fn resize_limits(&self) -> (r: (u32, u32))
        ensures
            r == (MIN_WINDOW_SIZE, MAX_WINDOW_SIZE),
    {
        (MIN_WINDOW_SIZE, MAX_WINDOW_SIZE)
    }

    pub fn mark_shown(&mut self)
        ensures
            final(self).visible_flag(),
            final(self).on_top_flag() == old(self).on_top_flag(),
            final(self).window_handle() == old(self).window_handle(),
            final(self).suppressed_flag() == old(self).suppressed_flag(),
            final(self).size_value() == old(self).size_value(),
    {
        self.visible = true;
    }

    pub fn mark_hidden(&mut self)
        ensures
            !final(self).visible_flag(),
            final(self).on_top_flag() == old(self).on_top_flag(),
            final(self).window_handle() == old(self).window_handle(),
            final(self).suppressed_flag() == old(self).suppressed_flag(),
            final(self).size_value() == old(self).size_value(),
    {
        self.visible = false;
    }

    /// Dragging is handled by the native window itself.
    pub fn drag(&self) {
    }
}

} // verus!
