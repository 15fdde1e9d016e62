//! Capturing a monitor by desktop duplication: which output belongs to it, what a
//! failed capture means, and how much a frame's metadata holds. The calls into
//! DXGI are the caller's.
use vstd::prelude::*;

use crate::d3d11::Rect;
use crate::gpu_device::{gpu_error_text, GpuDeviceError};
use crate::text;

verus! {

/// The result code of a capture that found no new frame in time.
pub const ERROR_WAIT_TIMEOUT: u32 = 0x887a_0027;

/// The result code of a capture whose output changed.
pub const ERROR_ACCESS_LOST: u32 = 0x887a_0026;

/// The number of bytes of a changed rectangle.
pub const RECT_SIZE: usize = 16;

/// The number of bytes of a moved rectangle with its origin.
pub const MOVE_RECT_SIZE: usize = 24;

/// Why a monitor cannot be captured.
#[derive(Debug, Clone, PartialEq, Eq)]
pub enum DxgiDuplicationError {
    NoMonitors,
    InvalidMonitorIndex(usize, usize),
    OutputNotFound(usize, String),
    AccessLost,
    Monitor(String),
    GpuDevice(GpuDeviceError),
    Win(String),
}

impl DxgiDuplicationError {
    /// The text of the error.
    pub fn message(&self) -> (r: String)
        ensures
            match *self {
                DxgiDuplicationError::NoMonitors => r@ == "No monitors found"@,
                DxgiDuplicationError::InvalidMonitorIndex(n, max) => r@ == "Monitor index "@
                    + text::decimal(n as nat) + " out of range (max "@ + text::decimal(max as nat)
                    + ")"@,
                DxgiDuplicationError::OutputNotFound(n, s) => r@
                    == "DXGI output not found for monitor "@ + text::decimal(n as nat) + " ("@ + s@
                    + ")"@,
                DxgiDuplicationError::AccessLost => r@ == "DXGI duplication access lost"@,
                DxgiDuplicationError::Monitor(s) => r@ == "Monitor enumeration failed: "@ + s@,
                DxgiDuplicationError::GpuDevice(e) => r@ == "GPU device error: "@ + gpu_error_text(
                    e,
                ),
                DxgiDuplicationError::Win(s) => r@ == "Windows API error: "@ + s@,
            },
    {
        match self {
            DxgiDuplicationError::NoMonitors => "No monitors found".to_owned(),
            DxgiDuplicationError::InvalidMonitorIndex(n, max) => {
                let mut r = "Monitor index ".to_owned();
                text::push_decimal(&mut r, *n as u64);
                r.push_str(" out of range (max ");
                text::push_decimal(&mut r, *max as u64);
                r.push_str(")");
                r
            },
            DxgiDuplicationError::OutputNotFound(n, s) => {
                let mut r = "DXGI output not found for monitor ".to_owned();
                text::push_decimal(&mut r, *n as u64);
                r.push_str(" (");
                r.push_str(s.as_str());
                r.push_str(")");
                r
            },
            DxgiDuplicationError::AccessLost => "DXGI duplication access lost".to_owned(),
            DxgiDuplicationError::Monitor(s) => {
                let mut r = "Monitor enumeration failed: ".to_owned();
                r.push_str(s.as_str());
                r
            },
            DxgiDuplicationError::GpuDevice(e) => {
                let inner = e.message();
                let mut r = "GPU device error: ".to_owned();
                r.push_str(inner.as_str());
                r
            },
            DxgiDuplicationError::Win(s) => {
                let mut r = "Windows API error: ".to_owned();
                r.push_str(s.as_str());
                r
            },
        }
    }
}

/// The output that is captured.
#[derive(Debug, Clone, PartialEq, Eq)]
pub struct OutputSelection {
    pub monitor_idx: usize,
    pub monitor_name: String,
    pub adapter_idx: u32,
    pub adapter_name: String,
    pub output_idx: u32,
    pub output_name: String,
    pub desktop_x: i32,
    pub desktop_y: i32,
    pub width: u32,
    pub height: u32,
}

/// A monitor as the desktop lays it out.
#[derive(Debug, Clone, PartialEq, Eq)]
pub struct MonitorInfo {
    pub name: String,
    pub x: i32,
    pub y: i32,
    pub width: u32,
    pub height: u32,
}

/// An output of an adapter.
#[derive(Debug, Clone, PartialEq, Eq)]
pub struct OutputCandidate {
    pub adapter_idx: u32,
    pub adapter_name: String,
    pub output_idx: u32,
    /// The name as the system gives it.
    pub device_name: Vec<u16>,
    pub attached: bool,
    pub desktop: Rect,
}

/// The sides of a rectangle are no longer than 32 bits can hold.
pub open spec fn sides_fit(r: Rect) -> bool {
    i32::MIN <= r.right - r.left <= i32::MAX && i32::MIN <= r.bottom - r.top <= i32::MAX
}

/// A side as an unsigned 32-bit number, where a negative one is a very large number.
pub open spec fn unsigned_side(d: int) -> int {
    if d < 0 {
        d + 0x1_0000_0000
    } else {
        d
    }
}

/// Whether an output is attached and lies exactly where the monitor does.
pub open spec fn matches_monitor(c: OutputCandidate, m: MonitorInfo) -> bool {
    &&& c.attached
    &&& c.desktop.left == m.x
    &&& c.desktop.top == m.y
    &&& unsigned_side(c.desktop.right - c.desktop.left) == m.width
    &&& unsigned_side(c.desktop.bottom - c.desktop.top) == m.height
}

/// The index of the first output that lies where the monitor does, or the length.
pub open spec fn first_match(s: Seq<OutputCandidate>, m: MonitorInfo) -> int
    decreases s.len(),
{
    if s.len() == 0 || matches_monitor(s[0], m) {
        0
    } else {
        1 + first_match(s.drop_first(), m)
    }
}

/// The indices of the outputs that are attached, in order.
pub open spec fn attached_positions(s: Seq<OutputCandidate>) -> Seq<int>
    decreases s.len(),
{
    if s.len() == 0 {
        Seq::empty()
    } else if s.last().attached {
        attached_positions(s.drop_last()).push(s.len() - 1)
    } else {
        attached_positions(s.drop_last())
    }
}

/// The output that captures a monitor: the one that lies where it does, else the
/// one with its number among those attached.
pub open spec fn output_for(s: Seq<OutputCandidate>, m: MonitorInfo, idx: int) -> Option<int> {
    if first_match(s, m) < s.len() {
        Some(first_match(s, m))
    } else if idx < attached_positions(s).len() {
        Some(attached_positions(s)[idx])
    } else {
        None
    }
}

fn side(d: i64) -> (r: u32)
    requires
        -0x1_0000_0000 < d < 0x1_0000_0000,
    ensures
        r == unsigned_side(d as int),
{
    if d >= 0 {
        d as u32
    } else {
        (d + 0x1_0000_0000) as u32
    }
}

fn is_match(c: &OutputCandidate, m: &MonitorInfo) -> (r: bool)
    ensures
        r == matches_monitor(*c, *m),
{
    let r = &c.desktop;
    c.attached && r.left == m.x && r.top == m.y && side(r.right as i64 - r.left as i64) == m.width
        && side(r.bottom as i64 - r.top as i64) == m.height
}

/// The text of a system's name: up to its first zero, without white space at its
/// ends.
pub fn wide_to_string(wide: &Vec<u16>) -> (r: String)
    ensures
        r@ == text::trimmed(text::utf16_chars(text::until_nul(wide@))),
{
    let s = text::wide_text(wide);
    text::trim(s.as_str())
}

/// A side's length; zero where it is negative.
pub open spec fn length(d: int) -> int {
    if d < 0 {
        0
    } else {
        d
    }
}

impl OutputCandidate {
    /// What is captured where this output is chosen for a monitor.
    pub fn into_selected(self, monitor_idx: usize, monitor_name: String) -> (r: OutputSelection)
        requires
            sides_fit(self.desktop),
        ensures
            r.monitor_idx == monitor_idx,
            r.monitor_name == monitor_name,
            r.adapter_idx == self.adapter_idx,
            r.adapter_name == self.adapter_name,
            r.output_idx == self.output_idx,
            r.output_name@ == text::trimmed(text::utf16_chars(text::until_nul(self.device_name@))),
            r.desktop_x == self.desktop.left,
            r.desktop_y == self.desktop.top,
            r.width == length(self.desktop.right - self.desktop.left),
            r.height == length(self.desktop.bottom - self.desktop.top),
    {
        let rect = self.desktop;
        let output_name = wide_to_string(&self.device_name);
        let w: i64 = rect.right as i64 - rect.left as i64;
        let h: i64 = rect.bottom as i64 - rect.top as i64;
        OutputSelection {
            monitor_idx,
            monitor_name,
            adapter_idx: self.adapter_idx,
            adapter_name: self.adapter_name,
            output_idx: self.output_idx,
            output_name,
            desktop_x: rect.left,
            desktop_y: rect.top,
            width: if w < 0 {
                0
            } else {
                w as u32
            },
            height: if h < 0 {
                0
            } else {
                h as u32
            },
        }
    }
}

/// The monitor that is asked for; the first where none is.
pub fn select_monitor(count: usize, screen_index: Option<usize>) -> (r: Result<
    usize,
    DxgiDuplicationError,
>)
    ensures
        ({
            let idx = match screen_index {
                Some(i) => i,
                None => 0,
            };
            r == if count == 0 {
                Err::<usize, DxgiDuplicationError>(DxgiDuplicationError::NoMonitors)
            } else if idx >= count {
                Err(DxgiDuplicationError::InvalidMonitorIndex(idx, (count - 1) as usize))
            } else {
                Ok(idx)
            }
        }),
{
    if count == 0 {
        return Err(DxgiDuplicationError::NoMonitors);
    }
    let idx: usize = match screen_index {
        Some(i) => i,
        None => 0,
    };
    if idx >= count {
        return Err(DxgiDuplicationError::InvalidMonitorIndex(idx, count - 1));
    }
    Ok(idx)
}

/// What is said of a monitor that no output was found for.
pub open spec fn missing_text(m: MonitorInfo) -> Seq<char> {
    m.name@ + " "@ + text::decimal(m.width as nat) + "x"@ + text::decimal(m.height as nat)
        + " at "@ + text::decimal_int(m.x as int) + ","@ + text::decimal_int(m.y as int)
}

proof fn attached_positions_in_bounds(s: Seq<OutputCandidate>)
    ensures
        attached_positions(s).len() <= s.len(),
        forall|i: int|
            0 <= i < attached_positions(s).len() ==> 0 <= #[trigger] attached_positions(s)[i]
                < s.len() && s[attached_positions(s)[i]].attached,
    decreases s.len(),
{
    if s.len() > 0 {
        attached_positions_in_bounds(s.drop_last());
        let front = attached_positions(s.drop_last());
        assert forall|i: int| 0 <= i < attached_positions(s).len() implies 0
            <= #[trigger] attached_positions(s)[i] < s.len()
            && s[attached_positions(s)[i]].attached by {
            if i < front.len() {
                assert(attached_positions(s)[i] == front[i]);
            }
        }
    }
}

/// Chooses the output that captures a monitor: its index.
pub fn select_output(outputs: &Vec<OutputCandidate>, monitor: &MonitorInfo, idx: usize) -> (r:
    Result<usize, DxgiDuplicationError>)
    ensures
        match (r, output_for(outputs@, *monitor, idx as int)) {
            (Ok(i), Some(j)) => i == j && i < outputs@.len() && outputs@[i as int].attached,
            (Err(DxgiDuplicationError::OutputNotFound(n, s)), None) => n == idx && s@
                == missing_text(*monitor),
            _ => false,
        },
        forall|k: int|
            0 <= k < outputs@.len() && (#[trigger] outputs@[k]).attached && outputs@[k].desktop.left
                == monitor.x && outputs@[k].desktop.top == monitor.y && outputs@[k].desktop.right
                == monitor.x + monitor.width && outputs@[k].desktop.bottom == monitor.y
                + monitor.height ==> r is Ok && outputs@[r->Ok_0 as int].desktop.left == monitor.x
                && outputs@[r->Ok_0 as int].desktop.top == monitor.y,
{
    proof {
        assert forall|k: int|
            0 <= k < outputs@.len() && (#[trigger] outputs@[k]).attached && outputs@[k].desktop.left
                == monitor.x && outputs@[k].desktop.top == monitor.y && outputs@[k].desktop.right
                == monitor.x + monitor.width && outputs@[k].desktop.bottom == monitor.y
                + monitor.height implies output_for(outputs@, *monitor, idx as int) is Some
            && outputs@[output_for(outputs@, *monitor, idx as int)->0].desktop.left == monitor.x
            && outputs@[output_for(outputs@, *monitor, idx as int)->0].desktop.top == monitor.y by {
            the_monitor_itself_is_captured(outputs@, *monitor, idx as int, k);
        }
    }
    find_output(outputs, monitor, idx)
}

fn find_output(outputs: &Vec<OutputCandidate>, monitor: &MonitorInfo, idx: usize) -> (r: Result<
    usize,
    DxgiDuplicationError,
>)
    ensures
        match (r, output_for(outputs@, *monitor, idx as int)) {
            (Ok(i), Some(j)) => i == j && i < outputs@.len() && outputs@[i as int].attached,
            (Err(DxgiDuplicationError::OutputNotFound(n, s)), None) => n == idx && s@
                == missing_text(*monitor),
            _ => false,
        },
{
    let mut i: usize = 0;
    assert(outputs@.skip(0) =~= outputs@);
    while i < outputs.len()
        invariant
            i <= outputs@.len(),
            first_match(outputs@, *monitor) == i + first_match(
                outputs@.skip(i as int),
                *monitor,
            ),
        decreases outputs@.len() - i,
    {
        assert(outputs@.skip(i as int)[0] == outputs@[i as int]);
        if is_match(&outputs[i], monitor) {
            return Ok(i);
        }
        assert(outputs@.skip(i as int).drop_first() =~= outputs@.skip(i + 1));
        i += 1;
    }
    assert(first_match(outputs@, *monitor) == outputs@.len());
    let mut attached: Vec<usize> = Vec::new();
    let mut j: usize = 0;
    while j < outputs.len()
        invariant
            j <= outputs@.len(),
            attached@.len() == attached_positions(outputs@.take(j as int)).len(),
            forall|k: int|
                0 <= k < attached@.len() ==> #[trigger] attached@[k] == attached_positions(
                    outputs@.take(j as int),
                )[k],
        decreases outputs@.len() - j,
    {
        assert(outputs@.take(j + 1).drop_last() =~= outputs@.take(j as int));
        if outputs[j].attached {
            attached.push(j);
        }
        j += 1;
    }
    assert(outputs@.take(j as int) =~= outputs@);
    proof {
        attached_positions_in_bounds(outputs@);
    }
    if idx < attached.len() {
        return Ok(attached[idx]);
    }
    let mut s = monitor.name.clone();
    s.push_str(" ");
    text::push_decimal(&mut s, monitor.width as u64);
    s.push_str("x");
    text::push_decimal(&mut s, monitor.height as u64);
    s.push_str(" at ");
    text::push_decimal_int(&mut s, monitor.x as i64);
    s.push_str(",");
    text::push_decimal_int(&mut s, monitor.y as i64);
    Err(DxgiDuplicationError::OutputNotFound(idx, s))
}

/// An output that is chosen is attached to the desktop.
pub proof fn chosen_output_is_attached(s: Seq<OutputCandidate>, m: MonitorInfo, idx: int)
    requires
        output_for(s, m, idx) is Some,
        idx >= 0,
    ensures
        0 <= output_for(s, m, idx)->0 < s.len(),
        s[output_for(s, m, idx)->0].attached,
{
    first_match_matches(s, m);
    attached_positions_in_bounds(s);
}

proof fn first_match_matches(s: Seq<OutputCandidate>, m: MonitorInfo)
    ensures
        0 <= first_match(s, m) <= s.len(),
        first_match(s, m) < s.len() ==> matches_monitor(s[first_match(s, m)], m),
    decreases s.len(),
{
    if s.len() > 0 && !matches_monitor(s[0], m) {
        first_match_matches(s.drop_first(), m);
    }
}

/// What came of asking for the next frame.
#[derive(Debug, Clone, PartialEq, Eq)]
pub enum AcquireResult {
    Acquired,
    /// The code of the failure, and its text.
    Failed(u32, String),
}

/// What a capture comes to: `true` with a frame, `false` where none came in time.
pub fn acquire_next_frame(result: AcquireResult) -> (r: Result<bool, DxgiDuplicationError>)
    ensures
        r == match result {
            AcquireResult::Acquired => Ok::<bool, DxgiDuplicationError>(true),
            AcquireResult::Failed(code, s) => if code == ERROR_WAIT_TIMEOUT {
                Ok(false)
            } else if code == ERROR_ACCESS_LOST {
                Err(DxgiDuplicationError::AccessLost)
            } else {
                Err(DxgiDuplicationError::Win(s))
            },
        },
{
    match result {
        AcquireResult::Acquired => Ok(true),
        AcquireResult::Failed(code, s) => {
            if code == ERROR_WAIT_TIMEOUT {
                Ok(false)
            } else if code == ERROR_ACCESS_LOST {
                Err(DxgiDuplicationError::AccessLost)
            } else {
                Err(DxgiDuplicationError::Win(s))
            }
        },
    }
}

/// How many moved and changed rectangles a frame's metadata has room for.
pub fn metadata_capacity(total_bytes: u32) -> (r: (usize, usize))
    ensures
        r.0 == total_bytes as int / 24,
        r.1 == total_bytes as int / 16,
{
    ((total_bytes as usize) / MOVE_RECT_SIZE, (total_bytes as usize) / RECT_SIZE)
}

/// How many rectangles were given, by the bytes that they take.
pub fn metadata_counts(move_bytes: u32, dirty_bytes: u32) -> (r: (usize, usize))
    ensures
        r.0 == move_bytes as int / 24,
        r.1 == dirty_bytes as int / 16,
{
    ((move_bytes as usize) / MOVE_RECT_SIZE, (dirty_bytes as usize) / RECT_SIZE)
}

/// No more rectangles are given than there is room for.
pub proof fn metadata_fits(total: int, given: int)
    requires
        0 <= given <= total,
    ensures
        given / 24 <= total / 24,
        given / 16 <= total / 16,
{
}

/// A frame that is held until it is released.
#[derive(Debug, Clone, Copy, PartialEq, Eq, Structural)]
pub struct AcquiredDesktopFrame {
    pub has_resource: bool,
    pub released: bool,
}

impl AcquiredDesktopFrame {
    /// A frame that was acquired.
    pub fn new(has_resource: bool) -> (r: AcquiredDesktopFrame)
        ensures
            r == (AcquiredDesktopFrame { has_resource, released: false }),
    {
        AcquiredDesktopFrame { has_resource, released: false }
    }

    /// Whether the frame's texture can still be had.
    pub fn texture(&self) -> (r: bool)
        ensures
            r == self.has_resource,
    {
        self.has_resource
    }

    /// Whether the frame is still to be released.
    pub fn release_due(&self) -> (r: bool)
        ensures
            r == !self.released,
    {
        !self.released
    }

    /// Notes what came of releasing the frame; a failed release leaves it held.
    pub fn release(&mut self, ok: bool)
        ensures
            *final(self) == if !old(self).released && ok {
                AcquiredDesktopFrame { has_resource: false, released: true }
            } else {
                *old(self)
            },
    {
        if !self.released && ok {
            self.has_resource = false;
            self.released = true;
        }
    }
}

proof fn first_match_is_first(s: Seq<OutputCandidate>, m: MonitorInfo)
    ensures
        0 <= first_match(s, m) <= s.len(),
        first_match(s, m) < s.len() ==> matches_monitor(s[first_match(s, m)], m),
        forall|i: int| 0 <= i < first_match(s, m) ==> !matches_monitor(#[trigger] s[i], m),
    decreases s.len(),
{
    if s.len() > 0 && !matches_monitor(s[0], m) {
        let rest = s.drop_first();
        first_match_is_first(rest, m);
        assert forall|i: int| 0 <= i < first_match(s, m) implies !matches_monitor(
            #[trigger] s[i],
            m,
        ) by {
            if i > 0 {
                assert(s[i] == rest[i - 1]);
            }
        }
    }
}

proof fn attached_positions_are_attached(s: Seq<OutputCandidate>)
    ensures
        forall|k: int| #![trigger attached_positions(s)[k]]
            0 <= k < attached_positions(s).len() ==> 0 <= attached_positions(s)[k] < s.len()
                && s[attached_positions(s)[k]].attached,
        forall|k: int, l: int|
            0 <= k < l < attached_positions(s).len() ==> #[trigger] attached_positions(s)[k]
                < #[trigger] attached_positions(s)[l],
        forall|i: int|
            0 <= i < s.len() && (#[trigger] s[i]).attached ==> attached_positions(s).contains(i),
    decreases s.len(),
{
    if s.len() > 0 {
        let front = s.drop_last();
        attached_positions_are_attached(front);
        let (all, before) = (attached_positions(s), attached_positions(front));
        assert forall|k: int| #![trigger all[k]] 0 <= k < all.len() implies 0 <= all[k] < s.len()
            && s[all[k]].attached by {
            if k < before.len() {
                assert(all[k] == before[k]);
                assert(s[before[k]] == front[before[k]]);
            }
        }
        assert forall|k: int, l: int| 0 <= k < l < all.len() implies #[trigger] all[k]
            < #[trigger] all[l] by {
            assert(all[k] == before[k]);
            if l < before.len() {
                assert(all[l] == before[l]);
            }
        }
        assert forall|i: int| 0 <= i < s.len() && (#[trigger] s[i]).attached implies all.contains(
            i,
        ) by {
            if i < front.len() {
                assert(front[i] == s[i]);
                assert(before.contains(i));
                let k = choose|k: int| 0 <= k < before.len() && before[k] == i;
                assert(all[k] == i);
            } else {
                assert(all[all.len() - 1] == i);
            }
        }
    }
}

/// Where some attached output has exactly the rectangle of the monitor, the output that is
/// chosen has it too: the same left and upper edge, width and height. It is attached, and
/// is the first such one.
pub proof fn the_monitor_itself_is_captured(
    s: Seq<OutputCandidate>,
    m: MonitorInfo,
    idx: int,
    k: int,
)
    requires
        0 <= idx,
        0 <= k < s.len(),
        s[k].attached,
        s[k].desktop.left == m.x,
        s[k].desktop.top == m.y,
        s[k].desktop.right == m.x + m.width,
        s[k].desktop.bottom == m.y + m.height,
    ensures
        output_for(s, m, idx) is Some,
        ({
            let i = output_for(s, m, idx)->0;
            &&& 0 <= i <= k
            &&& s[i].attached
            &&& s[i].desktop.left == m.x
            &&& s[i].desktop.top == m.y
            &&& (s[i].desktop.right - s[i].desktop.left - m.width) % 0x1_0000_0000 == 0
            &&& (s[i].desktop.bottom - s[i].desktop.top - m.height) % 0x1_0000_0000 == 0
            &&& s[i].desktop.right >= s[i].desktop.left ==> s[i].desktop.right == m.x + m.width
            &&& s[i].desktop.bottom >= s[i].desktop.top ==> s[i].desktop.bottom == m.y + m.height
        }),
{
    first_match_is_first(s, m);
    assert(matches_monitor(s[k], m));
}

/// Where no output lies where the monitor does, the outputs that are attached are counted
/// off in order: the one chosen is attached, and just as many attached ones stand before
/// it as the monitor's number says. None is chosen exactly where there are not as many.
pub proof fn attached_outputs_are_counted_off(s: Seq<OutputCandidate>, m: MonitorInfo, idx: int)
    requires
        0 <= idx,
        forall|k: int|
            0 <= k < s.len() ==> !((#[trigger] s[k]).attached && s[k].desktop.left == m.x
                && s[k].desktop.top == m.y),
    ensures
        match output_for(s, m, idx) {
            Some(i) => 0 <= i < s.len() && s[i].attached && s.take(i).filter(
                |c: OutputCandidate| c.attached,
            ).len() == idx,
            None => s.filter(|c: OutputCandidate| c.attached).len() <= idx,
        },
{
    first_match_is_first(s, m);
    attached_positions_are_attached(s);
    attached_are_counted(s, s.len() as int);
    if idx < attached_positions(s).len() {
        let i = attached_positions(s)[idx];
        position_has_its_number(s, idx);
    }
    assert(s.take(s.len() as int) =~= s);
}

proof fn attached_are_counted(s: Seq<OutputCandidate>, n: int)
    requires
        0 <= n <= s.len(),
    ensures
        attached_positions(s.take(n)).len() == s.take(n).filter(
            |c: OutputCandidate| c.attached,
        ).len(),
    decreases n,
{
    reveal(Seq::filter);
    if n > 0 {
        attached_are_counted(s, n - 1);
        assert(s.take(n).drop_last() =~= s.take(n - 1));
    }
}

proof fn position_has_its_number(s: Seq<OutputCandidate>, k: int)
    requires
        0 <= k < attached_positions(s).len(),
    ensures
        ({
            let i = attached_positions(s)[k];
            0 <= i < s.len() && s.take(i).filter(|c: OutputCandidate| c.attached).len() == k
        }),
    decreases s.len(),
{
    attached_positions_are_attached(s);
    let front = s.drop_last();
    let before = attached_positions(front);
    let i = attached_positions(s)[k];
    if k < before.len() {
        position_has_its_number(front, k);
        assert(before[k] == i);
        assert(front.take(i) =~= s.take(i));
    } else {
        assert(i == s.len() - 1);
        assert(s.take(i) =~= front);
        attached_are_counted(front, front.len() as int);
        assert(front.take(front.len() as int) =~= front);
    }
}

/// A rectangle whose edges are the wrong way round has no extent; else its sides are the
/// distances of its edges.
pub proof fn sides_are_distances(left: int, right: int)
    ensures
        right >= left ==> left + length(right - left) == right,
        right < left ==> length(right - left) == 0,
{
}

} // verus!
