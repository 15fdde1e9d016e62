//! The capture process that only acquires and copies frames: its settings, its
//! counters, and what it does after each attempt. The calls into DXGI are the
//! caller's.
use vstd::prelude::*;

use crate::d3d11::TextureDesc;
use crate::headless::{env_truthy, truthy};
use crate::mft_setup::opt_view;
use crate::text;

verus! {

/// How long the counters add up, in microseconds.
pub const WINDOW_US: u64 = 1_000_000;

/// Whether the process is asked for.
pub fn run_from_env_if_requested(value: Option<&str>) -> (r: bool)
    ensures
        r == match opt_view(value) {
            Some(s) => truthy(s),
            None => false,
        },
{
    env_truthy(value)
}

/// The process's settings.
#[derive(Debug, Clone, Copy, PartialEq, Eq, Structural)]
pub struct Config {
    pub monitor: usize,
    pub timeout_ms: u32,
    pub ring_size: usize,
    pub wait_copy_ready: bool,
}

/// The number that a text stands for, if it is there and is one of at most `max`.
pub open spec fn number_in(value: Option<Seq<char>>, max: nat) -> Option<nat> {
    match value {
        Some(s) => text::parsed_unsigned(s, max),
        None => None,
    }
}

fn number_of(value: Option<&str>, max: u64) -> (r: Option<u64>)
    ensures
        match r {
            Some(n) => number_in(opt_view(value), max as nat) == Some(n as nat) && n <= max,
            None => number_in(opt_view(value), max as nat) is None,
        },
{
    match value {
        Some(s) => {
            let r = text::parse_unsigned(s, max);
            r
        },
        None => None,
    }
}

/// The monitor that a source names: `monitor:N`, or just `N`.
pub open spec fn source_monitor(s: Seq<char>) -> Option<nat> {
    let parts = text::pieces(s, ':');
    if parts.len() == 2 && parts[0] == "monitor"@ {
        text::parsed_unsigned(parts[1], usize::MAX as nat)
    } else if parts.len() == 1 {
        text::parsed_unsigned(parts[0], usize::MAX as nat)
    } else {
        None
    }
}

/// The monitor that a source names.
pub fn parse_screen_source_monitor(source: &str) -> (r: Option<usize>)
    ensures
        match r {
            Some(n) => source_monitor(source@) == Some(n as nat),
            None => source_monitor(source@) is None,
        },
{
    let parts = text::split(source, ':');
    assert(forall|i: int| 0 <= i < parts@.len() ==> text::texts(parts@)[i] == parts@[i]@);
    let number: Option<u64> = if parts.len() == 2 && text::same(parts[0].as_str(), "monitor") {
        text::parse_unsigned(parts[1].as_str(), usize::MAX as u64)
    } else if parts.len() == 1 {
        text::parse_unsigned(parts[0].as_str(), usize::MAX as u64)
    } else {
        None
    };
    match number {
        Some(n) => Some(n as usize),
        None => None,
    }
}

/// The monitor that is asked for: by its own setting, else by the shared source,
/// else the first.
pub open spec fn monitor_asked(monitor: Option<Seq<char>>, source: Option<Seq<char>>) -> nat {
    match number_in(monitor, usize::MAX as nat) {
        Some(n) => n,
        None => match source {
            Some(s) => match source_monitor(s) {
                Some(n) => n,
                None => 0,
            },
            None => 0,
        },
    }
}

/// The monitor that is asked for.
pub fn parse_monitor_index(monitor: Option<&str>, source: Option<&str>) -> (r: usize)
    ensures
        r == monitor_asked(opt_view(monitor), opt_view(source)),
{
    match number_of(monitor, usize::MAX as u64) {
        Some(n) => n as usize,
        None => match source {
            Some(s) => match parse_screen_source_monitor(s) {
                Some(n) => n,
                None => 0,
            },
            None => 0,
        },
    }
}

impl Config {
    /// The settings that the environment asks for.
    pub fn from_env(
        monitor: Option<&str>,
        source: Option<&str>,
        timeout_ms: Option<&str>,
        ring_size: Option<&str>,
        wait_copy_ready: Option<&str>,
    ) -> (r: Config)
        ensures
            r.monitor == monitor_asked(opt_view(monitor), opt_view(source)),
            r.timeout_ms == match number_in(opt_view(timeout_ms), u32::MAX as nat) {
                Some(n) => n,
                None => 2,
            },
            r.ring_size == match number_in(opt_view(ring_size), usize::MAX as nat) {
                Some(n) => if n < 1 {
                    1
                } else {
                    n
                },
                None => 4,
            },
            r.ring_size >= 1,
            r.wait_copy_ready == match opt_view(wait_copy_ready) {
                Some(s) => truthy(s),
                None => false,
            },
    {
        let timeout: u32 = match number_of(timeout_ms, u32::MAX as u64) {
            Some(n) => n as u32,
            None => 2,
        };
        let ring: usize = match number_of(ring_size, usize::MAX as u64) {
            Some(n) => n as usize,
            None => 4,
        };
        Config {
            monitor: parse_monitor_index(monitor, source),
            timeout_ms: timeout,
            ring_size: if ring < 1 {
                1
            } else {
                ring
            },
            wait_copy_ready: env_truthy(wait_copy_ready),
        }
    }
}

/// What came of an attempt to acquire and copy a frame.
#[derive(Debug, Clone, Copy, PartialEq, Eq, Structural)]
pub enum CaptureTick {
    Acquired,
    Timeout,
    CopyFailed,
    /// The output changed; whether the capture could be set up anew.
    AccessLost { reinitialized: bool },
    Failed,
}

/// Counters over about a second.
#[derive(Debug, Clone, Copy, PartialEq, Eq, Structural)]
pub struct WindowStats {
    pub window_start: u64,
    pub acquire_ok: u64,
    pub wait_timeout_count: u64,
    pub access_lost_count: u64,
    pub acquire_errors: u64,
    pub copy_fail_count: u64,
}

/// Counters at zero.
pub open spec fn empty_stats(now: u64) -> WindowStats {
    WindowStats {
        window_start: now,
        acquire_ok: 0,
        wait_timeout_count: 0,
        access_lost_count: 0,
        acquire_errors: 0,
        copy_fail_count: 0,
    }
}

/// The counters after an attempt.
pub open spec fn counted(s: WindowStats, t: CaptureTick) -> WindowStats {
    match t {
        CaptureTick::Acquired => WindowStats { acquire_ok: (s.acquire_ok + 1) as u64, ..s },
        CaptureTick::Timeout => WindowStats {
            wait_timeout_count: (s.wait_timeout_count + 1) as u64,
            ..s
        },
        CaptureTick::CopyFailed => WindowStats {
            acquire_ok: (s.acquire_ok + 1) as u64,
            copy_fail_count: (s.copy_fail_count + 1) as u64,
            ..s
        },
        CaptureTick::AccessLost { reinitialized } => WindowStats {
            access_lost_count: (s.access_lost_count + 1) as u64,
            acquire_errors: if reinitialized {
                s.acquire_errors
            } else {
                (s.acquire_errors + 1) as u64
            },
            ..s
        },
        CaptureTick::Failed => WindowStats { acquire_errors: (s.acquire_errors + 1) as u64, ..s },
    }
}

impl WindowStats {
    /// The counters that an attempt adds to can grow.
    pub open spec fn has_room(self, t: CaptureTick) -> bool {
        match t {
            CaptureTick::Acquired => self.acquire_ok < u64::MAX,
            CaptureTick::Timeout => self.wait_timeout_count < u64::MAX,
            CaptureTick::CopyFailed => self.acquire_ok < u64::MAX && self.copy_fail_count
                < u64::MAX,
            CaptureTick::AccessLost { reinitialized } => self.access_lost_count < u64::MAX && (
            reinitialized || self.acquire_errors < u64::MAX),
            CaptureTick::Failed => self.acquire_errors < u64::MAX,
        }
    }

    /// Counters at zero.
    pub fn new(now: u64) -> (r: WindowStats)
        ensures
            r == empty_stats(now),
    {
        WindowStats {
            window_start: now,
            acquire_ok: 0,
            wait_timeout_count: 0,
            access_lost_count: 0,
            acquire_errors: 0,
            copy_fail_count: 0,
        }
    }

    /// Whether the counters have room for an attempt.
    pub fn can_count(&self, t: CaptureTick) -> (r: bool)
        ensures
            r == self.has_room(t),
    {
        match t {
            CaptureTick::Acquired => self.acquire_ok < u64::MAX,
            CaptureTick::Timeout => self.wait_timeout_count < u64::MAX,
            CaptureTick::CopyFailed => self.acquire_ok < u64::MAX && self.copy_fail_count
                < u64::MAX,
            CaptureTick::AccessLost { reinitialized } => self.access_lost_count < u64::MAX && (
            reinitialized || self.acquire_errors < u64::MAX),
            CaptureTick::Failed => self.acquire_errors < u64::MAX,
        }
    }

    /// Counts an attempt: how many milliseconds to sleep before the next.
    pub fn count(&mut self, t: CaptureTick) -> (sleep_ms: u64)
        requires
            old(self).has_room(t),
        ensures
            *final(self) == counted(*old(self), t),
            sleep_ms == match t {
                CaptureTick::AccessLost { reinitialized } => if reinitialized {
                    0int
                } else {
                    100
                },
                CaptureTick::Failed => 10,
                _ => 0,
            },
    {
        match t {
            CaptureTick::Acquired => {
                self.acquire_ok += 1;
                0
            },
            CaptureTick::Timeout => {
                self.wait_timeout_count += 1;
                0
            },
            CaptureTick::CopyFailed => {
                self.acquire_ok += 1;
                self.copy_fail_count += 1;
                0
            },
            CaptureTick::AccessLost { reinitialized } => {
                self.access_lost_count += 1;
                if reinitialized {
                    0
                } else {
                    self.acquire_errors += 1;
                    100
                }
            },
            CaptureTick::Failed => {
                self.acquire_errors += 1;
                10
            },
        }
    }

    /// The counters to report and the window starts anew, once a second has
    /// passed.
    pub fn emit_and_reset(&mut self, now: u64) -> (r: Option<WindowStats>)
        ensures
            if now >= old(self).window_start + WINDOW_US {
                r == Some(*old(self)) && *final(self) == empty_stats(now)
            } else {
                r is None && *final(self) == *old(self)
            },
    {
        if now < self.window_start || now - self.window_start < WINDOW_US {
            return None;
        }
        let report = *self;
        *self = WindowStats::new(now);
        Some(report)
    }

    /// What is reported of the counters. `fps` is the numeral of the frame rate.
    pub fn report(&self, fps: &str) -> (r: String)
        ensures
            r@ == "minimal=1 capture_fps="@ + fps@ + " acquire_ok="@ + text::decimal(
                self.acquire_ok as nat,
            ) + " wait_timeout_count="@ + text::decimal(self.wait_timeout_count as nat)
                + " access_lost_count="@ + text::decimal(self.access_lost_count as nat)
                + " acquire_errors="@ + text::decimal(self.acquire_errors as nat)
                + " copy_fail_count="@ + text::decimal(self.copy_fail_count as nat),
    {
        let mut r = "minimal=1 capture_fps=".to_owned();
        r.push_str(fps);
        r.push_str(" acquire_ok=");
        text::push_decimal(&mut r, self.acquire_ok);
        r.push_str(" wait_timeout_count=");
        text::push_decimal(&mut r, self.wait_timeout_count);
        r.push_str(" access_lost_count=");
        text::push_decimal(&mut r, self.access_lost_count);
        r.push_str(" acquire_errors=");
        text::push_decimal(&mut r, self.acquire_errors);
        r.push_str(" copy_fail_count=");
        text::push_decimal(&mut r, self.copy_fail_count);
        r
    }
}

/// How many outputs the first `n` adapters have.
pub open spec fn outputs_before(counts: Seq<usize>, n: int) -> int
    decreases n,
{
    if n <= 0 {
        0
    } else {
        outputs_before(counts, n - 1) + counts[n - 1]
    }
}

/// The adapter and its output that a running number over all outputs stands for,
/// given how many outputs each adapter has.
pub fn select_dxgi_output(counts: &Vec<usize>, monitor_index: usize) -> (r: Result<
    (usize, usize),
    String,
>)
    ensures
        match r {
            Ok((a, o)) => a < counts@.len() && o < counts@[a as int] && monitor_index
                == outputs_before(counts@, a as int) + o,
            Err(s) => monitor_index >= outputs_before(counts@, counts@.len() as int) && s@
                == "monitor "@ + text::decimal(monitor_index as nat) + " not found via DXGI"@,
        },
{
    let mut left: usize = monitor_index;
    let mut a: usize = 0;
    while a < counts.len()
        invariant
            a <= counts@.len(),
            left + outputs_before(counts@, a as int) == monitor_index,
        decreases counts@.len() - a,
    {
        if left < counts[a] {
            return Ok((a, left));
        }
        left -= counts[a];
        a += 1;
    }
    let mut s = "monitor ".to_owned();
    text::push_decimal(&mut s, monitor_index as u64);
    s.push_str(" not found via DXGI");
    Err(s)
}

/// The outputs that numbers stand for are distinct: from an adapter and its
/// output the number can be told.
pub proof fn outputs_are_numbered_apart(counts: Seq<usize>, a: int, b: int)
    requires
        0 <= a <= b <= counts.len(),
    ensures
        outputs_before(counts, a) <= outputs_before(counts, b),
        a < b ==> outputs_before(counts, a) + counts[a] <= outputs_before(counts, b),
    decreases b,
{
    if a < b {
        outputs_are_numbered_apart(counts, a, b - 1);
    }
}

/// The ring of textures that frames are copied to in turn.
#[derive(Debug, Clone, Copy, PartialEq, Eq, Structural)]
pub struct CopyStage {
    pub ring_size: usize,
    pub wait_ready: bool,
    /// How many textures there are: none, all, or those that could be created.
    pub created: usize,
    pub next_slot: usize,
}

impl CopyStage {
    /// The ring has at least one place, and no more textures than places.
    pub open spec fn well_formed(self) -> bool {
        &&& self.ring_size > 0
        &&& self.created <= self.ring_size
        &&& self.created > 0 ==> self.next_slot < self.created
        &&& self.created == 0 ==> self.next_slot == 0
    }

    /// A ring without textures.
    pub fn new(ring_size: usize, wait_ready: bool) -> (r: CopyStage)
        requires
            ring_size > 0,
        ensures
            r == (CopyStage { ring_size, wait_ready, created: 0, next_slot: 0 }),
            r.well_formed(),
    {
        CopyStage { ring_size, wait_ready, created: 0, next_slot: 0 }
    }

    /// The texture to create for each place, where there are none yet: as the
    /// source, but bound to nothing.
    pub fn ensure_ring(&self, source: TextureDesc) -> (r: Option<TextureDesc>)
        ensures
            r == if self.created > 0 {
                None
            } else {
                Some(TextureDesc { bind_flags: 0, cpu_access: 0, misc_flags: 0, ..source })
            },
    {
        if self.created > 0 {
            return None;
        }
        let mut desc = source;
        desc.bind_flags = 0;
        desc.cpu_access = 0;
        desc.misc_flags = 0;
        Some(desc)
    }

    /// Notes how many textures could be created. Where creating one failed, the
    /// frame is lost, and later frames go round those that are there.
    pub fn ring_created(&mut self, made: usize)
        requires
            old(self).well_formed(),
            old(self).created == 0,
            made <= old(self).ring_size,
        ensures
            final(self).well_formed(),
            *final(self) == (CopyStage { created: made, ..*old(self) }),
    {
        self.created = made;
    }

    /// The place to copy the next frame to.
    pub fn copy(&mut self) -> (slot: usize)
        requires
            old(self).well_formed(),
            old(self).created > 0,
        ensures
            final(self).well_formed(),
            slot == old(self).next_slot,
            slot < old(self).created,
            *final(self) == (CopyStage {
                next_slot: ((old(self).next_slot + 1) % (old(self).created as int)) as usize,
                ..*old(self)
            }),
    {
        let slot: usize = self.next_slot;
        let next: usize = slot + 1;
        self.next_slot = next % self.created;
        slot
    }
}

} // verus!
