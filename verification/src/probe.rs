//! The probe that measures capturing, scaling and encoding: its command line, its
//! measurements, and where its border is drawn.
use vstd::prelude::*;

use crate::d3d11::{
    TextureDesc, BIND_RENDER_TARGET, BIND_SHADER_RESOURCE, FORMAT_B8G8R8A8_UNORM,
    FORMAT_B8G8R8A8_UNORM_SRGB, USAGE_DEFAULT,
};
use crate::mft_encoder::EncodedFrame;
use crate::text;

verus! {

/// The probe's settings.
#[derive(Debug, Clone, PartialEq, Eq)]
pub struct Args {
    pub screen: usize,
    pub width: u32,
    pub height: u32,
    pub fps: u32,
    /// The numeral of the bit rate in megabits a second, where one was given.
    pub bitrate_mbps: Option<String>,
    pub frames: usize,
    pub acquire_timeout_ms: u32,
    pub ready_timeout_ms: u32,
    pub collect_timeout_ms: u32,
    pub max_timeouts: usize,
    pub nvenc: bool,
    pub overlay: bool,
    pub overlay_thickness: i32,
}

/// The view of [`Args`].
pub struct ArgsView {
    pub screen: usize,
    pub width: u32,
    pub height: u32,
    pub fps: u32,
    pub bitrate_mbps: Option<Seq<char>>,
    pub frames: usize,
    pub acquire_timeout_ms: u32,
    pub ready_timeout_ms: u32,
    pub collect_timeout_ms: u32,
    pub max_timeouts: usize,
    pub nvenc: bool,
    pub overlay: bool,
    pub overlay_thickness: i32,
}

impl View for Args {
    type V = ArgsView;

    open spec fn view(&self) -> ArgsView {
        ArgsView {
            screen: self.screen,
            width: self.width,
            height: self.height,
            fps: self.fps,
            bitrate_mbps: match self.bitrate_mbps {
                Some(s) => Some(s@),
                None => None,
            },
            frames: self.frames,
            acquire_timeout_ms: self.acquire_timeout_ms,
            ready_timeout_ms: self.ready_timeout_ms,
            collect_timeout_ms: self.collect_timeout_ms,
            max_timeouts: self.max_timeouts,
            nvenc: self.nvenc,
            overlay: self.overlay,
            overlay_thickness: self.overlay_thickness,
        }
    }
}

/// The settings where nothing is given.
pub open spec fn default_args() -> ArgsView {
    ArgsView {
        screen: 0,
        width: 1920,
        height: 1080,
        fps: 120,
        bitrate_mbps: None,
        frames: 10,
        acquire_timeout_ms: 250,
        ready_timeout_ms: 250,
        collect_timeout_ms: 40,
        max_timeouts: 40,
        nvenc: true,
        overlay: true,
        overlay_thickness: 6,
    }
}

/// Why a command line is not followed.
#[derive(Debug, Clone, PartialEq, Eq)]
pub enum ArgsStop {
    /// The help is asked for.
    Help,
    /// The option has no value.
    Missing(String),
    /// There is no such option.
    Unknown(String),
    /// The option's value is no number that it takes.
    Invalid(String),
}

/// The view of [`ArgsStop`].
pub enum StopView {
    Help,
    Missing(Seq<char>),
    Unknown(Seq<char>),
    Invalid(Seq<char>),
}

impl View for ArgsStop {
    type V = StopView;

    open spec fn view(&self) -> StopView {
        match *self {
            ArgsStop::Help => StopView::Help,
            ArgsStop::Missing(s) => StopView::Missing(s@),
            ArgsStop::Unknown(s) => StopView::Unknown(s@),
            ArgsStop::Invalid(s) => StopView::Invalid(s@),
        }
    }
}

impl ArgsStop {
    /// What is said, but for the help and for numbers, which have texts of their
    /// own.
    pub fn message(&self) -> (r: Option<String>)
        ensures
            match (*self, r) {
                (ArgsStop::Missing(s), Some(m)) => m@ == "missing value for "@ + s@,
                (ArgsStop::Unknown(s), Some(m)) => m@ == "unknown argument: "@ + s@,
                (ArgsStop::Help, None) => true,
                (ArgsStop::Invalid(_), None) => true,
                _ => false,
            },
    {
        match self {
            ArgsStop::Missing(s) => {
                let mut m = "missing value for ".to_owned();
                m.push_str(s.as_str());
                Some(m)
            },
            ArgsStop::Unknown(s) => {
                let mut m = "unknown argument: ".to_owned();
                m.push_str(s.as_str());
                Some(m)
            },
            _ => None,
        }
    }
}

/// The options that take a value.
#[derive(Debug, Clone, Copy, PartialEq, Eq, Structural)]
pub enum Flag {
    Screen,
    Width,
    Height,
    Fps,
    BitrateMbps,
    Frames,
    AcquireTimeoutMs,
    ReadyTimeoutMs,
    CollectTimeoutMs,
    MaxTimeouts,
    OverlayThickness,
}

/// The option that a word names, if it takes a value.
pub open spec fn flag_named(s: Seq<char>) -> Option<Flag> {
    if s == "--screen"@ {
        Some(Flag::Screen)
    } else if s == "--width"@ {
        Some(Flag::Width)
    } else if s == "--height"@ {
        Some(Flag::Height)
    } else if s == "--fps"@ {
        Some(Flag::Fps)
    } else if s == "--bitrate-mbps"@ {
        Some(Flag::BitrateMbps)
    } else if s == "--frames"@ {
        Some(Flag::Frames)
    } else if s == "--acquire-timeout-ms"@ {
        Some(Flag::AcquireTimeoutMs)
    } else if s == "--ready-timeout-ms"@ {
        Some(Flag::ReadyTimeoutMs)
    } else if s == "--collect-timeout-ms"@ {
        Some(Flag::CollectTimeoutMs)
    } else if s == "--max-timeouts"@ {
        Some(Flag::MaxTimeouts)
    } else if s == "--overlay-thickness"@ {
        Some(Flag::OverlayThickness)
    } else {
        None
    }
}

fn flag_of(s: &str) -> (r: Option<Flag>)
    ensures
        r == flag_named(s@),
{
    if text::same(s, "--screen") {
        Some(Flag::Screen)
    } else if text::same(s, "--width") {
        Some(Flag::Width)
    } else if text::same(s, "--height") {
        Some(Flag::Height)
    } else if text::same(s, "--fps") {
        Some(Flag::Fps)
    } else if text::same(s, "--bitrate-mbps") {
        Some(Flag::BitrateMbps)
    } else if text::same(s, "--frames") {
        Some(Flag::Frames)
    } else if text::same(s, "--acquire-timeout-ms") {
        Some(Flag::AcquireTimeoutMs)
    } else if text::same(s, "--ready-timeout-ms") {
        Some(Flag::ReadyTimeoutMs)
    } else if text::same(s, "--collect-timeout-ms") {
        Some(Flag::CollectTimeoutMs)
    } else if text::same(s, "--max-timeouts") {
        Some(Flag::MaxTimeouts)
    } else if text::same(s, "--overlay-thickness") {
        Some(Flag::OverlayThickness)
    } else {
        None
    }
}

/// What a text stands for as an `i32`.
pub open spec fn parsed_i32(s: Seq<char>) -> Option<int> {
    match text::parsed_i64(s) {
        Some(n) => if i32::MIN <= n <= i32::MAX {
            Some(n)
        } else {
            None
        },
        None => None,
    }
}

/// The settings with an option's value, if the value is one that it takes.
/// `is_real` says whether the value is a real number.
pub open spec fn with_value(a: ArgsView, f: Flag, v: Seq<char>, is_real: bool) -> Option<ArgsView> {
    let as_size = text::parsed_unsigned(v, usize::MAX as nat);
    let as_u32 = text::parsed_unsigned(v, u32::MAX as nat);
    match f {
        Flag::Screen => match as_size {
            Some(n) => Some(ArgsView { screen: n as usize, ..a }),
            None => None,
        },
        Flag::Frames => match as_size {
            Some(n) => Some(ArgsView { frames: n as usize, ..a }),
            None => None,
        },
        Flag::MaxTimeouts => match as_size {
            Some(n) => Some(ArgsView { max_timeouts: n as usize, ..a }),
            None => None,
        },
        Flag::Width => match as_u32 {
            Some(n) => Some(ArgsView { width: n as u32, ..a }),
            None => None,
        },
        Flag::Height => match as_u32 {
            Some(n) => Some(ArgsView { height: n as u32, ..a }),
            None => None,
        },
        Flag::Fps => match as_u32 {
            Some(n) => Some(ArgsView { fps: n as u32, ..a }),
            None => None,
        },
        Flag::AcquireTimeoutMs => match as_u32 {
            Some(n) => Some(ArgsView { acquire_timeout_ms: n as u32, ..a }),
            None => None,
        },
        Flag::ReadyTimeoutMs => match as_u32 {
            Some(n) => Some(ArgsView { ready_timeout_ms: n as u32, ..a }),
            None => None,
        },
        Flag::CollectTimeoutMs => match as_u32 {
            Some(n) => Some(ArgsView { collect_timeout_ms: n as u32, ..a }),
            None => None,
        },
        Flag::OverlayThickness => match parsed_i32(v) {
            Some(n) => Some(ArgsView { overlay_thickness: n as i32, ..a }),
            None => None,
        },
        Flag::BitrateMbps => if is_real {
            Some(ArgsView { bitrate_mbps: Some(v), ..a })
        } else {
            None
        },
    }
}

/// What a command line comes to, from the word with the number `i` on. `reals`
/// says of each word whether it is a real number.
pub open spec fn parsed_from(
    words: Seq<Seq<char>>,
    reals: Seq<bool>,
    i: int,
    a: ArgsView,
) -> Result<ArgsView, StopView>
    decreases words.len() - i,
{
    if i >= words.len() {
        Ok(a)
    } else {
        let w = words[i];
        match flag_named(w) {
            Some(f) => if i + 1 >= words.len() {
                Err(StopView::Missing(w))
            } else {
                match with_value(a, f, words[i + 1], reals[i + 1]) {
                    Some(b) => parsed_from(words, reals, i + 2, b),
                    None => Err(StopView::Invalid(w)),
                }
            },
            None => if w == "--no-nvenc"@ {
                parsed_from(words, reals, i + 1, ArgsView { nvenc: false, ..a })
            } else if w == "--no-overlay"@ {
                parsed_from(words, reals, i + 1, ArgsView { overlay: false, ..a })
            } else if w == "--help"@ || w == "-h"@ {
                Err(StopView::Help)
            } else {
                Err(StopView::Unknown(w))
            },
        }
    }
}

fn parse_size(s: &str) -> (r: Option<usize>)
    ensures
        match r {
            Some(n) => text::parsed_unsigned(s@, usize::MAX as nat) == Some(n as nat),
            None => text::parsed_unsigned(s@, usize::MAX as nat) is None,
        },
{
    match text::parse_unsigned(s, usize::MAX as u64) {
        Some(n) => Some(n as usize),
        None => None,
    }
}

fn parse_u32(s: &str) -> (r: Option<u32>)
    ensures
        match r {
            Some(n) => text::parsed_unsigned(s@, u32::MAX as nat) == Some(n as nat),
            None => text::parsed_unsigned(s@, u32::MAX as nat) is None,
        },
{
    match text::parse_unsigned(s, u32::MAX as u64) {
        Some(n) => Some(n as u32),
        None => None,
    }
}

impl Args {
    /// The settings where nothing is given.
    pub fn standard() -> (r: Args)
        ensures
            r@ == default_args(),
    {
        Args {
            screen: 0,
            width: 1920,
            height: 1080,
            fps: 120,
            bitrate_mbps: None,
            frames: 10,
            acquire_timeout_ms: 250,
            ready_timeout_ms: 250,
            collect_timeout_ms: 40,
            max_timeouts: 40,
            nvenc: true,
            overlay: true,
            overlay_thickness: 6,
        }
    }

    /// Sets an option's value; `false` where it is none that the option takes.
    fn set(&mut self, f: Flag, v: &str, is_real: bool) -> (ok: bool)
        ensures
            match with_value(old(self)@, f, v@, is_real) {
                Some(b) => ok && final(self)@ == b,
                None => !ok && final(self)@ == old(self)@,
            },
    {
        match f {
            Flag::Screen => match parse_size(v) {
                Some(n) => {
                    self.screen = n;
                    true
                },
                None => false,
            },
            Flag::Frames => match parse_size(v) {
                Some(n) => {
                    self.frames = n;
                    true
                },
                None => false,
            },
            Flag::MaxTimeouts => match parse_size(v) {
                Some(n) => {
                    self.max_timeouts = n;
                    true
                },
                None => false,
            },
            Flag::Width => match parse_u32(v) {
                Some(n) => {
                    self.width = n;
                    true
                },
                None => false,
            },
            Flag::Height => match parse_u32(v) {
                Some(n) => {
                    self.height = n;
                    true
                },
                None => false,
            },
            Flag::Fps => match parse_u32(v) {
                Some(n) => {
                    self.fps = n;
                    true
                },
                None => false,
            },
            Flag::AcquireTimeoutMs => match parse_u32(v) {
                Some(n) => {
                    self.acquire_timeout_ms = n;
                    true
                },
                None => false,
            },
            Flag::ReadyTimeoutMs => match parse_u32(v) {
                Some(n) => {
                    self.ready_timeout_ms = n;
                    true
                },
                None => false,
            },
            Flag::CollectTimeoutMs => match parse_u32(v) {
                Some(n) => {
                    self.collect_timeout_ms = n;
                    true
                },
                None => false,
            },
            Flag::OverlayThickness => match text::parse_i64(v) {
                Some(n) => {
                    if i32::MIN as i64 <= n && n <= i32::MAX as i64 {
                        self.overlay_thickness = n as i32;
                        true
                    } else {
                        false
                    }
                },
                None => false,
            },
            Flag::BitrateMbps => {
                if is_real {
                    self.bitrate_mbps = Some(v.to_owned());
                }
                is_real
            },
        }
    }
}

/// Reads a command line, without the program's name. `reals` says of each word
/// whether it is a real number.
pub fn parse_args(words: &Vec<String>, reals: &Vec<bool>) -> (r: Result<Args, ArgsStop>)
    requires
        reals@.len() == words@.len(),
    ensures
        match (r, parsed_from(text::texts(words@), reals@, 0, default_args())) {
            (Ok(a), Ok(b)) => a@ == b,
            (Err(e), Err(f)) => e@ == f,
            _ => false,
        },
{
    let ghost all = text::texts(words@);
    let ghost result = parsed_from(all, reals@, 0, default_args());
    let mut args = Args::standard();
    let mut i: usize = 0;
    while i < words.len()
        invariant
            i <= words@.len(),
            reals@.len() == words@.len(),
            all == text::texts(words@),
            result == parsed_from(all, reals@, 0, default_args()),
            result == parsed_from(all, reals@, i as int, args@),
        decreases words@.len() - i,
    {
        let word = words[i].as_str();
        assert(all[i as int] == word@);
        match flag_of(word) {
            Some(f) => {
                if i + 1 >= words.len() {
                    return Err(ArgsStop::Missing(word.to_owned()));
                }
                assert(all[i + 1] == words@[i + 1]@);
                if !args.set(f, words[i + 1].as_str(), reals[i + 1]) {
                    return Err(ArgsStop::Invalid(word.to_owned()));
                }
                i += 2;
            },
            None => {
                if text::same(word, "--no-nvenc") {
                    args.nvenc = false;
                    i += 1;
                } else if text::same(word, "--no-overlay") {
                    args.overlay = false;
                    i += 1;
                } else if text::same(word, "--help") || text::same(word, "-h") {
                    return Err(ArgsStop::Help);
                } else {
                    return Err(ArgsStop::Unknown(word.to_owned()));
                }
            },
        }
    }
    Ok(args)
}

/// What was measured of one step, in microseconds.
#[derive(Debug, Clone, Copy, PartialEq, Eq, Structural)]
pub struct Metric {
    pub count: u64,
    pub total_us: u128,
    pub min_us: u128,
    pub max_us: u128,
}

/// The sum of measurements.
pub open spec fn total(s: Seq<u128>) -> int
    decreases s.len(),
{
    if s.len() == 0 {
        0
    } else {
        total(s.drop_last()) + s.last()
    }
}

impl Metric {
    /// Nothing was measured.
    pub fn new() -> (r: Metric)
        ensures
            r.describes(Seq::empty()),
    {
        Metric { count: 0, total_us: 0, min_us: 0, max_us: 0 }
    }

    /// The metric is that of these measurements.
    pub open spec fn describes(self, s: Seq<u128>) -> bool {
        &&& self.count == s.len()
        &&& self.total_us == total(s)
        &&& s.len() == 0 ==> self.min_us == 0 && self.max_us == 0
        &&& s.len() > 0 ==> s.contains(self.min_us) && s.contains(self.max_us)
        &&& forall|i: int| 0 <= i < s.len() ==> self.min_us <= #[trigger] s[i] <= self.max_us
    }

    /// The metric with one more measurement.
    pub open spec fn pushed(self, v: u128) -> Metric {
        Metric {
            count: (self.count + 1) as u64,
            total_us: (self.total_us + v) as u128,
            min_us: if self.count == 0 || v < self.min_us {
                v
            } else {
                self.min_us
            },
            max_us: if self.count == 0 || v > self.max_us {
                v
            } else {
                self.max_us
            },
        }
    }

    /// Adds a measurement.
    pub fn push(&mut self, value_us: u128)
        requires
            old(self).count < u64::MAX,
            old(self).total_us + value_us <= u128::MAX,
        ensures
            *final(self) == old(self).pushed(value_us),
    {
        self.count += 1;
        self.total_us += value_us;
        if self.count == 1 {
            self.min_us = value_us;
            self.max_us = value_us;
        } else {
            if value_us < self.min_us {
                self.min_us = value_us;
            }
            if value_us > self.max_us {
                self.max_us = value_us;
            }
        }
    }
}

/// A metric stays that of the measurements that were added to it: their number,
/// their sum, the least and the largest of them.
pub proof fn metric_describes_its_measurements(m: Metric, s: Seq<u128>, v: u128)
    requires
        m.describes(s),
        m.count < u64::MAX,
        m.total_us + v <= u128::MAX,
    ensures
        m.pushed(v).describes(s.push(v)),
{
    let t = s.push(v);
    let n = m.pushed(v);
    assert(t.drop_last() =~= s);
    assert(t.last() == v);
    assert(t[t.len() - 1] == v);
    if s.len() > 0 {
        let i = choose|i: int| 0 <= i < s.len() && s[i] == m.min_us;
        let j = choose|j: int| 0 <= j < s.len() && s[j] == m.max_us;
        assert(t[i] == m.min_us);
        assert(t[j] == m.max_us);
    }
    assert forall|i: int| 0 <= i < t.len() implies n.min_us <= #[trigger] t[i] <= n.max_us by {
        if i < s.len() {
            assert(t[i] == s[i]);
        }
    }
}

/// What was encoded.
#[derive(Debug, Clone, Copy, PartialEq, Eq, Structural)]
pub struct EncodedOutputStats {
    pub frames: usize,
    pub key_frames: usize,
    pub bytes: usize,
}

impl EncodedOutputStats {
    /// Nothing was encoded.
    pub fn none() -> (r: EncodedOutputStats)
        ensures
            r == no_output(),
    {
        EncodedOutputStats { frames: 0, key_frames: 0, bytes: 0 }
    }

    /// Adds what was encoded besides.
    pub fn merge(&mut self, other: EncodedOutputStats)
        requires
            old(self).frames + other.frames <= usize::MAX,
            old(self).key_frames + other.key_frames <= usize::MAX,
            old(self).bytes + other.bytes <= usize::MAX,
        ensures
            final(self).frames == old(self).frames + other.frames,
            final(self).key_frames == old(self).key_frames + other.key_frames,
            final(self).bytes == old(self).bytes + other.bytes,
    {
        self.frames += other.frames;
        self.key_frames += other.key_frames;
        self.bytes += other.bytes;
    }
}

/// The number of key frames.
pub open spec fn key_frames(s: Seq<EncodedFrame>) -> int
    decreases s.len(),
{
    if s.len() == 0 {
        0
    } else {
        key_frames(s.drop_last()) + if s.last().key_frame {
            1int
        } else {
            0
        }
    }
}

/// The number of bytes of frames.
pub open spec fn byte_count(s: Seq<EncodedFrame>) -> int
    decreases s.len(),
{
    if s.len() == 0 {
        0
    } else {
        byte_count(s.drop_last()) + s.last().data@.len()
    }
}

/// What the probe measured of encoding.
#[derive(Debug, Clone, Copy, PartialEq, Eq, Structural)]
pub struct EncodeSummary {
    pub submit_cpu: Metric,
    pub submit_gpu_total: Metric,
    pub map: Metric,
    pub pic: Metric,
    pub collect_wait: Metric,
    pub encode_reported: Metric,
    pub queue_full: usize,
    pub collect_none: usize,
    pub encoded: EncodedOutputStats,
}

impl EncodeSummary {
    /// Nothing was measured.
    pub fn new() -> (r: EncodeSummary)
        ensures
            r.submit_cpu.describes(Seq::empty()),
            r.submit_gpu_total.describes(Seq::empty()),
            r.map.describes(Seq::empty()),
            r.pic.describes(Seq::empty()),
            r.collect_wait.describes(Seq::empty()),
            r.encode_reported.describes(Seq::empty()),
            r.queue_full == 0,
            r.collect_none == 0,
            r.encoded == no_output(),
    {
        EncodeSummary {
            submit_cpu: Metric::new(),
            submit_gpu_total: Metric::new(),
            map: Metric::new(),
            pic: Metric::new(),
            collect_wait: Metric::new(),
            encode_reported: Metric::new(),
            queue_full: 0,
            collect_none: 0,
            encoded: EncodedOutputStats::none(),
        }
    }
}

/// Nothing was encoded.
pub open spec fn no_output() -> EncodedOutputStats {
    EncodedOutputStats { frames: 0, key_frames: 0, bytes: 0 }
}

/// What frames come to.
pub open spec fn stats_of(frames: Seq<EncodedFrame>) -> EncodedOutputStats {
    EncodedOutputStats {
        frames: frames.len() as usize,
        key_frames: key_frames(frames) as usize,
        bytes: byte_count(frames) as usize,
    }
}

/// What was encoded, with what was encoded besides.
pub open spec fn merged(a: EncodedOutputStats, b: EncodedOutputStats) -> EncodedOutputStats {
    EncodedOutputStats {
        frames: (a.frames + b.frames) as usize,
        key_frames: (a.key_frames + b.key_frames) as usize,
        bytes: (a.bytes + b.bytes) as usize,
    }
}

/// The counts of frames fit on top of others.
pub open spec fn stats_fit(a: EncodedOutputStats, frames: Seq<EncodedFrame>) -> bool {
    &&& a.frames + frames.len() <= usize::MAX
    &&& a.key_frames + frames.len() <= usize::MAX
    &&& a.bytes + byte_count(frames) <= usize::MAX
}

/// A metric can take one more measurement.
pub open spec fn can_push(m: Metric, v: int) -> bool {
    m.count < u64::MAX && m.total_us + v <= u128::MAX
}

/// What was collected: frames with the time that encoding them took, or nothing.
pub open spec fn output_view(output: Option<(&Vec<EncodedFrame>, u64)>) -> Option<
    (Seq<EncodedFrame>, u64),
> {
    match output {
        Some((frames, encode_us)) => Some((frames@, encode_us)),
        None => None,
    }
}

/// The summary has room for what was collected.
pub open spec fn can_record(
    s: EncodeSummary,
    output: Option<(Seq<EncodedFrame>, u64)>,
    wait_us: u128,
) -> bool {
    can_push(s.collect_wait, wait_us as int) && match output {
        Some((frames, encode_us)) => can_push(s.encode_reported, encode_us as int) && stats_fit(
            s.encoded,
            frames,
        ),
        None => s.collect_none < usize::MAX,
    }
}

/// What was collected comes to.
pub open spec fn collected_stats(output: Option<(Seq<EncodedFrame>, u64)>) -> EncodedOutputStats {
    match output {
        Some((frames, _)) => stats_of(frames),
        None => no_output(),
    }
}

/// The summary with what was collected after a wait.
pub open spec fn recorded(
    s: EncodeSummary,
    output: Option<(Seq<EncodedFrame>, u64)>,
    wait_us: u128,
) -> EncodeSummary {
    match output {
        Some((frames, encode_us)) => EncodeSummary {
            collect_wait: s.collect_wait.pushed(wait_us),
            encode_reported: s.encode_reported.pushed(encode_us as u128),
            encoded: merged(s.encoded, stats_of(frames)),
            ..s
        },
        None => EncodeSummary {
            collect_wait: s.collect_wait.pushed(wait_us),
            collect_none: (s.collect_none + 1) as usize,
            ..s
        },
    }
}

proof fn byte_count_grows(s: Seq<EncodedFrame>, n: int)
    requires
        0 <= n <= s.len(),
    ensures
        0 <= byte_count(s.take(n)) <= byte_count(s),
        0 <= key_frames(s.take(n)) <= n,
    decreases s.len() + (s.len() - n),
{
    if n < s.len() {
        byte_count_grows(s, n + 1);
        assert(s.take(n + 1).drop_last() =~= s.take(n));
        byte_count_grows(s.take(n), n);
        assert(s.take(n).take(n) =~= s.take(n));
    } else {
        assert(s.take(n) =~= s);
        if s.len() > 0 {
            byte_count_grows(s.drop_last(), n - 1);
            assert(s.drop_last().take(n - 1) =~= s.drop_last());
        }
    }
}

/// Records what was collected after a wait: what it comes to.
pub fn record_encoded_output(
    summary: &mut EncodeSummary,
    output: Option<(&Vec<EncodedFrame>, u64)>,
    wait_us: u128,
) -> (r: EncodedOutputStats)
    requires
        can_record(*old(summary), output_view(output), wait_us),
    ensures
        *final(summary) == recorded(*old(summary), output_view(output), wait_us),
        r == collected_stats(output_view(output)),
{
    summary.collect_wait.push(wait_us);
    match output {
        None => {
            summary.collect_none += 1;
            EncodedOutputStats::none()
        },
        Some((frames, encode_us)) => {
            summary.encode_reported.push(encode_us as u128);
            let mut stats = EncodedOutputStats::none();
            let mut i: usize = 0;
            while i < frames.len()
                invariant
                    i <= frames@.len(),
                    byte_count(frames@) <= usize::MAX,
                    stats.frames == i,
                    stats.key_frames == key_frames(frames@.take(i as int)),
                    stats.bytes == byte_count(frames@.take(i as int)),
                decreases frames@.len() - i,
            {
                proof {
                    byte_count_grows(frames@, i as int);
                    byte_count_grows(frames@, i + 1);
                    assert(frames@.take(i + 1).drop_last() =~= frames@.take(i as int));
                }
                stats.frames += 1;
                stats.bytes += frames[i].data.len();
                if frames[i].key_frame {
                    stats.key_frames += 1;
                }
                i += 1;
            }
            proof {
                byte_count_grows(frames@, i as int);
                assert(frames@.take(i as int) =~= frames@);
            }
            summary.encoded.merge(stats);
            stats
        },
    }
}

/// Where encoding a frame stands.
#[derive(Debug, Clone, Copy, PartialEq, Eq, Structural)]
pub enum EncodeStage {
    /// The frame is being submitted.
    Submitting,
    /// The encoder's queue is full, and an output is being collected to make room.
    MakingRoom,
    /// The frame's output is being collected.
    Collecting,
    /// Encoding the frame is over.
    Over,
}

/// Encoding a frame, with what was collected during it.
#[derive(Debug, Clone, Copy, PartialEq, Eq, Structural)]
pub struct FrameEncode {
    pub stage: EncodeStage,
    pub collect_wait_us: u128,
    pub outputs: EncodedOutputStats,
}

/// What came of the action that a step asked for, with times in microseconds.
#[derive(Debug, Clone, PartialEq, Eq)]
pub enum EncodeEvent {
    Submitted { cpu_us: u128, gpu_total_us: u64, map_us: u64, pic_us: u64 },
    QueueFull,
    Collected { output: Option<(Vec<EncodedFrame>, u64)>, wait_us: u128 },
}

/// What to do next about a frame.
#[derive(Debug, Clone, Copy, PartialEq, Eq, Structural)]
pub enum EncodeAction {
    Submit,
    Collect,
    Done,
}

/// What an event says was collected.
pub open spec fn event_output(output: Option<(Vec<EncodedFrame>, u64)>) -> Option<
    (Seq<EncodedFrame>, u64),
> {
    match output {
        Some((frames, encode_us)) => Some((frames@, encode_us)),
        None => None,
    }
}

/// Whether the event answers the action that led to the stage, and the counters
/// have room for it.
pub open spec fn encode_answers(s: EncodeSummary, job: FrameEncode, ev: EncodeEvent) -> bool {
    match ev {
        EncodeEvent::Submitted { cpu_us, gpu_total_us, map_us, pic_us } => job.stage
            == EncodeStage::Submitting && can_push(s.submit_cpu, cpu_us as int) && can_push(
            s.submit_gpu_total,
            gpu_total_us as int,
        ) && can_push(s.map, map_us as int) && can_push(s.pic, pic_us as int),
        EncodeEvent::QueueFull => job.stage == EncodeStage::Submitting && s.queue_full
            < usize::MAX,
        EncodeEvent::Collected { output, wait_us } => (job.stage == EncodeStage::MakingRoom
            || job.stage == EncodeStage::Collecting) && can_record(
            s,
            event_output(output),
            wait_us,
        ) && job.collect_wait_us + wait_us <= u128::MAX && (match output {
            Some((frames, _)) => stats_fit(job.outputs, frames@),
            None => true,
        }),
    }
}

/// What encoding a frame does next. Where the queue is full, outputs are collected
/// until the frame fits or none comes; then the frame is given up, and its output
/// is asked for all the same.
pub open spec fn encode_next(s: EncodeSummary, job: FrameEncode, ev: EncodeEvent) -> (
    EncodeSummary,
    FrameEncode,
    EncodeAction,
) {
    match ev {
        EncodeEvent::Submitted { cpu_us, gpu_total_us, map_us, pic_us } => (
            EncodeSummary {
                submit_cpu: s.submit_cpu.pushed(cpu_us),
                submit_gpu_total: s.submit_gpu_total.pushed(gpu_total_us as u128),
                map: s.map.pushed(map_us as u128),
                pic: s.pic.pushed(pic_us as u128),
                ..s
            },
            FrameEncode { stage: EncodeStage::Collecting, ..job },
            EncodeAction::Collect,
        ),
        EncodeEvent::QueueFull => (
            EncodeSummary { queue_full: (s.queue_full + 1) as usize, ..s },
            FrameEncode { stage: EncodeStage::MakingRoom, ..job },
            EncodeAction::Collect,
        ),
        EncodeEvent::Collected { output, wait_us } => {
            let (stage, action) = if job.stage == EncodeStage::Collecting {
                (EncodeStage::Over, EncodeAction::Done)
            } else if output is None {
                (EncodeStage::Collecting, EncodeAction::Collect)
            } else {
                (EncodeStage::Submitting, EncodeAction::Submit)
            };
            (
                recorded(s, event_output(output), wait_us),
                FrameEncode {
                    stage,
                    collect_wait_us: (job.collect_wait_us + wait_us) as u128,
                    outputs: merged(job.outputs, collected_stats(event_output(output))),
                },
                action,
            )
        },
    }
}

impl FrameEncode {
    /// Begins to encode a frame, which is then to be submitted.
    pub fn begin() -> (r: FrameEncode)
        ensures
            r == (FrameEncode {
                stage: EncodeStage::Submitting,
                collect_wait_us: 0,
                outputs: no_output(),
            }),
    {
        FrameEncode {
            stage: EncodeStage::Submitting,
            collect_wait_us: 0,
            outputs: EncodedOutputStats::none(),
        }
    }

    /// Goes on with encoding a frame, given what came of the last action.
    pub fn step(&mut self, summary: &mut EncodeSummary, ev: EncodeEvent) -> (r: EncodeAction)
        requires
            encode_answers(*old(summary), *old(self), ev),
        ensures
            (*final(summary), *final(self), r) == encode_next(*old(summary), *old(self), ev),
    {
        match ev {
            EncodeEvent::Submitted { cpu_us, gpu_total_us, map_us, pic_us } => {
                summary.submit_cpu.push(cpu_us);
                summary.submit_gpu_total.push(gpu_total_us as u128);
                summary.map.push(map_us as u128);
                summary.pic.push(pic_us as u128);
                self.stage = EncodeStage::Collecting;
                EncodeAction::Collect
            },
            EncodeEvent::QueueFull => {
                summary.queue_full += 1;
                self.stage = EncodeStage::MakingRoom;
                EncodeAction::Collect
            },
            EncodeEvent::Collected { output, wait_us } => {
                self.collect_wait_us += wait_us;
                let none = output.is_none();
                let stats = match &output {
                    Some((frames, encode_us)) => {
                        proof {
                            byte_count_grows(frames@, frames@.len() as int);
                            assert(frames@.take(frames@.len() as int) =~= frames@);
                        }
                        record_encoded_output(summary, Some((frames, *encode_us)), wait_us)
                    },
                    None => record_encoded_output(summary, None, wait_us),
                };
                self.outputs.merge(stats);
                if self.stage == EncodeStage::Collecting {
                    self.stage = EncodeStage::Over;
                    EncodeAction::Done
                } else if none {
                    self.stage = EncodeStage::Collecting;
                    EncodeAction::Collect
                } else {
                    self.stage = EncodeStage::Submitting;
                    EncodeAction::Submit
                }
            },
        }
    }
}

/// A frame is over only once its output was asked for, and it is asked for only
/// once the frame was submitted or no room could be made for it.
pub proof fn outputs_are_asked_for_last(s: EncodeSummary, job: FrameEncode, ev: EncodeEvent)
    requires
        encode_answers(s, job, ev),
    ensures
        ({
            let (t, j, action) = encode_next(s, job, ev);
            &&& (j.stage is Over) == (action is Done)
            &&& action is Done ==> job.stage is Collecting
            &&& j.stage is Collecting ==> ev is Submitted || (job.stage is MakingRoom
                && ev->output is None)
        }),
{
}

/// How many outputs are collected at the end at most: two more than the encoder's
/// ring has places.
pub open spec fn drain_limit(ring_size: usize) -> int {
    if ring_size + 2 > usize::MAX {
        usize::MAX as int
    } else {
        ring_size + 2
    }
}

/// Whether to go on with collecting at the end, after so many outputs: as long as
/// one came, and up to the limit.
pub fn drain_goes_on(collected: usize, ring_size: usize, last_came: bool) -> (r: bool)
    ensures
        r == (last_came && collected < drain_limit(ring_size)),
{
    last_came && collected < ring_size.saturating_add(2)
}

/// The summary with what was collected at the end. That nothing came any more is
/// counted, but the wait for it is not measured.
pub open spec fn drained(
    s: EncodeSummary,
    output: Option<(Seq<EncodedFrame>, u64)>,
    wait_us: u128,
) -> EncodeSummary {
    match output {
        Some(_) => recorded(s, output, wait_us),
        None => EncodeSummary { collect_none: (s.collect_none + 1) as usize, ..s },
    }
}

/// Records what was collected at the end, after `collected` outputs: what it comes
/// to, and whether to collect once more.
pub fn record_drained_output(
    summary: &mut EncodeSummary,
    output: Option<(&Vec<EncodedFrame>, u64)>,
    wait_us: u128,
    collected: usize,
    ring_size: usize,
) -> (r: (EncodedOutputStats, bool))
    requires
        output is Some ==> collected < usize::MAX && can_record(
            *old(summary),
            output_view(output),
            wait_us,
        ),
        output is None ==> old(summary).collect_none < usize::MAX,
    ensures
        *final(summary) == drained(*old(summary), output_view(output), wait_us),
        r.0 == collected_stats(output_view(output)),
        r.1 == (output is Some && collected + 1 < drain_limit(ring_size)),
{
    match output {
        Some((frames, encode_us)) => {
            let stats = record_encoded_output(summary, Some((frames, encode_us)), wait_us);
            (stats, drain_goes_on(collected + 1, ring_size, true))
        },
        None => {
            summary.collect_none += 1;
            (EncodedOutputStats::none(), false)
        },
    }
}

/// Goes on after a capture that found no new frame in time: the number of such
/// captures in a row, or the error where there were too many.
pub fn count_timeout(timeouts: usize, max_timeouts: usize) -> (r: Result<usize, String>)
    requires
        timeouts < usize::MAX,
    ensures
        match r {
            Ok(n) => n == timeouts + 1 && n < max_timeouts,
            Err(s) => timeouts + 1 >= max_timeouts && s@
                == "DXGI timed out waiting for a changed frame "@ + text::decimal(
                (timeouts + 1) as nat,
            ) + " times in a row; keep the target monitor animated"@,
        },
{
    let n: usize = timeouts + 1;
    if n >= max_timeouts {
        let mut s = "DXGI timed out waiting for a changed frame ".to_owned();
        text::push_decimal(&mut s, n as u64);
        s.push_str(" times in a row; keep the target monitor animated");
        return Err(s);
    }
    Ok(n)
}

/// The time stamp of a frame in microseconds, as a signed number: above the largest
/// one it starts again at the least. A frame rate of zero counts as one.
pub fn frame_timestamp_us(frame_index: u64, fps: u32) -> (r: i64)
    requires
        frame_index * 1_000_000 <= u64::MAX,
    ensures
        r == as_signed(
            (frame_index * 1_000_000) / (if fps == 0 {
                1int
            } else {
                fps as int
            }),
        ),
{
    let rate: u64 = if fps == 0 {
        1
    } else {
        fps as u64
    };
    let t: u64 = (frame_index * 1_000_000) / rate;
    if t <= 0x7fff_ffff_ffff_ffff {
        t as i64
    } else {
        let below: u64 = 0xffff_ffff_ffff_ffff - t;
        -1 - below as i64
    }
}

/// The signed 64-bit number with the bits of an unsigned one.
pub open spec fn as_signed(t: int) -> int {
    if t <= i64::MAX {
        t
    } else {
        t - 0x1_0000_0000_0000_0000
    }
}

/// The texture that captured frames are copied to: as the source, but for the
/// scaler to read, and not sRGB.
pub fn create_probe_input_texture(source: TextureDesc) -> (r: TextureDesc)
    ensures
        r == (TextureDesc {
            format: if source.format == FORMAT_B8G8R8A8_UNORM_SRGB {
                FORMAT_B8G8R8A8_UNORM
            } else {
                source.format
            },
            usage: USAGE_DEFAULT,
            bind_flags: BIND_SHADER_RESOURCE | BIND_RENDER_TARGET,
            cpu_access: 0,
            misc_flags: 0,
            ..source
        }),
{
    let mut desc = source;
    if desc.format == FORMAT_B8G8R8A8_UNORM_SRGB {
        desc.format = FORMAT_B8G8R8A8_UNORM;
    }
    desc.usage = USAGE_DEFAULT;
    desc.bind_flags = BIND_SHADER_RESOURCE | BIND_RENDER_TARGET;
    desc.cpu_access = 0;
    desc.misc_flags = 0;
    desc
}

/// A number that is at least one.
pub open spec fn at_least_one(n: i32) -> i32 {
    if n < 1 {
        1
    } else {
        n
    }
}

fn clamp_one(n: i32) -> (r: i32)
    ensures
        r == at_least_one(n),
{
    if n < 1 {
        1
    } else {
        n
    }
}

/// A window of the border: its corner and its size.
#[derive(Debug, Clone, Copy, PartialEq, Eq, Structural)]
pub struct BorderWindow {
    pub x: i32,
    pub y: i32,
    pub width: i32,
    pub height: i32,
}

/// The windows of the border round a monitor: top, bottom, left and right.
/// Nothing is narrower than one pixel.
pub fn overlay_windows(x: i32, y: i32, width: i32, height: i32, thickness: i32) -> (r: Vec<
    BorderWindow,
>)
    requires
        i32::MIN <= x + at_least_one(width) - at_least_one(thickness) <= i32::MAX,
        i32::MIN <= y + at_least_one(height) - at_least_one(thickness) <= i32::MAX,
    ensures
        ({
            let (w, h, t) = (at_least_one(width), at_least_one(height), at_least_one(thickness));
            r@ == seq![
                BorderWindow { x, y, width: w, height: t },
                BorderWindow { x, y: (y + h - t) as i32, width: w, height: t },
                BorderWindow { x, y, width: t, height: h },
                BorderWindow { x: (x + w - t) as i32, y, width: t, height: h },
            ]
        }),
{
    let w: i32 = clamp_one(width);
    let h: i32 = clamp_one(height);
    let t: i32 = clamp_one(thickness);
    let bottom: i64 = y as i64 + (h as i64 - t as i64);
    let right: i64 = x as i64 + (w as i64 - t as i64);
    let mut r: Vec<BorderWindow> = Vec::new();
    r.push(BorderWindow { x, y, width: w, height: t });
    r.push(BorderWindow { x, y: bottom as i32, width: w, height: t });
    r.push(BorderWindow { x, y, width: t, height: h });
    r.push(BorderWindow { x: right as i32, y, width: t, height: h });
    assert(r@ =~= seq![
        BorderWindow { x, y, width: w, height: t },
        BorderWindow { x, y: (y + h - t) as i32, width: w, height: t },
        BorderWindow { x, y, width: t, height: h },
        BorderWindow { x: (x + w - t) as i32, y, width: t, height: h },
    ]);
    r
}

} // verus!
