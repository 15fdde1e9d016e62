//! From RGBA to I420 planes on the GPU, with or without scaling: buffer sizes,
//! thread groups, the two sets of staging buffers that are used in turn, and the
//! planes that are read back. The Direct3D calls are the caller's.
use vstd::prelude::*;

use crate::d3d11::{
    self, BufferDesc, BIND_UNORDERED_ACCESS, CPU_ACCESS_READ, FORMAT_B8G8R8A8_UNORM,
    FORMAT_B8G8R8A8_UNORM_SRGB, FORMAT_R32_TYPELESS, FORMAT_R8G8B8A8_UNORM,
    MISC_BUFFER_ALLOW_RAW_VIEWS, USAGE_DEFAULT, USAGE_STAGING,
};
use crate::d3d11_nv12::ShaderRun;

verus! {

/// How long the planes of the frame before are waited for, in nanoseconds.
pub const READBACK_TIMEOUT_NS: u64 = 200_000_000;

/// The three planes of a frame.
#[derive(Debug, Clone, PartialEq, Eq)]
pub struct I420Planes {
    pub y: Vec<u8>,
    pub u: Vec<u8>,
    pub v: Vec<u8>,
    pub width: u32,
    pub height: u32,
}

/// The number of bytes of the luma plane.
pub open spec fn luma_len(w: u32, h: u32) -> int {
    w * h
}

/// The number of bytes of each chroma plane.
pub open spec fn chroma_len(w: u32, h: u32) -> int {
    (w as int / 2) * (h as int / 2)
}

/// The chroma planes are no larger than the luma plane.
pub proof fn chroma_is_smaller(w: u32, h: u32)
    ensures
        0 <= chroma_len(w, h) <= luma_len(w, h),
{
    let (a, b) = (w as int / 2, h as int / 2);
    assert(0 <= a * b <= w * h) by (nonlinear_arith)
        requires
            0 <= a <= w,
            0 <= b <= h,
    ;
}

/// `s` cut off or filled up with zeros to `n` bytes.
pub open spec fn resized(s: Seq<u8>, n: int) -> Seq<u8> {
    Seq::new(
        n as nat,
        |i: int|
            if i < s.len() {
                s[i]
            } else {
                0u8
            },
    )
}

fn resize_to(v: &mut Vec<u8>, n: usize)
    ensures
        final(v)@ == resized(old(v)@, n as int),
{
    let ghost before = v@;
    if v.len() != n {
        v.resize(n, 0);
    }
    assert(v@ =~= resized(before, n as int)) by {
        assert forall|i: int| 0 <= i < n implies v@[i] == resized(before, n as int)[i] by {
            if before.len() < n && i < before.len() {
                assert(v@.subrange(0, before.len() as int)[i] == before[i]);
            }
        }
    }
}

/// The first `n` bytes of `src`.
fn take_bytes(src: &[u8], n: usize) -> (r: Vec<u8>)
    requires
        n <= src@.len(),
    ensures
        r@ == src@.take(n as int),
{
    let mut r: Vec<u8> = Vec::new();
    let mut i: usize = 0;
    while i < n
        invariant
            i <= n <= src@.len(),
            r@ == src@.take(i as int),
        decreases n - i,
    {
        r.push(src[i]);
        i += 1;
        assert(r@ =~= src@.take(i as int));
    }
    r
}

impl I420Planes {
    /// The planes have the sizes that go with the dimensions.
    pub open spec fn well_formed(self) -> bool {
        &&& self.y@.len() == luma_len(self.width, self.height)
        &&& self.u@.len() == chroma_len(self.width, self.height)
        &&& self.v@.len() == chroma_len(self.width, self.height)
    }

    /// Planes of no size.
    pub fn new_empty() -> (r: I420Planes)
        ensures
            r.y@.len() == 0,
            r.u@.len() == 0,
            r.v@.len() == 0,
            r.width == 0,
            r.height == 0,
            r.well_formed(),
    {
        I420Planes { y: Vec::new(), u: Vec::new(), v: Vec::new(), width: 0, height: 0 }
    }

    /// Gives the planes the sizes that go with the dimensions.
    pub fn ensure_size(&mut self, w: u32, h: u32)
        requires
            luma_len(w, h) <= u32::MAX,
        ensures
            final(self).well_formed(),
            final(self).width == w,
            final(self).height == h,
            final(self).y@ == resized(old(self).y@, luma_len(w, h)),
            final(self).u@ == resized(old(self).u@, chroma_len(w, h)),
            final(self).v@ == resized(old(self).v@, chroma_len(w, h)),
    {
        proof {
            chroma_is_smaller(w, h);
        }
        let y_len: usize = (w * h) as usize;
        let uv_len: usize = ((w / 2) * (h / 2)) as usize;
        resize_to(&mut self.y, y_len);
        resize_to(&mut self.u, uv_len);
        resize_to(&mut self.v, uv_len);
        self.width = w;
        self.height = h;
    }

    /// Takes over the planes of a frame from mapped staging buffers, which may be
    /// larger.
    pub fn read_back(&mut self, w: u32, h: u32, y: &[u8], u: &[u8], v: &[u8])
        requires
            luma_len(w, h) <= u32::MAX,
            luma_len(w, h) <= y@.len(),
            chroma_len(w, h) <= u@.len(),
            chroma_len(w, h) <= v@.len(),
        ensures
            final(self).well_formed(),
            final(self).width == w,
            final(self).height == h,
            final(self).y@ == y@.take(luma_len(w, h)),
            final(self).u@ == u@.take(chroma_len(w, h)),
            final(self).v@ == v@.take(chroma_len(w, h)),
    {
        proof {
            chroma_is_smaller(w, h);
        }
        self.ensure_size(w, h);
        let y_len: usize = (w * h) as usize;
        let uv_len: usize = ((w / 2) * (h / 2)) as usize;
        self.y = take_bytes(y, y_len);
        self.u = take_bytes(u, uv_len);
        self.v = take_bytes(v, uv_len);
    }
}

/// How long the steps of a conversion took, in nanoseconds.
#[derive(Debug, Clone, Copy, PartialEq, Eq, Structural)]
pub struct GpuConvertTiming {
    pub dispatch_ns: u64,
    pub copy_ns: u64,
    pub map_ns: u64,
    pub total_ns: u64,
}

/// Why a conversion failed.
#[derive(Debug, Clone, PartialEq, Eq)]
pub enum D3d11I420Error {
    Compile(String),
    CreateBuffer(String),
    CreateQuery(String),
    CreateSampler(String),
    CreateShaderResourceView(String),
    CreateUnorderedAccessView(String),
    MapFailed(String),
}

/// Two sets of staging buffers: the one written last is read while the other is
/// written.
#[derive(Debug, Clone, Copy, PartialEq, Eq, Structural)]
pub struct StagingPair {
    pub last_write_idx: usize,
}

impl StagingPair {
    /// The index is that of one of the two sets.
    pub open spec fn well_formed(self) -> bool {
        self.last_write_idx < 2
    }

    /// The second set counts as written, so that the first is written first.
    pub fn new() -> (r: StagingPair)
        ensures
            r.well_formed(),
            r.last_write_idx == 1,
    {
        StagingPair { last_write_idx: 1 }
    }

    /// The set to read.
    pub fn map_idx(&self) -> (r: usize)
        requires
            self.well_formed(),
        ensures
            r == self.last_write_idx,
            r < 2,
    {
        self.last_write_idx
    }

    /// The set to write.
    pub fn write_idx(&self) -> (r: usize)
        requires
            self.well_formed(),
        ensures
            r == 1 - self.last_write_idx,
            r < 2,
            r != self.last_write_idx,
    {
        1 - self.last_write_idx
    }

    /// Notes that the set to write was written.
    pub fn note_written(&mut self)
        requires
            old(self).well_formed(),
        ensures
            final(self).well_formed(),
            *final(self) == written(*old(self)),
    {
        self.last_write_idx = 1 - self.last_write_idx;
    }
}

/// A converter at one size.
#[derive(Debug, Clone, Copy, PartialEq, Eq, Structural)]
pub struct D3d11RgbaToI420 {
    pub staging: StagingPair,
    pub width: u32,
    pub height: u32,
}

/// A converter that scales.
#[derive(Debug, Clone, Copy, PartialEq, Eq, Structural)]
pub struct D3d11RgbaToI420Scaled {
    pub staging: StagingPair,
    pub src_width: u32,
    pub src_height: u32,
    pub dst_width: u32,
    pub dst_height: u32,
}

/// The groups along a row whose threads take four pixels each.
pub open spec fn row_groups(n: int) -> int {
    d3d11::groups_over(n / 4, 16)
}

/// The threads of a row, of four pixels each, reach every pixel of it where its
/// length is a multiple of four.
pub proof fn row_groups_cover(n: int)
    requires
        n >= 0,
        n % 4 == 0,
    ensures
        row_groups(n) * 16 * 4 >= n,
{
    d3d11::groups_cover(n / 4, 16);
}

/// The two runs of the compute shader: for the luma plane, and for the chroma
/// planes.
#[derive(Debug, Clone, PartialEq, Eq)]
pub struct I420Runs {
    pub luma: ShaderRun,
    pub chroma: ShaderRun,
}

impl D3d11RgbaToI420 {
    /// A converter for frames of a size.
    pub fn new(width: u32, height: u32) -> (r: D3d11RgbaToI420)
        ensures
            r.width == width,
            r.height == height,
            r.staging.well_formed(),
            r.staging.last_write_idx == 1,
    {
        D3d11RgbaToI420 { staging: StagingPair::new(), width, height }
    }

    /// The runs that convert a frame.
    pub fn convert(&self) -> (r: I420Runs)
        requires
            self.height + 15 <= u32::MAX,
        ensures
            r.luma.params@ == seq![self.width, self.height, 0u32, 0u32],
            r.chroma.params@ == seq![self.width, self.height, 1u32, 0u32],
            r.luma.groups_x == row_groups(self.width as int),
            r.luma.groups_y == d3d11::groups_over(self.height as int, 16),
            r.chroma.groups_x == row_groups(self.width as int / 2),
            r.chroma.groups_y == d3d11::groups_over(self.height as int / 2, 16),
    {
        let r = I420Runs {
            luma: ShaderRun {
                params: vec![self.width, self.height, 0u32, 0u32],
                groups_x: d3d11::groups16(self.width / 4),
                groups_y: d3d11::groups16(self.height),
            },
            chroma: ShaderRun {
                params: vec![self.width, self.height, 1u32, 0u32],
                groups_x: d3d11::groups16(self.width / 2 / 4),
                groups_y: d3d11::groups16(self.height / 2),
            },
        };
        assert(r.luma.params@ =~= seq![self.width, self.height, 0u32, 0u32]);
        assert(r.chroma.params@ =~= seq![self.width, self.height, 1u32, 0u32]);
        r
    }

    /// The width of the frames.
    pub fn width(&self) -> (r: u32)
        ensures
            r == self.width,
    {
        self.width
    }

    /// The height of the frames.
    pub fn height(&self) -> (r: u32)
        ensures
            r == self.height,
    {
        self.height
    }
}

impl D3d11RgbaToI420Scaled {
    /// A converter from frames of one size to planes of another.
    pub fn new(src_width: u32, src_height: u32, dst_width: u32, dst_height: u32) -> (r:
        D3d11RgbaToI420Scaled)
        ensures
            r.src_width == src_width,
            r.src_height == src_height,
            r.dst_width == dst_width,
            r.dst_height == dst_height,
            r.staging.well_formed(),
            r.staging.last_write_idx == 1,
    {
        D3d11RgbaToI420Scaled {
            staging: StagingPair::new(),
            src_width,
            src_height,
            dst_width,
            dst_height,
        }
    }

    /// The parameters of a run.
    pub open spec fn run_params(self, phase: u32) -> Seq<u32> {
        seq![
            self.src_width,
            self.src_height,
            self.dst_width,
            self.dst_height,
            phase,
            0u32,
            0u32,
            0u32,
        ]
    }

    fn write_params(&self, phase: u32) -> (r: Vec<u32>)
        ensures
            r@ == self.run_params(phase),
    {
        let r: Vec<u32> = vec![
            self.src_width,
            self.src_height,
            self.dst_width,
            self.dst_height,
            phase,
            0u32,
            0u32,
            0u32,
        ];
        assert(r@ =~= self.run_params(phase));
        r
    }

    /// The runs that scale and convert a frame.
    pub fn convert(&self) -> (r: I420Runs)
        requires
            self.dst_height + 15 <= u32::MAX,
        ensures
            r.luma.params@ == self.run_params(0),
            r.chroma.params@ == self.run_params(1),
            r.luma.groups_x == row_groups(self.dst_width as int),
            r.luma.groups_y == d3d11::groups_over(self.dst_height as int, 16),
            r.chroma.groups_x == row_groups(self.dst_width as int / 2),
            r.chroma.groups_y == d3d11::groups_over(self.dst_height as int / 2, 16),
    {
        I420Runs {
            luma: ShaderRun {
                params: self.write_params(0),
                groups_x: d3d11::groups16(self.dst_width / 4),
                groups_y: d3d11::groups16(self.dst_height),
            },
            chroma: ShaderRun {
                params: self.write_params(1),
                groups_x: d3d11::groups16(self.dst_width / 2 / 4),
                groups_y: d3d11::groups16(self.dst_height / 2),
            },
        }
    }
}

/// Where the conversion of a frame stands.
#[derive(Debug, Clone, Copy, PartialEq, Eq, Structural)]
pub enum ReadbackStage {
    /// The shader is being run.
    Running,
    /// The planes of the frame before are awaited.
    Waiting,
    /// They are being read.
    Reading,
    /// This frame's planes are being copied for the next frame to read.
    Copying,
    /// The conversion is over.
    Over,
}

/// The conversion of a frame. Times are nanoseconds on a monotonic clock.
#[derive(Debug, Clone, Copy, PartialEq, Eq, Structural)]
pub struct ReadbackJob {
    pub stage: ReadbackStage,
    /// When the conversion began.
    pub start_ns: u64,
    /// When the stage began.
    pub mark_ns: u64,
    pub timing: GpuConvertTiming,
}

/// What came of the action that a step asked for.
#[derive(Debug, Clone, PartialEq, Eq)]
pub enum ReadbackEvent {
    /// It was carried out.
    Finished { now_ns: u64 },
    /// It was asked whether the planes are there.
    Asked { ready: bool, now_ns: u64 },
    /// A call failed.
    Failed(String),
}

/// Why the conversion of a frame failed.
#[derive(Debug, Clone, PartialEq, Eq)]
pub enum ReadbackFailure {
    /// The planes of the frame before did not come in time.
    TimedOut,
    /// A call failed.
    Call(String),
}

impl ReadbackFailure {
    /// The error that is reported.
    pub fn error(self) -> (r: D3d11I420Error)
        ensures
            match r {
                D3d11I420Error::MapFailed(s) => s@ == match self {
                    ReadbackFailure::TimedOut => "GetData timeout (>200ms)"@,
                    ReadbackFailure::Call(t) => t@,
                },
                _ => false,
            },
    {
        match self {
            ReadbackFailure::TimedOut => {
                D3d11I420Error::MapFailed("GetData timeout (>200ms)".to_owned())
            },
            ReadbackFailure::Call(s) => D3d11I420Error::MapFailed(s),
        }
    }
}

/// What to do next.
#[derive(Debug, Clone, PartialEq, Eq)]
pub enum ReadbackAction {
    /// Ask whether the planes in this set are there.
    Ask { set: usize },
    /// Read the planes in this set.
    Read { set: usize },
    /// Copy this frame's planes to this set.
    Copy { set: usize },
    /// The frame before was read, and this one was copied.
    Done(GpuConvertTiming),
    Fail(ReadbackFailure),
}

/// The time since `then`; zero where `then` lies ahead.
pub open spec fn span(now: u64, then: u64) -> u64 {
    if now >= then {
        (now - then) as u64
    } else {
        0
    }
}

/// Whether the event answers the action that led to the stage.
pub open spec fn readback_answers(stage: ReadbackStage, ev: ReadbackEvent) -> bool {
    match stage {
        ReadbackStage::Running | ReadbackStage::Reading => ev is Finished || ev is Failed,
        ReadbackStage::Waiting => ev is Asked,
        ReadbackStage::Copying => ev is Finished,
        ReadbackStage::Over => false,
    }
}

/// What the conversion of a frame does next. The set that is read is the one that
/// the frame before was copied to, and the sets change places only when this frame
/// was copied too.
pub open spec fn readback_next(pair: StagingPair, job: ReadbackJob, ev: ReadbackEvent) -> (
    StagingPair,
    ReadbackJob,
    ReadbackAction,
) {
    let over = ReadbackJob { stage: ReadbackStage::Over, ..job };
    match (job.stage, ev) {
        (_, ReadbackEvent::Failed(s)) => (
            pair,
            over,
            ReadbackAction::Fail(ReadbackFailure::Call(s)),
        ),
        (ReadbackStage::Running, ReadbackEvent::Finished { now_ns }) => (
            pair,
            ReadbackJob {
                stage: ReadbackStage::Waiting,
                mark_ns: now_ns,
                timing: GpuConvertTiming { dispatch_ns: span(now_ns, job.mark_ns), ..job.timing },
                ..job
            },
            ReadbackAction::Ask { set: pair.last_write_idx },
        ),
        (ReadbackStage::Waiting, ReadbackEvent::Asked { ready, now_ns }) => if ready {
            (
                pair,
                ReadbackJob {
                    stage: ReadbackStage::Reading,
                    mark_ns: now_ns,
                    timing: GpuConvertTiming { copy_ns: span(now_ns, job.mark_ns), ..job.timing },
                    ..job
                },
                ReadbackAction::Read { set: pair.last_write_idx },
            )
        } else if span(now_ns, job.mark_ns) > READBACK_TIMEOUT_NS {
            (pair, over, ReadbackAction::Fail(ReadbackFailure::TimedOut))
        } else {
            (pair, job, ReadbackAction::Ask { set: pair.last_write_idx })
        },
        (ReadbackStage::Reading, ReadbackEvent::Finished { now_ns }) => (
            pair,
            ReadbackJob {
                stage: ReadbackStage::Copying,
                mark_ns: now_ns,
                timing: GpuConvertTiming { map_ns: span(now_ns, job.mark_ns), ..job.timing },
                ..job
            },
            ReadbackAction::Copy { set: (1 - pair.last_write_idx) as usize },
        ),
        (ReadbackStage::Copying, ReadbackEvent::Finished { now_ns }) => {
            let timing = GpuConvertTiming { total_ns: span(now_ns, job.start_ns), ..job.timing };
            (
                written(pair),
                ReadbackJob { timing, ..over },
                ReadbackAction::Done(timing),
            )
        },
        _ => (pair, over, ReadbackAction::Fail(ReadbackFailure::TimedOut)),
    }
}

impl ReadbackJob {
    /// Begins the conversion of a frame; the shader is then to be run.
    pub fn begin(now_ns: u64) -> (r: ReadbackJob)
        ensures
            r == begun(now_ns),
    {
        ReadbackJob {
            stage: ReadbackStage::Running,
            start_ns: now_ns,
            mark_ns: now_ns,
            timing: GpuConvertTiming { dispatch_ns: 0, copy_ns: 0, map_ns: 0, total_ns: 0 },
        }
    }
}

impl StagingPair {
    /// Goes on with the conversion of a frame, given what came of the last action.
    pub fn convert_step(&mut self, job: &mut ReadbackJob, ev: ReadbackEvent) -> (r: ReadbackAction)
        requires
            old(self).well_formed(),
            readback_answers(old(job).stage, ev),
        ensures
            final(self).well_formed(),
            (*final(self), *final(job), r) == readback_next(*old(self), *old(job), ev),
    {
        match ev {
            ReadbackEvent::Failed(s) => {
                job.stage = ReadbackStage::Over;
                ReadbackAction::Fail(ReadbackFailure::Call(s))
            },
            ReadbackEvent::Asked { ready, now_ns } => {
                let waited: u64 = now_ns.saturating_sub(job.mark_ns);
                if ready {
                    job.stage = ReadbackStage::Reading;
                    job.mark_ns = now_ns;
                    job.timing.copy_ns = waited;
                    ReadbackAction::Read { set: self.map_idx() }
                } else if waited > READBACK_TIMEOUT_NS {
                    job.stage = ReadbackStage::Over;
                    ReadbackAction::Fail(ReadbackFailure::TimedOut)
                } else {
                    ReadbackAction::Ask { set: self.map_idx() }
                }
            },
            ReadbackEvent::Finished { now_ns } => {
                let took: u64 = now_ns.saturating_sub(job.mark_ns);
                if job.stage == ReadbackStage::Running {
                    job.stage = ReadbackStage::Waiting;
                    job.mark_ns = now_ns;
                    job.timing.dispatch_ns = took;
                    ReadbackAction::Ask { set: self.map_idx() }
                } else if job.stage == ReadbackStage::Reading {
                    job.stage = ReadbackStage::Copying;
                    job.mark_ns = now_ns;
                    job.timing.map_ns = took;
                    ReadbackAction::Copy { set: self.write_idx() }
                } else {
                    job.stage = ReadbackStage::Over;
                    job.timing.total_ns = now_ns.saturating_sub(job.start_ns);
                    self.note_written();
                    ReadbackAction::Done(job.timing)
                }
            },
        }
    }
}

/// A conversion reads the set that the frame before was copied to, copies its own
/// frame to the other one, and leaves that one for the next frame to read; one
/// that fails leaves the sets as they were.
pub proof fn frames_read_what_was_copied_before(
    pair: StagingPair,
    job: ReadbackJob,
    ev: ReadbackEvent,
)
    requires
        pair.well_formed(),
        readback_answers(job.stage, ev),
    ensures
        ({
            let (after, j, action) = readback_next(pair, job, ev);
            &&& after.well_formed()
            &&& match action {
                ReadbackAction::Ask { set } => set == pair.last_write_idx && after == pair,
                ReadbackAction::Read { set } => set == pair.last_write_idx && after == pair,
                ReadbackAction::Copy { set } => set == written(pair).last_write_idx && after
                    == pair,
                ReadbackAction::Done(_) => after == written(pair) && j.stage is Over,
                ReadbackAction::Fail(_) => after == pair && j.stage is Over,
            }
        }),
{
}

/// The format of the view through which a texture is read: BGRA for BGRA, also
/// where the texture is sRGB, and RGBA for all else.
pub fn view_format(texture_format: u32) -> (r: u32)
    ensures
        r == if texture_format == FORMAT_B8G8R8A8_UNORM || texture_format
            == FORMAT_B8G8R8A8_UNORM_SRGB {
            FORMAT_B8G8R8A8_UNORM
        } else {
            FORMAT_R8G8B8A8_UNORM
        },
{
    if texture_format == FORMAT_B8G8R8A8_UNORM || texture_format == FORMAT_B8G8R8A8_UNORM_SRGB {
        FORMAT_B8G8R8A8_UNORM
    } else {
        FORMAT_R8G8B8A8_UNORM
    }
}

/// The buffers of one plane.
#[derive(Debug, Clone, Copy, PartialEq, Eq, Structural)]
pub struct PlaneBuffers {
    pub gpu: BufferDesc,
    pub staging: BufferDesc,
    /// The view through which the shader writes: its format, and how many words
    /// it covers.
    pub view_format: u32,
    pub view_words: u32,
}

/// The buffers of a converter.
#[derive(Debug, Clone, Copy, PartialEq, Eq, Structural)]
pub struct I420Buffers {
    pub params: BufferDesc,
    pub y: PlaneBuffers,
    pub uv: PlaneBuffers,
}

/// The least multiple of `unit` that is no less than `n`.
pub open spec fn aligned(n: int, unit: int) -> int {
    ((n + unit - 1) / unit) * unit
}

/// The buffers of a plane of `n` bytes: whole blocks of sixteen bytes, on the GPU as
/// for the CPU to read. The shader writes the words that hold the plane.
pub open spec fn plane_buffers(n: int) -> PlaneBuffers {
    PlaneBuffers {
        gpu: BufferDesc {
            byte_width: aligned(n, 16) as u32,
            usage: USAGE_DEFAULT,
            bind_flags: BIND_UNORDERED_ACCESS,
            cpu_access: 0,
            misc_flags: MISC_BUFFER_ALLOW_RAW_VIEWS,
        },
        staging: BufferDesc {
            byte_width: aligned(n, 16) as u32,
            usage: USAGE_STAGING,
            bind_flags: 0,
            cpu_access: CPU_ACCESS_READ,
            misc_flags: 0,
        },
        view_format: FORMAT_R32_TYPELESS,
        view_words: ((n + 3) / 4) as u32,
    }
}

fn buffers_of_plane(n: u32) -> (r: PlaneBuffers)
    requires
        n + 15 <= u32::MAX,
    ensures
        r == plane_buffers(n as int),
{
    let blocks: u32 = (n + 15) & 0xffff_fff0u32;
    let m15: u32 = (n + 15) as u32;
    assert(m15 & 0xffff_fff0u32 == (m15 / 16) * 16) by (bit_vector);
    PlaneBuffers {
        gpu: BufferDesc {
            byte_width: blocks,
            usage: USAGE_DEFAULT,
            bind_flags: BIND_UNORDERED_ACCESS,
            cpu_access: 0,
            misc_flags: MISC_BUFFER_ALLOW_RAW_VIEWS,
        },
        staging: BufferDesc {
            byte_width: blocks,
            usage: USAGE_STAGING,
            bind_flags: 0,
            cpu_access: CPU_ACCESS_READ,
            misc_flags: 0,
        },
        view_format: FORMAT_R32_TYPELESS,
        view_words: (n + 3) / 4,
    }
}

/// The buffers of a converter whose planes have a size.
pub fn create_buffers_and_uavs(width: u32, height: u32) -> (r: I420Buffers)
    requires
        luma_len(width, height) + 15 <= u32::MAX,
    ensures
        r.params.byte_width == 32,
        r.params.usage == d3d11::USAGE_DYNAMIC,
        r.params.bind_flags == d3d11::BIND_CONSTANT_BUFFER,
        r.params.cpu_access == d3d11::CPU_ACCESS_WRITE,
        r.params.misc_flags == 0,
        r.y == plane_buffers(luma_len(width, height)),
        r.uv == plane_buffers(chroma_len(width, height)),
{
    proof {
        chroma_is_smaller(width, height);
    }
    let y_count: u32 = width * height;
    let uv_count: u32 = (width / 2) * (height / 2);
    I420Buffers {
        params: d3d11::create_cb_params(),
        y: buffers_of_plane(y_count),
        uv: buffers_of_plane(uv_count),
    }
}

/// The pair after a frame was written.
pub open spec fn written(p: StagingPair) -> StagingPair {
    StagingPair { last_write_idx: (1 - p.last_write_idx) as usize }
}

/// The set that is read is never the one that is written, what a frame reads is
/// what the frame before wrote, and after two frames the sets are used as before.
pub proof fn staging_sets_alternate(p: StagingPair)
    requires
        p.well_formed(),
    ensures
        written(p).well_formed(),
        written(p).last_write_idx != p.last_write_idx,
        written(written(p)) == p,
{
}

/// The bytes of the three planes in a set of buffers.
pub ghost struct PlaneBytes {
    pub y: Seq<u8>,
    pub u: Seq<u8>,
    pub v: Seq<u8>,
}

/// The bytes are those of the GPU's buffers for frames of a size.
pub open spec fn fills_gpu_buffers(p: PlaneBytes, w: u32, h: u32) -> bool {
    &&& p.y.len() == plane_buffers(luma_len(w, h)).gpu.byte_width
    &&& p.u.len() == plane_buffers(chroma_len(w, h)).gpu.byte_width
    &&& p.v.len() == plane_buffers(chroma_len(w, h)).gpu.byte_width
}

/// The bytes are those of the staging buffers for frames of a size.
pub open spec fn fills_staging_buffers(p: PlaneBytes, w: u32, h: u32) -> bool {
    &&& p.y.len() == plane_buffers(luma_len(w, h)).staging.byte_width
    &&& p.u.len() == plane_buffers(chroma_len(w, h)).staging.byte_width
    &&& p.v.len() == plane_buffers(chroma_len(w, h)).staging.byte_width
}

/// What a set of buffers holds after another was copied to it as a whole, which is
/// done only where their sizes are the same.
pub open spec fn copied_to(target: PlaneBytes, source: PlaneBytes) -> PlaneBytes {
    if target.y.len() == source.y.len() && target.u.len() == source.u.len() && target.v.len()
        == source.v.len() {
        source
    } else {
        target
    }
}

/// The planes that are read back from a set of buffers.
pub open spec fn planes_in(p: PlaneBytes, w: u32, h: u32) -> PlaneBytes {
    PlaneBytes {
        y: p.y.take(luma_len(w, h)),
        u: p.u.take(chroma_len(w, h)),
        v: p.v.take(chroma_len(w, h)),
    }
}

/// The two sets of staging buffers with what they hold, and the planes of the frames
/// that were converted and those that were read back, each in order.
pub ghost struct Conversions {
    pub pair: StagingPair,
    pub sets: Seq<PlaneBytes>,
    pub converted: Seq<PlaneBytes>,
    pub read: Seq<PlaneBytes>,
}

/// The conversion of a frame to `made`, given what came of its actions from `action`
/// on, where `seen` was read back so far.
pub open spec fn conversion(
    c: Conversions,
    w: u32,
    h: u32,
    made: PlaneBytes,
    job: ReadbackJob,
    action: Option<ReadbackAction>,
    seen: Option<PlaneBytes>,
    events: Seq<ReadbackEvent>,
) -> Conversions
    decreases events.len(),
{
    if events.len() == 0 {
        c
    } else {
        let ev = events[0];
        let seen = match action {
            Some(ReadbackAction::Read { set }) if ev is Finished => Some(
                planes_in(c.sets[set as int], w, h),
            ),
            _ => seen,
        };
        let sets = match action {
            Some(ReadbackAction::Copy { set }) if ev is Finished => c.sets.update(
                set as int,
                copied_to(c.sets[set as int], made),
            ),
            _ => c.sets,
        };
        let (pair, j, next) = readback_next(c.pair, job, ev);
        match next {
            ReadbackAction::Done(_) => Conversions {
                pair,
                sets,
                converted: c.converted.push(made),
                read: c.read.push(seen->0),
            },
            ReadbackAction::Fail(_) => Conversions { pair, sets, ..c },
            _ => conversion(
                Conversions { pair, sets, ..c },
                w,
                h,
                made,
                j,
                Some(next),
                seen,
                events.drop_first(),
            ),
        }
    }
}

/// The events answer the actions of a conversion.
pub open spec fn conversion_possible(
    pair: StagingPair,
    job: ReadbackJob,
    events: Seq<ReadbackEvent>,
) -> bool
    decreases events.len(),
{
    events.len() > 0 ==> {
        let (after, j, next) = readback_next(pair, job, events[0]);
        &&& readback_answers(job.stage, events[0])
        &&& next is Done || next is Fail || conversion_possible(after, j, events.drop_first())
    }
}

/// The conversion of a frame that begins at a time.
pub ghost struct FrameCall {
    pub made: PlaneBytes,
    pub now_ns: u64,
    pub events: Seq<ReadbackEvent>,
}

/// The conversion as it begins.
pub open spec fn begun(now_ns: u64) -> ReadbackJob {
    ReadbackJob {
        stage: ReadbackStage::Running,
        start_ns: now_ns,
        mark_ns: now_ns,
        timing: GpuConvertTiming { dispatch_ns: 0, copy_ns: 0, map_ns: 0, total_ns: 0 },
    }
}

/// One frame after the other is converted.
pub open spec fn conversions(c: Conversions, w: u32, h: u32, calls: Seq<FrameCall>) -> Conversions
    decreases calls.len(),
{
    if calls.len() == 0 {
        c
    } else {
        let f = calls[0];
        conversions(
            conversion(c, w, h, f.made, begun(f.now_ns), None, None, f.events),
            w,
            h,
            calls.drop_first(),
        )
    }
}

pub open spec fn conversions_possible(
    c: Conversions,
    w: u32,
    h: u32,
    calls: Seq<FrameCall>,
) -> bool
    decreases calls.len(),
{
    calls.len() > 0 ==> {
        let f = calls[0];
        &&& fills_gpu_buffers(f.made, w, h)
        &&& conversion_possible(c.pair, begun(f.now_ns), f.events)
        &&& conversions_possible(
            conversion(c, w, h, f.made, begun(f.now_ns), None, None, f.events),
            w,
            h,
            calls.drop_first(),
        )
    }
}

/// The set that was written last holds the frame converted last, and every frame
/// converted after the first gave back the one before it.
pub open spec fn one_behind(c: Conversions, w: u32, h: u32) -> bool {
    &&& c.pair.well_formed()
    &&& c.sets.len() == 2
    &&& c.read.len() == c.converted.len()
    &&& c.converted.len() > 0 ==> c.sets[c.pair.last_write_idx as int] == c.converted.last()
    &&& forall|i: int| 0 <= i < 2 ==> fills_staging_buffers(#[trigger] c.sets[i], w, h)
    &&& forall|n: int|
        0 <= n < c.converted.len() ==> fills_gpu_buffers(#[trigger] c.converted[n], w, h)
    &&& forall|n: int|
        1 <= n < c.read.len() ==> #[trigger] c.read[n] == planes_in(c.converted[n - 1], w, h)
}

proof fn conversion_is_one_behind(
    c: Conversions,
    w: u32,
    h: u32,
    made: PlaneBytes,
    job: ReadbackJob,
    action: Option<ReadbackAction>,
    seen: Option<PlaneBytes>,
    events: Seq<ReadbackEvent>,
)
    requires
        one_behind(c, w, h),
        fills_gpu_buffers(made, w, h),
        luma_len(w, h) + 15 <= u32::MAX,
        conversion_possible(c.pair, job, events),
        job.stage is Reading <==> action is Some && action->0 is Read,
        job.stage is Copying <==> action is Some && action->0 is Copy,
        job.stage is Reading ==> action->0 == (ReadbackAction::Read {
            set: c.pair.last_write_idx,
        }),
        job.stage is Copying ==> action->0 == (ReadbackAction::Copy {
            set: written(c.pair).last_write_idx,
        }) && seen == Some(planes_in(c.sets[c.pair.last_write_idx as int], w, h)),
    ensures
        ({
            let n = conversion(c, w, h, made, job, action, seen, events);
            &&& one_behind(n, w, h)
            &&& n.converted == c.converted && n.read == c.read && n.sets == c.sets && n.pair
                == c.pair || n.converted == c.converted.push(made)
        }),
    decreases events.len(),
{
    if events.len() > 0 {
        let ev = events[0];
        let (pair, j, next) = readback_next(c.pair, job, ev);
        let now_seen = match action {
            Some(ReadbackAction::Read { set }) if ev is Finished => Some(
                planes_in(c.sets[set as int], w, h),
            ),
            _ => seen,
        };
        match next {
            ReadbackAction::Done(_) => {
                let n = conversion(c, w, h, made, job, action, seen, events);
                chroma_is_smaller(w, h);
                buffers_have_one_size(luma_len(w, h));
                buffers_have_one_size(chroma_len(w, h));
                assert(fills_staging_buffers(
                    c.sets[written(c.pair).last_write_idx as int],
                    w,
                    h,
                ));
                assert(n.sets == c.sets.update(written(c.pair).last_write_idx as int, made));
                assert forall|k: int| 1 <= k < n.read.len() implies #[trigger] n.read[k]
                    == planes_in(n.converted[k - 1], w, h) by {
                    if k < c.read.len() {
                        assert(n.read[k] == c.read[k]);
                    }
                }
            },
            ReadbackAction::Fail(_) => {},
            _ => {
                conversion_is_one_behind(
                    c,
                    w,
                    h,
                    made,
                    j,
                    Some(next),
                    now_seen,
                    events.drop_first(),
                );
            },
        }
    }
}

proof fn conversions_are_one_behind(c: Conversions, w: u32, h: u32, calls: Seq<FrameCall>)
    requires
        luma_len(w, h) + 15 <= u32::MAX,
        one_behind(c, w, h),
        conversions_possible(c, w, h, calls),
    ensures
        one_behind(conversions(c, w, h, calls), w, h),
    decreases calls.len(),
{
    if calls.len() > 0 {
        let f = calls[0];
        conversion_is_one_behind(c, w, h, f.made, begun(f.now_ns), None, None, f.events);
        conversions_are_one_behind(
            conversion(c, w, h, f.made, begun(f.now_ns), None, None, f.events),
            w,
            h,
            calls.drop_first(),
        );
    }
}

proof fn every_call_converts(c: Conversions, w: u32, h: u32, calls: Seq<FrameCall>)
    requires
        luma_len(w, h) + 15 <= u32::MAX,
        one_behind(c, w, h),
        conversions_possible(c, w, h, calls),
        conversions(c, w, h, calls).converted.len() == c.converted.len() + calls.len(),
    ensures
        conversions(c, w, h, calls).converted == c.converted + calls.map_values(
            |f: FrameCall| f.made,
        ),
    decreases calls.len(),
{
    let all = calls.map_values(|f: FrameCall| f.made);
    if calls.len() == 0 {
        assert(c.converted + all =~= c.converted);
    } else {
        let f = calls[0];
        let n = conversion(c, w, h, f.made, begun(f.now_ns), None, None, f.events);
        conversion_is_one_behind(c, w, h, f.made, begun(f.now_ns), None, None, f.events);
        no_more_than_calls(n, w, h, calls.drop_first());
        assert(n.converted == c.converted.push(f.made));
        every_call_converts(n, w, h, calls.drop_first());
        assert(c.converted.push(f.made) + calls.drop_first().map_values(|f: FrameCall| f.made)
            =~= c.converted + all);
    }
}

proof fn no_more_than_calls(c: Conversions, w: u32, h: u32, calls: Seq<FrameCall>)
    requires
        luma_len(w, h) + 15 <= u32::MAX,
        one_behind(c, w, h),
        conversions_possible(c, w, h, calls),
    ensures
        conversions(c, w, h, calls).converted.len() <= c.converted.len() + calls.len(),
    decreases calls.len(),
{
    if calls.len() > 0 {
        let f = calls[0];
        conversion_is_one_behind(c, w, h, f.made, begun(f.now_ns), None, None, f.events);
        no_more_than_calls(
            conversion(c, w, h, f.made, begun(f.now_ns), None, None, f.events),
            w,
            h,
            calls.drop_first(),
        );
    }
}

/// Conversions give back their frames one frame late: on a new converter, whatever its
/// staging buffers hold at first, each conversion after the first hands out the planes
/// of the frame that was converted before it, with the lengths that go with the size.
/// A conversion that failed does not count. Where none failed, the n-th call hands out
/// the frame of the call before it.
pub proof fn planes_come_one_frame_late(
    pair: StagingPair,
    sets: Seq<PlaneBytes>,
    w: u32,
    h: u32,
    calls: Seq<FrameCall>,
)
    requires
        pair.well_formed(),
        sets.len() == 2,
        fills_staging_buffers(sets[0], w, h),
        fills_staging_buffers(sets[1], w, h),
        luma_len(w, h) + 15 <= u32::MAX,
        conversions_possible(
            (Conversions { pair, sets, converted: Seq::empty(), read: Seq::empty() }),
            w,
            h,
            calls,
        ),
    ensures
        ({
            let c = conversions(
                Conversions { pair, sets, converted: Seq::empty(), read: Seq::empty() },
                w,
                h,
                calls,
            );
            &&& c.read.len() == c.converted.len()
            &&& forall|n: int|
                1 <= n < c.read.len() ==> {
                    &&& #[trigger] c.read[n] == planes_in(c.converted[n - 1], w, h)
                    &&& c.read[n].y.len() == luma_len(w, h)
                    &&& c.read[n].u.len() == chroma_len(w, h)
                    &&& c.read[n].v.len() == chroma_len(w, h)
                }
            &&& c.converted.len() == calls.len() ==> forall|n: int|
                1 <= n < calls.len() ==> #[trigger] c.read[n] == planes_in(
                    calls[n - 1].made,
                    w,
                    h,
                )
        }),
{
    let start = Conversions { pair, sets, converted: Seq::empty(), read: Seq::empty() };
    conversions_are_one_behind(start, w, h, calls);
    let c = conversions(start, w, h, calls);
    assert forall|n: int| 1 <= n < c.read.len() implies {
        &&& #[trigger] c.read[n] == planes_in(c.converted[n - 1], w, h)
        &&& c.read[n].y.len() == luma_len(w, h)
        &&& c.read[n].u.len() == chroma_len(w, h)
        &&& c.read[n].v.len() == chroma_len(w, h)
    } by {
        assert(fills_gpu_buffers(c.converted[n - 1], w, h));
        chroma_is_smaller(w, h);
        buffers_hold_the_plane(luma_len(w, h));
        buffers_hold_the_plane(chroma_len(w, h));
    }
    if c.converted.len() == calls.len() {
        every_call_converts(start, w, h, calls);
        let all = calls.map_values(|f: FrameCall| f.made);
        assert(c.converted =~= all);
        assert forall|n: int| 1 <= n < calls.len() implies #[trigger] c.read[n] == planes_in(
            calls[n - 1].made,
            w,
            h,
        ) by {
            assert(all[n - 1] == calls[n - 1].made);
        }
    }
}

/// Every plane fits its buffers, with less than a block to spare, and the shader
/// reaches all of it.
pub proof fn buffers_hold_the_plane(n: int)
    requires
        0 <= n,
        n + 15 <= u32::MAX,
    ensures
        n <= plane_buffers(n).gpu.byte_width < n + 16,
        n <= plane_buffers(n).view_words * 4 <= plane_buffers(n).gpu.byte_width,
{
}

/// A plane's buffers on the GPU and for the CPU have one size, so that the one can be
/// copied to the other as a whole; it is one of whole words.
pub proof fn buffers_have_one_size(n: int)
    requires
        0 <= n,
        n + 15 <= u32::MAX,
    ensures
        plane_buffers(n).gpu.byte_width == plane_buffers(n).staging.byte_width,
        plane_buffers(n).gpu.byte_width % 4 == 0,
        plane_buffers(n).gpu.byte_width % 16 == 0,
{
}

} // verus!
