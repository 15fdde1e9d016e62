//! From BGRA to NV12, and from BGRA to smaller BGRA, on the GPU: how large the
//! rings are, which path a frame takes, what is created when, and how planes are
//! put together. The Direct3D calls are the caller's.
use vstd::prelude::*;

use crate::d3d11::{
    self, OutputRing, Rect, TextureDesc, ViewCache, BIND_RENDER_TARGET, BIND_SHADER_RESOURCE,
    BIND_UNORDERED_ACCESS, CPU_ACCESS_READ, CPU_ACCESS_WRITE, E_INVALIDARG,
    FORMAT_B8G8R8A8_UNORM, FORMAT_B8G8R8A8_UNORM_SRGB, FORMAT_NV12, FORMAT_R8G8B8A8_UNORM,
    FORMAT_R8G8_UNORM, FORMAT_R8_UNORM,
};
use crate::mft_setup::{is_switched_off, opt_view, switched_off};
use crate::text;

verus! {

/// How long the steps of a conversion took, in microseconds.
#[derive(Debug, Clone, Copy, PartialEq, Eq, Structural)]
pub struct D3d11ConvertTextureTiming {
    pub ctx_wait_us: u64,
    pub submit_us: u64,
    pub copy_us: u64,
    pub srv_us: u64,
    pub cb_us: u64,
    pub bind_us: u64,
    pub bind_state_us: u64,
    pub bind_shader_us: u64,
    pub bind_cb_us: u64,
    pub bind_sampler_us: u64,
    pub bind_srv_us: u64,
    pub bind_uav_us: u64,
    pub dispatch_us: u64,
    pub unbind_us: u64,
    pub query_us: u64,
    pub blt_us: u64,
}

/// How a flush went.
#[derive(Debug, Clone, Copy, PartialEq, Eq, Structural)]
pub struct D3d11FlushTiming {
    pub skipped: bool,
    pub ctx_wait_us: u64,
    pub call_us: u64,
}

/// Why a conversion failed.
#[derive(Debug, Clone, PartialEq, Eq)]
pub enum D3d11Nv12Error {
    ComputeShaderFallback(String),
    NoVideoDevice,
    NoVideoContext,
    /// A call failed with this code, of which the text says more.
    Windows(u32, String),
    Nv12OutputNotSupported,
    BgraInputNotSupported,
    NoRateConversionCaps,
    OutputReadyTimeout(u32),
}

/// The text of an error.
pub open spec fn nv12_error_text(e: D3d11Nv12Error) -> Seq<char> {
    match e {
        D3d11Nv12Error::ComputeShaderFallback(s) => "Compute shader fallback failed: "@ + s@,
        D3d11Nv12Error::NoVideoDevice =>
        "ID3D11VideoDevice not available (device created without D3D11_CREATE_DEVICE_VIDEO_SUPPORT)"@,
        D3d11Nv12Error::NoVideoContext => "ID3D11VideoContext not available"@,
        D3d11Nv12Error::Windows(_, s) => "Windows API error: "@ + s@,
        D3d11Nv12Error::Nv12OutputNotSupported =>
        "NV12 output format not supported by video processor"@,
        D3d11Nv12Error::BgraInputNotSupported =>
        "BGRA input format not supported by video processor"@,
        D3d11Nv12Error::NoRateConversionCaps =>
        "Video processor has no rate conversion caps (RateConversionCapsCount == 0); CreateVideoProcessor index 0 would be invalid"@,
        D3d11Nv12Error::OutputReadyTimeout(ms) => "Timed out waiting for NV12 output readiness after "@
            + text::decimal(ms as nat) + " ms"@,
    }
}

impl D3d11Nv12Error {
    /// The text of the error.
    pub fn message(&self) -> (r: String)
        ensures
            r@ == nv12_error_text(*self),
    {
        let mut r = String::new();
        match self {
            D3d11Nv12Error::ComputeShaderFallback(s) => {
                r.push_str("Compute shader fallback failed: ");
                r.push_str(s.as_str());
            },
            D3d11Nv12Error::NoVideoDevice => {
                r.push_str(
                    "ID3D11VideoDevice not available (device created without D3D11_CREATE_DEVICE_VIDEO_SUPPORT)",
                );
            },
            D3d11Nv12Error::NoVideoContext => {
                r.push_str("ID3D11VideoContext not available");
            },
            D3d11Nv12Error::Windows(_, s) => {
                r.push_str("Windows API error: ");
                r.push_str(s.as_str());
            },
            D3d11Nv12Error::Nv12OutputNotSupported => {
                r.push_str("NV12 output format not supported by video processor");
            },
            D3d11Nv12Error::BgraInputNotSupported => {
                r.push_str("BGRA input format not supported by video processor");
            },
            D3d11Nv12Error::NoRateConversionCaps => {
                r.push_str(
                    "Video processor has no rate conversion caps (RateConversionCapsCount == 0); CreateVideoProcessor index 0 would be invalid",
                );
            },
            D3d11Nv12Error::OutputReadyTimeout(ms) => {
                r.push_str("Timed out waiting for NV12 output readiness after ");
                text::push_decimal(&mut r, *ms as u64);
                r.push_str(" ms");
            },
        }
        assert(r@ =~= nv12_error_text(*self));
        r
    }
}

/// Whether an error is a call's complaint about an invalid argument.
pub open spec fn invalid_argument(e: D3d11Nv12Error) -> bool {
    match e {
        D3d11Nv12Error::Windows(hr, _) => hr == E_INVALIDARG,
        _ => false,
    }
}

/// The number that a text asks for, or `default` where it is absent or no
/// 32-bit number.
pub open spec fn asked_or(asked: Option<Seq<char>>, default: int) -> int {
    match asked {
        Some(s) => match text::parsed_unsigned(s, u32::MAX as nat) {
            Some(n) => n as int,
            None => default,
        },
        None => default,
    }
}

/// The number that a text asks for, or `default`.
pub fn number_or(asked: Option<&str>, default: u32) -> (r: u32)
    ensures
        r == asked_or(opt_view(asked), default as int),
{
    match asked {
        Some(s) => match text::parse_unsigned(s, u32::MAX as u64) {
            Some(n) => n as u32,
            None => default,
        },
        None => default,
    }
}

/// How many frames at the start are flushed: three unless asked otherwise.
pub fn startup_flush_frames(asked: Option<&str>) -> (r: u32)
    ensures
        r == asked_or(opt_view(asked), 3),
{
    number_or(asked, 3)
}

/// How many surfaces the ring has: as asked, else sixteen from 90 frames a
/// second and four below; always between one and sixteen.
pub open spec fn ring_size(asked: Option<Seq<char>>, fps: u32) -> int {
    let n = asked_or(
        asked,
        if fps >= 90 {
            16
        } else {
            4
        },
    );
    if n < 1 {
        1
    } else if n > 16 {
        16
    } else {
        n
    }
}

/// How many surfaces the ring has.
pub fn output_ring_size(asked: Option<&str>, fps: u32) -> (r: u32)
    ensures
        r == ring_size(opt_view(asked), fps),
        1 <= r <= 16,
{
    let n: u32 = number_or(
        asked,
        if fps >= 90 {
            16
        } else {
            4
        },
    );
    if n < 1 {
        1
    } else if n > 16 {
        16
    } else {
        n
    }
}

/// How the video processor is used.
#[derive(Debug, Clone, PartialEq, Eq)]
pub struct VideoUsage {
    pub prefer_speed: bool,
    pub label: String,
    /// What was asked for, as it is reported.
    pub asked: String,
}

/// How the video processor is used: for speed from 90 frames a second unless the
/// text asks otherwise.
pub fn video_usage_for_fps(asked: Option<&str>, fps: u32) -> (r: VideoUsage)
    ensures
        r.prefer_speed == match asked {
            Some(_) => !switched_off(opt_view(asked)),
            None => fps >= 90,
        },
        r.label@ == if r.prefer_speed {
            "optimal-speed"@
        } else {
            "optimal-quality"@
        },
        r.asked@ == match asked {
            Some(s) => s@,
            None => if fps >= 90 {
                "<default:on>"@
            } else {
                "<default:off>"@
            },
        },
{
    let prefer_speed = match asked {
        Some(_) => !is_switched_off(asked),
        None => fps >= 90,
    };
    let label = if prefer_speed {
        "optimal-speed".to_owned()
    } else {
        "optimal-quality".to_owned()
    };
    let asked = match asked {
        Some(s) => s.to_owned(),
        None => if fps >= 90 {
            "<default:on>".to_owned()
        } else {
            "<default:off>".to_owned()
        },
    };
    VideoUsage { prefer_speed, label, asked }
}

/// Whether the scaler prefers its compute shader: unless the text switches that
/// off.
pub fn prefers_compute_scale(asked: Option<&str>) -> (r: bool)
    ensures
        r == !switched_off(opt_view(asked)),
{
    !is_switched_off(asked)
}

/// What a video processor has to be able to do. `nv12_flags` is `None` where no
/// NV12 is written, and `bgra_flags` where BGRA was checked before.
pub fn check_capabilities(
    bgra_flags: Option<u32>,
    nv12_flags: Option<u32>,
    rate_conversion_caps: u32,
) -> (r: Result<(), D3d11Nv12Error>)
    ensures
        r == if bgra_flags == Some(0u32) {
            Err::<(), D3d11Nv12Error>(D3d11Nv12Error::BgraInputNotSupported)
        } else if nv12_flags == Some(0u32) {
            Err(D3d11Nv12Error::Nv12OutputNotSupported)
        } else if rate_conversion_caps == 0 {
            Err(D3d11Nv12Error::NoRateConversionCaps)
        } else {
            Ok(())
        },
{
    if bgra_flags == Some(0u32) {
        return Err(D3d11Nv12Error::BgraInputNotSupported);
    }
    if nv12_flags == Some(0u32) {
        return Err(D3d11Nv12Error::Nv12OutputNotSupported);
    }
    if rate_conversion_caps == 0 {
        return Err(D3d11Nv12Error::NoRateConversionCaps);
    }
    Ok(())
}

/// What is known of an input texture.
#[derive(Debug, Clone, Copy, PartialEq, Eq, Structural)]
pub struct InputTexture {
    pub width: u32,
    pub height: u32,
    pub format: u32,
    pub bind_flags: u32,
}

/// The size and format of the copy through which unsuitable inputs go.
#[derive(Debug, Clone, Copy, PartialEq, Eq, Structural)]
pub struct Intermediate {
    pub width: u32,
    pub height: u32,
    pub format: u32,
}

/// Which conversion is done.
#[derive(Debug, Clone, Copy, PartialEq, Eq, Structural)]
pub enum Target {
    /// To NV12.
    Nv12,
    /// To BGRA of another size.
    Bgra,
}

/// What the video processor works on.
#[derive(Debug, Clone, Copy, PartialEq, Eq, Structural)]
pub enum VpInput {
    /// The input itself.
    Direct,
    /// A copy of it; where one is given, that texture is created first.
    Copy(Option<TextureDesc>),
}

/// What to do for one frame on the video processor.
#[derive(Debug, Clone, Copy, PartialEq, Eq, Structural)]
pub struct VpPlan {
    pub output_index: usize,
    pub input: VpInput,
    pub source: Rect,
    pub dest: Rect,
    /// The bits of the colour space that is set with the rectangles.
    pub color_space: u32,
    pub first_frame: bool,
}

/// Which way a frame takes.
#[derive(Debug, Clone, Copy, PartialEq, Eq, Structural)]
pub enum ConvertPath {
    VideoProcessor,
    ComputeShader,
}

/// A converter's state beside its Direct3D objects.
#[derive(Debug)]
pub struct Converter {
    pub target: Target,
    pub input_width: u32,
    pub input_height: u32,
    pub output_width: u32,
    pub output_height: u32,
    /// Frames go through the compute shader.
    pub use_cs: bool,
    pub intermediate: Option<Intermediate>,
    pub input_views: ViewCache,
    pub vp_logged_once: bool,
    pub vp_state_initialized: bool,
    pub ring: OutputRing,
    pub flush_frames_remaining: u32,
}

/// The converter from BGRA to NV12.
pub type D3d11BgraToNv12 = Converter;

/// The scaler from BGRA to BGRA.
pub type D3d11BgraScale = Converter;

/// The bits of a colour space: BT.601 with the limited range of video for NV12,
/// full-range RGB otherwise.
pub open spec fn color_space_of(target: Target) -> u32 {
    match target {
        Target::Nv12 => 0b0001_0100,
        Target::Bgra => 0,
    }
}

/// Whether an input has to be copied: the video processor wants a render target
/// in a format that it takes.
pub open spec fn needs_intermediate(target: Target, input: InputTexture) -> bool {
    ||| input.bind_flags & BIND_RENDER_TARGET == 0
    ||| match target {
        Target::Nv12 => input.format != FORMAT_B8G8R8A8_UNORM,
        Target::Bgra => input.format != FORMAT_B8G8R8A8_UNORM && input.format
            != FORMAT_R8G8B8A8_UNORM,
    }
}

/// The copy that an input needs.
pub open spec fn intermediate_for(input: InputTexture) -> Intermediate {
    Intermediate { width: input.width, height: input.height, format: input.format }
}

/// The texture of that copy.
pub open spec fn intermediate_desc(input: InputTexture) -> TextureDesc {
    d3d11::gpu_texture(
        input.width,
        input.height,
        input.format,
        BIND_RENDER_TARGET | BIND_SHADER_RESOURCE,
    )
}

/// What the video processor works on.
pub open spec fn vp_input(c: Converter, input: InputTexture) -> VpInput {
    if !needs_intermediate(c.target, input) {
        VpInput::Direct
    } else if c.intermediate == Some(intermediate_for(input)) {
        VpInput::Copy(None)
    } else {
        VpInput::Copy(Some(intermediate_desc(input)))
    }
}

/// `b` is `a` but for what is named: the ring, the copy, the marks.
pub open spec fn same_setup(a: Converter, b: Converter) -> bool {
    &&& a.target == b.target
    &&& a.input_width == b.input_width
    &&& a.input_height == b.input_height
    &&& a.output_width == b.output_width
    &&& a.output_height == b.output_height
    &&& a.input_views == b.input_views
    &&& a.flush_frames_remaining == b.flush_frames_remaining
}

impl Converter {
    /// A converter before its first frame.
    pub fn new(
        target: Target,
        input_width: u32,
        input_height: u32,
        output_width: u32,
        output_height: u32,
        ring_len: u32,
        flush_frames: u32,
        use_cs: bool,
    ) -> (r: Converter)
        ensures
            r.target == target,
            r.input_width == input_width,
            r.input_height == input_height,
            r.output_width == output_width,
            r.output_height == output_height,
            r.use_cs == use_cs,
            r.fresh(ring_len, flush_frames),
    {
        Converter {
            target,
            input_width,
            input_height,
            output_width,
            output_height,
            use_cs,
            intermediate: None,
            input_views: ViewCache::new(),
            vp_logged_once: false,
            vp_state_initialized: false,
            ring: OutputRing::new(ring_len),
            flush_frames_remaining: flush_frames,
        }
    }

    /// Nothing was converted yet at this size.
    pub open spec fn fresh(self, ring_len: u32, flush_frames: u32) -> bool {
        &&& self.intermediate is None
        &&& self.input_views.keys@ == Set::<usize>::empty()
        &&& !self.vp_logged_once
        &&& !self.vp_state_initialized
        &&& self.ring == OutputRing { len: ring_len, cursor: 0, last: 0 }
        &&& self.flush_frames_remaining == flush_frames
    }

    /// Starts anew at another size, with a new ring. Which way frames take stays
    /// as it was.
    pub fn resize(
        &mut self,
        input_width: u32,
        input_height: u32,
        output_width: u32,
        output_height: u32,
        ring_len: u32,
        flush_frames: u32,
    )
        ensures
            final(self).target == old(self).target,
            final(self).use_cs == old(self).use_cs,
            final(self).input_width == input_width,
            final(self).input_height == input_height,
            final(self).output_width == output_width,
            final(self).output_height == output_height,
            final(self).fresh(ring_len, flush_frames),
    {
        self.input_width = input_width;
        self.input_height = input_height;
        self.output_width = output_width;
        self.output_height = output_height;
        self.intermediate = None;
        self.input_views.clear();
        self.vp_logged_once = false;
        self.vp_state_initialized = false;
        self.ring = OutputRing::new(ring_len);
        self.flush_frames_remaining = flush_frames;
    }

    /// Which way the next frame takes.
    pub fn convert_path(&self) -> (r: ConvertPath)
        ensures
            r == if self.use_cs {
                ConvertPath::ComputeShader
            } else {
                ConvertPath::VideoProcessor
            },
    {
        if self.use_cs {
            ConvertPath::ComputeShader
        } else {
            ConvertPath::VideoProcessor
        }
    }

    /// After the video processor failed on the way to NV12: where the code is
    /// that of an invalid argument, this frame and all later ones go through the
    /// compute shader; any other failure is the frame's.
    pub fn vp_failed(&mut self, err: D3d11Nv12Error) -> (r: Result<ConvertPath, D3d11Nv12Error>)
        ensures
            same_setup(*old(self), *final(self)),
            final(self).ring == old(self).ring,
            final(self).intermediate == old(self).intermediate,
            final(self).vp_logged_once == old(self).vp_logged_once,
            final(self).vp_state_initialized == old(self).vp_state_initialized,
            match r {
                Ok(path) => path == ConvertPath::ComputeShader && final(self).use_cs && old(
                    self,
                ).target == Target::Nv12 && invalid_argument(err),
                Err(e) => e == err && final(self).use_cs == old(self).use_cs && !(old(self).target
                    == Target::Nv12 && invalid_argument(err)),
            },
    {
        let invalid = match &err {
            D3d11Nv12Error::Windows(hr, _) => *hr == E_INVALIDARG,
            _ => false,
        };
        if self.target == Target::Nv12 && invalid {
            self.use_cs = true;
            Ok(ConvertPath::ComputeShader)
        } else {
            Err(err)
        }
    }

    /// After the scaler's compute shader failed: this frame and all later ones go
    /// through the video processor.
    pub fn cs_scale_failed(&mut self) -> (r: ConvertPath)
        ensures
            r == ConvertPath::VideoProcessor,
            !final(self).use_cs,
            same_setup(*old(self), *final(self)),
            final(self).ring == old(self).ring,
            final(self).intermediate == old(self).intermediate,
            final(self).vp_logged_once == old(self).vp_logged_once,
            final(self).vp_state_initialized == old(self).vp_state_initialized,
    {
        self.use_cs = false;
        ConvertPath::VideoProcessor
    }

    /// Plans a frame on the video processor, on the next surface of the ring. An
    /// sRGB input is refused with the code of an invalid argument, after the
    /// surface was passed over.
    pub fn convert_vp(&mut self, input: InputTexture) -> (r: Result<VpPlan, D3d11Nv12Error>)
        ensures
            same_setup(*old(self), *final(self)),
            final(self).use_cs == old(self).use_cs,
            final(self).intermediate == old(self).intermediate,
            final(self).vp_logged_once == old(self).vp_logged_once,
            final(self).vp_state_initialized == old(self).vp_state_initialized,
            final(self).ring == (OutputRing {
                cursor: ((old(self).ring.cursor + 1) % 0x1_0000_0000) as u32,
                ..old(self).ring
            }),
            match r {
                Ok(plan) => {
                    &&& input.format != FORMAT_B8G8R8A8_UNORM_SRGB
                    &&& plan.output_index == old(self).ring.cursor as int % old(self).ring.places()
                    &&& plan.output_index < old(self).ring.places()
                    &&& plan.input == vp_input(*old(self), input)
                    &&& plan.source == (Rect {
                        left: 0,
                        top: 0,
                        right: old(self).input_width as i32,
                        bottom: old(self).input_height as i32,
                    })
                    &&& plan.dest == (Rect {
                        left: 0,
                        top: 0,
                        right: old(self).output_width as i32,
                        bottom: old(self).output_height as i32,
                    })
                    &&& plan.color_space == color_space_of(old(self).target)
                    &&& plan.first_frame == !old(self).vp_logged_once
                },
                Err(e) => input.format == FORMAT_B8G8R8A8_UNORM_SRGB && invalid_argument(e),
            },
    {
        let output_index: usize = self.ring.next_output_index();
        if input.format == FORMAT_B8G8R8A8_UNORM_SRGB {
            return Err(
                D3d11Nv12Error::Windows(E_INVALIDARG, "The parameter is incorrect.".to_owned()),
            );
        }
        let unsuitable = match self.target {
            Target::Nv12 => input.format != FORMAT_B8G8R8A8_UNORM,
            Target::Bgra => input.format != FORMAT_B8G8R8A8_UNORM && input.format
                != FORMAT_R8G8B8A8_UNORM,
        };
        let copied = input.bind_flags & BIND_RENDER_TARGET == 0 || unsuitable;
        let vp_in = if !copied {
            VpInput::Direct
        } else {
            let wanted = Intermediate {
                width: input.width,
                height: input.height,
                format: input.format,
            };
            let there = match self.intermediate {
                Some(tex) => tex == wanted,
                None => false,
            };
            if there {
                VpInput::Copy(None)
            } else {
                VpInput::Copy(
                    Some(
                        d3d11::make_gpu_texture(
                            input.width,
                            input.height,
                            input.format,
                            BIND_RENDER_TARGET | BIND_SHADER_RESOURCE,
                        ),
                    ),
                )
            }
        };
        Ok(
            VpPlan {
                output_index,
                input: vp_in,
                source: d3d11::rect_of_size(self.input_width, self.input_height),
                dest: d3d11::rect_of_size(self.output_width, self.output_height),
                color_space: match self.target {
                    Target::Nv12 => 0b0001_0100,
                    Target::Bgra => 0,
                },
                first_frame: !self.vp_logged_once,
            },
        )
    }

    /// Notes the copy's texture that was created.
    pub fn intermediate_created(&mut self, tex: Intermediate)
        ensures
            final(self).intermediate == Some(tex),
            same_setup(*old(self), *final(self)),
            final(self).ring == old(self).ring,
            final(self).use_cs == old(self).use_cs,
            final(self).vp_logged_once == old(self).vp_logged_once,
            final(self).vp_state_initialized == old(self).vp_state_initialized,
    {
        self.intermediate = Some(tex);
    }

    /// Whether the processor's rectangles and colour spaces are to be set: once.
    pub fn take_state_init(&mut self) -> (due: bool)
        ensures
            due == !old(self).vp_state_initialized,
            final(self).vp_state_initialized,
            same_setup(*old(self), *final(self)),
            final(self).ring == old(self).ring,
            final(self).use_cs == old(self).use_cs,
            final(self).intermediate == old(self).intermediate,
            final(self).vp_logged_once == old(self).vp_logged_once,
    {
        let due = !self.vp_state_initialized;
        self.vp_state_initialized = true;
        due
    }

    /// Notes that a frame was written on the video processor.
    pub fn vp_done(&mut self, output_index: usize)
        requires
            output_index < old(self).ring.places(),
        ensures
            final(self).vp_logged_once,
            final(self).ring == (OutputRing { last: output_index as u32, ..old(self).ring }),
            same_setup(*old(self), *final(self)),
            final(self).use_cs == old(self).use_cs,
            final(self).intermediate == old(self).intermediate,
            final(self).vp_state_initialized == old(self).vp_state_initialized,
    {
        self.vp_logged_once = true;
        self.ring.note_written(output_index);
    }

    /// The surface of the ring that the compute shader writes next.
    pub fn convert_cs(&mut self) -> (output_index: usize)
        ensures
            output_index == old(self).ring.cursor as int % old(self).ring.places(),
            output_index < old(self).ring.places(),
            final(self).ring == (OutputRing {
                cursor: ((old(self).ring.cursor + 1) % 0x1_0000_0000) as u32,
                ..old(self).ring
            }),
            same_setup(*old(self), *final(self)),
            final(self).use_cs == old(self).use_cs,
            final(self).intermediate == old(self).intermediate,
            final(self).vp_logged_once == old(self).vp_logged_once,
            final(self).vp_state_initialized == old(self).vp_state_initialized,
    {
        self.ring.next_output_index()
    }

    /// Counts a flush. `None` where it is to be carried out, which only the first
    /// few are; else the timing of one that was skipped.
    pub fn flush_timed(&mut self) -> (r: Option<D3d11FlushTiming>)
        ensures
            r == if old(self).flush_frames_remaining > 0 {
                None
            } else {
                Some(D3d11FlushTiming { skipped: true, ctx_wait_us: 0, call_us: 0 })
            },
            final(self).flush_frames_remaining == if old(self).flush_frames_remaining > 0 {
                old(self).flush_frames_remaining - 1
            } else {
                0
            },
            final(self).target == old(self).target,
            final(self).input_width == old(self).input_width,
            final(self).input_height == old(self).input_height,
            final(self).output_width == old(self).output_width,
            final(self).output_height == old(self).output_height,
            final(self).use_cs == old(self).use_cs,
            final(self).intermediate == old(self).intermediate,
            final(self).input_views == old(self).input_views,
            final(self).vp_logged_once == old(self).vp_logged_once,
            final(self).vp_state_initialized == old(self).vp_state_initialized,
            final(self).ring == old(self).ring,
    {
        if self.flush_frames_remaining == 0 {
            return Some(D3d11FlushTiming { skipped: true, ctx_wait_us: 0, call_us: 0 });
        }
        self.flush_frames_remaining -= 1;
        None
    }

    /// The width of what is written.
    pub fn output_width(&self) -> (r: u32)
        ensures
            r == self.output_width,
    {
        self.output_width
    }

    /// The height of what is written.
    pub fn output_height(&self) -> (r: u32)
        ensures
            r == self.output_height,
    {
        self.output_height
    }
}

/// What waiting for an output comes to.
#[derive(Debug, Clone, PartialEq, Eq)]
pub enum ReadyStep {
    /// It is ready after so many microseconds.
    Ready(u64),
    /// Ask again.
    Again,
    TimedOut(D3d11Nv12Error),
}

/// What waiting for an output comes to, once it was asked for. Times are
/// microseconds on a monotonic clock.
pub fn wait_output_ready(ready: bool, start_us: u64, now_us: u64, timeout_ms: u32) -> (r: ReadyStep)
    requires
        start_us <= now_us,
        start_us + timeout_ms * 1000 <= u64::MAX,
    ensures
        r == if ready {
            ReadyStep::Ready((now_us - start_us) as u64)
        } else if now_us >= start_us + timeout_ms * 1000 {
            ReadyStep::TimedOut(D3d11Nv12Error::OutputReadyTimeout(timeout_ms))
        } else {
            ReadyStep::Again
        },
{
    if ready {
        ReadyStep::Ready(now_us - start_us)
    } else if now_us >= start_us + (timeout_ms as u64) * 1000 {
        ReadyStep::TimedOut(D3d11Nv12Error::OutputReadyTimeout(timeout_ms))
    } else {
        ReadyStep::Again
    }
}

/// The timing of a frame of which only the copy and the blit are measured.
pub open spec fn plain_timing(
    ctx_wait_us: u64,
    submit_us: u64,
    copy_us: u64,
    blt_us: u64,
) -> D3d11ConvertTextureTiming {
    D3d11ConvertTextureTiming {
        ctx_wait_us,
        submit_us,
        copy_us,
        srv_us: 0,
        cb_us: 0,
        bind_us: 0,
        bind_state_us: 0,
        bind_shader_us: 0,
        bind_cb_us: 0,
        bind_sampler_us: 0,
        bind_srv_us: 0,
        bind_uav_us: 0,
        dispatch_us: 0,
        unbind_us: 0,
        query_us: 0,
        blt_us,
    }
}

/// The timing of a conversion to NV12; on the compute shader the blit is the
/// whole of it.
pub fn nv12_timing(ctx_wait_us: u64, submit_us: u64, copy_us: u64, blt_us: u64) -> (r:
    D3d11ConvertTextureTiming)
    ensures
        r == plain_timing(ctx_wait_us, submit_us, copy_us, blt_us),
{
    D3d11ConvertTextureTiming {
        ctx_wait_us,
        submit_us,
        copy_us,
        srv_us: 0,
        cb_us: 0,
        bind_us: 0,
        bind_state_us: 0,
        bind_shader_us: 0,
        bind_cb_us: 0,
        bind_sampler_us: 0,
        bind_srv_us: 0,
        bind_uav_us: 0,
        dispatch_us: 0,
        unbind_us: 0,
        query_us: 0,
        blt_us,
    }
}

/// How long the bindings of the scaler's compute shader took.
#[derive(Debug, Clone, Copy, PartialEq, Eq, Structural)]
pub struct ScaleCsSpans {
    pub srv_us: u64,
    pub bind_shader_us: u64,
    pub bind_cb_us: u64,
    pub bind_sampler_us: u64,
    pub bind_srv_us: u64,
    pub bind_uav_us: u64,
    pub dispatch_us: u64,
    pub unbind_us: u64,
    pub query_us: u64,
}

/// `a + b`, at most the largest 64-bit number.
pub open spec fn capped_sum(a: int, b: int) -> int {
    if a + b > u64::MAX {
        u64::MAX as int
    } else {
        a + b
    }
}

/// The timing of a frame on the scaler's compute shader. Binding is what its
/// parts take together.
pub open spec fn shader_timing(
    ctx_wait_us: u64,
    submit_us: u64,
    s: ScaleCsSpans,
) -> D3d11ConvertTextureTiming {
    let state = capped_sum(
        capped_sum(s.bind_shader_us as int, s.bind_cb_us as int),
        s.bind_sampler_us as int,
    );
    let bind = capped_sum(capped_sum(state, s.bind_srv_us as int), s.bind_uav_us as int);
    D3d11ConvertTextureTiming {
        srv_us: s.srv_us,
        bind_us: bind as u64,
        bind_state_us: state as u64,
        bind_shader_us: s.bind_shader_us,
        bind_cb_us: s.bind_cb_us,
        bind_sampler_us: s.bind_sampler_us,
        bind_srv_us: s.bind_srv_us,
        bind_uav_us: s.bind_uav_us,
        dispatch_us: s.dispatch_us,
        unbind_us: s.unbind_us,
        query_us: s.query_us,
        ..plain_timing(ctx_wait_us, submit_us, 0, 0)
    }
}

/// The timing of a frame on the scaler's compute shader.
pub fn scale_cs_timing(ctx_wait_us: u64, submit_us: u64, s: ScaleCsSpans) -> (r: D3d11ConvertTextureTiming)
    ensures
        r == shader_timing(ctx_wait_us, submit_us, s),
{
    let bind_state_us: u64 = s.bind_shader_us.saturating_add(s.bind_cb_us).saturating_add(
        s.bind_sampler_us,
    );
    let bind_us: u64 = bind_state_us.saturating_add(s.bind_srv_us).saturating_add(s.bind_uav_us);
    D3d11ConvertTextureTiming {
        ctx_wait_us,
        submit_us,
        copy_us: 0,
        srv_us: s.srv_us,
        cb_us: 0,
        bind_us,
        bind_state_us,
        bind_shader_us: s.bind_shader_us,
        bind_cb_us: s.bind_cb_us,
        bind_sampler_us: s.bind_sampler_us,
        bind_srv_us: s.bind_srv_us,
        bind_uav_us: s.bind_uav_us,
        dispatch_us: s.dispatch_us,
        unbind_us: s.unbind_us,
        query_us: s.query_us,
        blt_us: 0,
    }
}

/// What came of running one way of a conversion, with the times that it took in
/// microseconds.
#[derive(Debug, Clone, PartialEq, Eq)]
pub enum RunOutcome {
    /// The video processor wrote the frame.
    Processed { copy_us: u64, query_us: u64, blt_us: u64 },
    /// The compute shader wrote the frame in NV12.
    ShadedNv12 { blt_us: u64 },
    /// The compute shader scaled the frame.
    ShadedScale(ScaleCsSpans),
    Failed(D3d11Nv12Error),
}

/// What to do next about a frame.
#[derive(Debug, Clone, PartialEq, Eq)]
pub enum ConvertStep {
    Run(ConvertPath),
    Done(D3d11ConvertTextureTiming),
    Fail(D3d11Nv12Error),
}

/// The conversion of one frame: which way it takes, whether that is the second
/// one, and whether it is over.
#[derive(Debug, Clone, Copy, PartialEq, Eq, Structural)]
pub struct ConvertJob {
    pub path: ConvertPath,
    pub fell_back: bool,
    pub over: bool,
}

/// Whether the outcome is one of the way that the frame takes.
pub open spec fn convert_answers(target: Target, job: ConvertJob, outcome: RunOutcome) -> bool {
    !job.over && match outcome {
        RunOutcome::Processed { query_us, .. } => job.path == ConvertPath::VideoProcessor && (target
            == Target::Nv12 ==> query_us == 0),
        RunOutcome::ShadedNv12 { .. } => job.path == ConvertPath::ComputeShader && target
            == Target::Nv12,
        RunOutcome::ShadedScale(_) => job.path == ConvertPath::ComputeShader && target
            == Target::Bgra,
        RunOutcome::Failed(_) => true,
    }
}

/// Whether a failure leads to the other way: an invalid argument on the video
/// processor on the way to NV12, any failure of the scaler's compute shader.
pub open spec fn converts_otherwise(target: Target, path: ConvertPath, err: D3d11Nv12Error) -> bool {
    match (target, path) {
        (Target::Nv12, ConvertPath::VideoProcessor) => invalid_argument(err),
        (Target::Bgra, ConvertPath::ComputeShader) => true,
        _ => false,
    }
}

/// The other way.
pub open spec fn other_path(path: ConvertPath) -> ConvertPath {
    match path {
        ConvertPath::VideoProcessor => ConvertPath::ComputeShader,
        ConvertPath::ComputeShader => ConvertPath::VideoProcessor,
    }
}

/// The timing of a frame that was written.
pub open spec fn frame_timing(
    ctx_wait_us: u64,
    submit_us: u64,
    outcome: RunOutcome,
) -> D3d11ConvertTextureTiming {
    match outcome {
        RunOutcome::Processed { copy_us, query_us, blt_us } => D3d11ConvertTextureTiming {
            query_us,
            ..plain_timing(ctx_wait_us, submit_us, copy_us, blt_us)
        },
        RunOutcome::ShadedNv12 { blt_us } => plain_timing(ctx_wait_us, submit_us, 0, blt_us),
        RunOutcome::ShadedScale(s) => shader_timing(ctx_wait_us, submit_us, s),
        RunOutcome::Failed(_) => plain_timing(ctx_wait_us, submit_us, 0, 0),
    }
}

/// The conversion of a frame after one way was run.
pub open spec fn convert_next(target: Target, job: ConvertJob, outcome: RunOutcome) -> ConvertJob {
    match outcome {
        RunOutcome::Failed(e) => if converts_otherwise(target, job.path, e) {
            ConvertJob { path: other_path(job.path), fell_back: true, over: false }
        } else {
            ConvertJob { over: true, ..job }
        },
        _ => ConvertJob { over: true, ..job },
    }
}

/// What to do about a frame after one way was run.
pub open spec fn convert_step(
    target: Target,
    job: ConvertJob,
    outcome: RunOutcome,
    ctx_wait_us: u64,
    submit_us: u64,
) -> ConvertStep {
    match outcome {
        RunOutcome::Failed(e) => if converts_otherwise(target, job.path, e) {
            ConvertStep::Run(other_path(job.path))
        } else {
            ConvertStep::Fail(e)
        },
        _ => ConvertStep::Done(frame_timing(ctx_wait_us, submit_us, outcome)),
    }
}

/// A frame's conversion ends: it takes the other way at most once, and the way
/// that it then takes never leads back.
pub proof fn conversion_ends(target: Target, job: ConvertJob, first: RunOutcome, second: RunOutcome)
    requires
        convert_answers(target, job, first),
        convert_answers(target, convert_next(target, job, first), second),
    ensures
        convert_next(target, job, first).fell_back,
        convert_next(target, convert_next(target, job, first), second).over,
{
}

impl Converter {
    /// Begins the conversion of a frame, which takes the way in use.
    pub fn begin_convert(&self) -> (r: ConvertJob)
        ensures
            r.path == (if self.use_cs {
                ConvertPath::ComputeShader
            } else {
                ConvertPath::VideoProcessor
            }),
            !r.fell_back,
            !r.over,
    {
        ConvertJob { path: self.convert_path(), fell_back: false, over: false }
    }

    /// Goes on with the conversion of a frame, given what came of running the way
    /// that it takes. Where that leads to the other way, later frames take the
    /// other way too.
    pub fn convert_timed(
        &mut self,
        job: &mut ConvertJob,
        outcome: RunOutcome,
        ctx_wait_us: u64,
        submit_us: u64,
    ) -> (r: ConvertStep)
        requires
            convert_answers(old(self).target, *old(job), outcome),
        ensures
            r == convert_step(old(self).target, *old(job), outcome, ctx_wait_us, submit_us),
            *final(job) == convert_next(old(self).target, *old(job), outcome),
            final(self).use_cs == match r {
                ConvertStep::Run(path) => path == ConvertPath::ComputeShader,
                _ => old(self).use_cs,
            },
            same_setup(*old(self), *final(self)),
            final(self).ring == old(self).ring,
            final(self).intermediate == old(self).intermediate,
            final(self).vp_logged_once == old(self).vp_logged_once,
            final(self).vp_state_initialized == old(self).vp_state_initialized,
    {
        match outcome {
            RunOutcome::Processed { copy_us, query_us, blt_us } => {
                job.over = true;
                let mut timing = nv12_timing(ctx_wait_us, submit_us, copy_us, blt_us);
                timing.query_us = query_us;
                ConvertStep::Done(timing)
            },
            RunOutcome::ShadedNv12 { blt_us } => {
                job.over = true;
                ConvertStep::Done(nv12_timing(ctx_wait_us, submit_us, 0, blt_us))
            },
            RunOutcome::ShadedScale(spans) => {
                job.over = true;
                ConvertStep::Done(scale_cs_timing(ctx_wait_us, submit_us, spans))
            },
            RunOutcome::Failed(err) => {
                if job.path == ConvertPath::ComputeShader {
                    if self.target == Target::Bgra {
                        let path = self.cs_scale_failed();
                        *job = ConvertJob { path, fell_back: true, over: false };
                        return ConvertStep::Run(path);
                    }
                    job.over = true;
                    return ConvertStep::Fail(err);
                }
                match self.vp_failed(err) {
                    Ok(path) => {
                        *job = ConvertJob { path, fell_back: true, over: false };
                        ConvertStep::Run(path)
                    },
                    Err(e) => {
                        job.over = true;
                        ConvertStep::Fail(e)
                    },
                }
            },
        }
    }
}

/// A format by its number, as it is reported.
pub open spec fn format_name(format: u32) -> Seq<char> {
    "DXGI_FORMAT("@ + text::decimal(format as nat) + ")"@
}

/// Why the scaler's compute shader does not take an input.
pub open spec fn scale_input_problem(
    input: InputTexture,
    input_width: u32,
    input_height: u32,
) -> Option<Seq<char>> {
    if input.format != FORMAT_B8G8R8A8_UNORM {
        Some("RGB compute scaler supports only BGRA input, got "@ + format_name(input.format))
    } else if input.width != input_width || input.height != input_height {
        Some(
            "RGB compute scaler input size mismatch: got "@ + text::decimal(input.width as nat)
                + "x"@ + text::decimal(input.height as nat) + ", expected "@ + text::decimal(
                input_width as nat,
            ) + "x"@ + text::decimal(input_height as nat),
        )
    } else {
        None
    }
}

/// Checks an input of the scaler's compute shader.
pub fn check_scale_input(input: InputTexture, input_width: u32, input_height: u32) -> (r: Result<
    (),
    D3d11Nv12Error,
>)
    ensures
        match (r, scale_input_problem(input, input_width, input_height)) {
            (Ok(_), None) => true,
            (Err(D3d11Nv12Error::ComputeShaderFallback(s)), Some(text)) => s@ == text,
            _ => false,
        },
{
    if input.format != FORMAT_B8G8R8A8_UNORM {
        let mut s = "RGB compute scaler supports only BGRA input, got ".to_owned();
        s.push_str("DXGI_FORMAT(");
        text::push_decimal(&mut s, input.format as u64);
        s.push_str(")");
        assert(s@ =~= "RGB compute scaler supports only BGRA input, got "@ + format_name(
            input.format,
        ));
        return Err(D3d11Nv12Error::ComputeShaderFallback(s));
    }
    if input.width != input_width || input.height != input_height {
        let mut s = "RGB compute scaler input size mismatch: got ".to_owned();
        text::push_decimal(&mut s, input.width as u64);
        s.push_str("x");
        text::push_decimal(&mut s, input.height as u64);
        s.push_str(", expected ");
        text::push_decimal(&mut s, input_width as u64);
        s.push_str("x");
        text::push_decimal(&mut s, input_height as u64);
        return Err(D3d11Nv12Error::ComputeShaderFallback(s));
    }
    Ok(())
}

/// Checks the ring that the scaler's compute shader is to write: it has surfaces,
/// in BGRA.
pub fn check_scale_ring(first_format: Option<u32>) -> (r: Result<(), D3d11Nv12Error>)
    ensures
        match (r, first_format) {
            (Ok(_), Some(f)) => f == FORMAT_B8G8R8A8_UNORM,
            (Err(D3d11Nv12Error::ComputeShaderFallback(s)), Some(f)) => f != FORMAT_B8G8R8A8_UNORM
                && s@ == "RGB compute scaler requires BGRA output textures, got "@ + format_name(f),
            (Err(D3d11Nv12Error::ComputeShaderFallback(s)), None) => s@
                == "RGB scaler output ring is empty"@,
            _ => false,
        },
{
    match first_format {
        None => Err(
            D3d11Nv12Error::ComputeShaderFallback("RGB scaler output ring is empty".to_owned()),
        ),
        Some(f) => {
            if f != FORMAT_B8G8R8A8_UNORM {
                let mut s = "RGB compute scaler requires BGRA output textures, got ".to_owned();
                s.push_str("DXGI_FORMAT(");
                text::push_decimal(&mut s, f as u64);
                s.push_str(")");
                assert(s@ =~= "RGB compute scaler requires BGRA output textures, got "@
                    + format_name(f));
                Err(D3d11Nv12Error::ComputeShaderFallback(s))
            } else {
                Ok(())
            }
        },
    }
}

/// Whether a texture can be read through a single view: one in NV12 cannot.
pub fn check_single_view(format: u32) -> (r: Result<(), D3d11Nv12Error>)
    ensures
        match r {
            Ok(_) => format != FORMAT_NV12,
            Err(D3d11Nv12Error::ComputeShaderFallback(s)) => format == FORMAT_NV12 && s@
                == "NV12 texture needs two SRVs (PlaneSlice 0/1) via create_nv12_plane_srv, not single SRV"@,
            _ => false,
        },
{
    if format == FORMAT_NV12 {
        Err(
            D3d11Nv12Error::ComputeShaderFallback(
                "NV12 texture needs two SRVs (PlaneSlice 0/1) via create_nv12_plane_srv, not single SRV".to_owned(),
            ),
        )
    } else {
        Ok(())
    }
}

/// Which plane a run of the compute shader writes.
#[derive(Debug, Clone, Copy, PartialEq, Eq, Structural)]
pub enum Nv12Phase {
    Luma,
    Chroma,
}

/// One run of the compute shader: its parameters and its thread groups.
#[derive(Debug, Clone, PartialEq, Eq)]
pub struct ShaderRun {
    pub params: Vec<u32>,
    pub groups_x: u32,
    pub groups_y: u32,
}

/// A run of the compute shader from a source to a plane of NV12. The chroma plane
/// has half the width and half the height.
pub fn nv12_run(
    phase: Nv12Phase,
    width: u32,
    height: u32,
    src_width: u32,
    src_height: u32,
    is_bgra: bool,
) -> (r: ShaderRun)
    requires
        width + 15 <= u32::MAX,
        height + 15 <= u32::MAX,
    ensures
        r.params@ == seq![
            width,
            height,
            if phase == Nv12Phase::Luma {
                0u32
            } else {
                1u32
            },
            if is_bgra {
                1u32
            } else {
                0u32
            },
            src_width,
            src_height,
            0u32,
            0u32,
        ],
        phase == Nv12Phase::Luma ==> r.groups_x == d3d11::groups_over(width as int, 16)
            && r.groups_y == d3d11::groups_over(height as int, 16),
        phase == Nv12Phase::Chroma ==> r.groups_x == d3d11::groups_over(width as int / 2, 16)
            && r.groups_y == d3d11::groups_over(height as int / 2, 16),
{
    let mut params: Vec<u32> = Vec::new();
    params.push(width);
    params.push(height);
    params.push(
        match phase {
            Nv12Phase::Luma => 0u32,
            Nv12Phase::Chroma => 1u32,
        },
    );
    params.push(
        if is_bgra {
            1u32
        } else {
            0u32
        },
    );
    params.push(src_width);
    params.push(src_height);
    params.push(0);
    params.push(0);
    let (w, h): (u32, u32) = match phase {
        Nv12Phase::Luma => (width, height),
        Nv12Phase::Chroma => (width / 2, height / 2),
    };
    let r = ShaderRun { params, groups_x: d3d11::groups16(w), groups_y: d3d11::groups16(h) };
    assert(r.params@ =~= seq![
        width,
        height,
        if phase == Nv12Phase::Luma {
            0u32
        } else {
            1u32
        },
        if is_bgra {
            1u32
        } else {
            0u32
        },
        src_width,
        src_height,
        0u32,
        0u32,
    ]);
    r
}

/// The run of the scaler's compute shader.
pub fn scale_run(input_width: u32, input_height: u32, output_width: u32, output_height: u32) -> (r:
    ShaderRun)
    requires
        output_width + 15 <= u32::MAX,
        output_height + 15 <= u32::MAX,
    ensures
        r.params@ == seq![
            output_width,
            output_height,
            input_width,
            input_height,
            0u32,
            0u32,
            0u32,
            0u32,
        ],
        r.groups_x == d3d11::groups_over(output_width as int, 16),
        r.groups_y == d3d11::groups_over(output_height as int, 16),
{
    let mut params: Vec<u32> = Vec::new();
    params.push(output_width);
    params.push(output_height);
    params.push(input_width);
    params.push(input_height);
    params.push(0);
    params.push(0);
    params.push(0);
    params.push(0);
    let r = ShaderRun {
        params,
        groups_x: d3d11::groups16(output_width),
        groups_y: d3d11::groups16(output_height),
    };
    assert(r.params@ =~= seq![
        output_width,
        output_height,
        input_width,
        input_height,
        0u32,
        0u32,
        0u32,
        0u32,
    ]);
    r
}

/// Which constant buffer goes with a surface, of a ring with at least one.
pub fn scale_params_index(output_index: usize, ring_len: usize) -> (r: usize)
    requires
        ring_len > 0,
    ensures
        r == output_index as int % ring_len as int,
        r < ring_len,
{
    output_index % ring_len
}

/// The textures of the compute shader on the way to NV12.
#[derive(Debug, Clone, Copy, PartialEq, Eq, Structural)]
pub struct CsTextures {
    pub tex_y: TextureDesc,
    pub tex_uv: TextureDesc,
    pub staging_y: TextureDesc,
    pub staging_uv: TextureDesc,
    pub staging_nv12: TextureDesc,
    /// The formats of the views through which the planes are written.
    pub uav_y_format: u32,
    pub uav_uv_format: u32,
}

/// The textures of the compute shader: a full-size plane of one byte, a half-size
/// plane of two, their copies for the CPU to read, and the result for it to write.
pub fn create_cs_textures_and_uavs(width: u32, height: u32) -> (r: CsTextures)
    ensures
        r.tex_y == d3d11::gpu_texture(width, height, FORMAT_R8_UNORM, BIND_UNORDERED_ACCESS),
        r.tex_uv == d3d11::gpu_texture(
            width / 2,
            height / 2,
            FORMAT_R8G8_UNORM,
            BIND_UNORDERED_ACCESS,
        ),
        r.staging_y == d3d11::staging_texture(width, height, FORMAT_R8_UNORM, CPU_ACCESS_READ),
        r.staging_uv == d3d11::staging_texture(
            width / 2,
            height / 2,
            FORMAT_R8G8_UNORM,
            CPU_ACCESS_READ,
        ),
        r.staging_nv12 == d3d11::staging_texture(width, height, FORMAT_NV12, CPU_ACCESS_WRITE),
        r.uav_y_format == FORMAT_R8_UNORM,
        r.uav_uv_format == FORMAT_R8G8_UNORM,
{
    let uw: u32 = width / 2;
    let uh: u32 = height / 2;
    CsTextures {
        tex_y: d3d11::make_gpu_texture(width, height, FORMAT_R8_UNORM, BIND_UNORDERED_ACCESS),
        tex_uv: d3d11::make_gpu_texture(uw, uh, FORMAT_R8G8_UNORM, BIND_UNORDERED_ACCESS),
        staging_y: d3d11::make_staging_texture(width, height, FORMAT_R8_UNORM, CPU_ACCESS_READ),
        staging_uv: d3d11::make_staging_texture(uw, uh, FORMAT_R8G8_UNORM, CPU_ACCESS_READ),
        staging_nv12: d3d11::make_staging_texture(width, height, FORMAT_NV12, CPU_ACCESS_WRITE),
        uav_y_format: FORMAT_R8_UNORM,
        uav_uv_format: FORMAT_R8G8_UNORM,
    }
}

/// A surface of the ring: NV12 for the encoder, or BGRA, which the compute shader
/// may write too.
pub fn output_texture_desc(target: Target, width: u32, height: u32, allow_uav: bool) -> (r:
    TextureDesc)
    ensures
        r == match target {
            Target::Nv12 => d3d11::gpu_texture(
                width,
                height,
                FORMAT_NV12,
                BIND_RENDER_TARGET | BIND_SHADER_RESOURCE,
            ),
            Target::Bgra => d3d11::gpu_texture(
                width,
                height,
                FORMAT_B8G8R8A8_UNORM,
                if allow_uav {
                    BIND_RENDER_TARGET | BIND_SHADER_RESOURCE | BIND_UNORDERED_ACCESS
                } else {
                    BIND_RENDER_TARGET | BIND_SHADER_RESOURCE
                },
            ),
        },
{
    match target {
        Target::Nv12 => d3d11::make_gpu_texture(
            width,
            height,
            FORMAT_NV12,
            BIND_RENDER_TARGET | BIND_SHADER_RESOURCE,
        ),
        Target::Bgra => {
            let flags: u32 = if allow_uav {
                BIND_RENDER_TARGET | BIND_SHADER_RESOURCE | BIND_UNORDERED_ACCESS
            } else {
                BIND_RENDER_TARGET | BIND_SHADER_RESOURCE
            };
            d3d11::make_gpu_texture(width, height, FORMAT_B8G8R8A8_UNORM, flags)
        },
    }
}

/// Puts NV12 together out of its planes: the rows of the luma plane, and behind
/// them, with the same pitch, those of the interleaved chroma plane.
pub fn assemble_nv12(
    nv12: &mut Vec<u8>,
    pitch: usize,
    y: &[u8],
    y_pitch: usize,
    uv: &[u8],
    uv_pitch: usize,
    width: u32,
    height: u32,
)
    requires
        width <= pitch,
        pitch * height <= old(nv12)@.len(),
        d3d11::plane_fits(
            old(nv12)@.len() as int,
            pitch * height,
            pitch as int,
            height as int / 2,
            (width as int / 2) * 2,
        ),
        d3d11::plane_fits(y@.len() as int, 0, y_pitch as int, height as int, width as int),
        d3d11::plane_fits(
            uv@.len() as int,
            0,
            uv_pitch as int,
            height as int / 2,
            (width as int / 2) * 2,
        ),
    ensures
        final(nv12)@.len() == old(nv12)@.len(),
        forall|r: int, k: int|
            0 <= r < height && 0 <= k < width ==> #[trigger] d3d11::at(
                final(nv12)@,
                0,
                pitch as int,
                r,
                k,
            ) == d3d11::at(y@, 0, y_pitch as int, r, k),
        forall|r: int, k: int|
            0 <= r < height as int / 2 && 0 <= k < (width as int / 2) * 2 ==> #[trigger] d3d11::at(
                final(nv12)@,
                pitch * height,
                pitch as int,
                r,
                k,
            ) == d3d11::at(uv@, 0, uv_pitch as int, r, k),
        forall|i: int|
            0 <= i < old(nv12)@.len() && !d3d11::in_rows(
                i,
                0,
                pitch as int,
                height as int,
                width as int,
            ) && !d3d11::in_rows(
                i,
                pitch * height,
                pitch as int,
                height as int / 2,
                (width as int / 2) * 2,
            ) ==> #[trigger] final(nv12)@[i] == old(nv12)@[i],
{
    let ghost before = nv12@;
    let h: usize = height as usize;
    let w: usize = width as usize;
    let uh: usize = (height / 2) as usize;
    let uv_len: usize = ((width / 2) * 2) as usize;
    proof {
        let (p, hh) = (pitch as int, h as int);
        if hh > 0 {
            assert((hh - 1) * p + w <= p * hh) by (nonlinear_arith)
                requires
                    w <= p,
                    hh > 0,
            ;
        }
        assert(nv12.len() == before.len());
    }
    d3d11::copy_plane(nv12, 0, pitch, y, y_pitch, h, w);
    let ghost mid = nv12@;
    assert(pitch * h <= nv12.len());
    let offset: usize = pitch * h;
    d3d11::copy_plane(nv12, offset, pitch, uv, uv_pitch, uh, uv_len);
    proof {
        let p = pitch as int;
        let o = offset as int;
        assert(o == p * (h as int));
        assert forall|r: int, k: int| 0 <= r < height && 0 <= k < width implies #[trigger] d3d11::at(
            nv12@,
            0,
            p,
            r,
            k,
        ) == d3d11::at(y@, 0, y_pitch as int, r, k) by {
            assert(d3d11::at(mid, 0, p, r, k) == d3d11::at(y@, 0, y_pitch as int, r, k));
            let i = r * p + k;
            assert(i < o) by (nonlinear_arith)
                requires
                    i == r * p + k,
                    0 <= r < h,
                    0 <= k < w,
                    w <= p,
                    o == p * (h as int),
            ;
            assert(0 <= r * p) by (nonlinear_arith)
                requires
                    0 <= r,
                    0 <= p,
            ;
            if d3d11::in_rows(i, o, p, uh as int, uv_len as int) {
                let (a, b) = choose|a: int, b: int|
                    0 <= a < uh && 0 <= b < uv_len && i == #[trigger] (o + a * p + b);
                assert(0 <= a * p) by (nonlinear_arith)
                    requires
                        0 <= a,
                        0 <= p,
                ;
            }
            assert(nv12@[i] == mid[i]);
        }
    }
}

} // verus!
