//! From decoded I420 or NV12 to RGBA on the GPU: what the shaders are compiled
//! for, what is created when, and which sizes belong together. The Direct3D calls
//! are the caller's.
use vstd::prelude::*;

use crate::d3d11::{
    self, BufferDesc, TextureDesc, BIND_CONSTANT_BUFFER, BIND_SHADER_RESOURCE,
    BIND_UNORDERED_ACCESS, CPU_ACCESS_READ, CPU_ACCESS_WRITE, FORMAT_NV12,
    FORMAT_R8G8B8A8_UNORM, FORMAT_R8G8_UNORM, FORMAT_R8_UNORM, MISC_SHARED, USAGE_DEFAULT,
    USAGE_DYNAMIC,
};
use crate::d3d11_i420::{chroma_is_smaller, chroma_len, luma_len};
use crate::mft_setup::opt_view;
use crate::text;

verus! {

/// How long the GPU is waited for, in microseconds.
pub const QUERY_TIMEOUT_US: u64 = 2_000_000;

/// Why a conversion failed.
#[derive(Debug, Clone, PartialEq, Eq)]
pub enum D3d11RgbaError {
    CreateDevice(String),
    Compile(String),
    CreateTexture(String),
    CreateShaderResourceView(String),
    CreateUnorderedAccessView(String),
    CreateQuery(String),
    MapFailed(String),
    DeviceLost(String),
}

/// Whether decoding on the GPU has failed; once it has, frames are decoded on the
/// CPU.
#[derive(Debug, Clone, Copy, PartialEq, Eq, Structural)]
pub struct DecodePath {
    pub gpu_failed: bool,
}

impl DecodePath {
    /// Decoding on the GPU has not failed.
    pub fn new() -> (r: DecodePath)
        ensures
            !r.gpu_failed,
    {
        DecodePath { gpu_failed: false }
    }

    /// Notes that decoding on the GPU failed.
    pub fn mark_decode_gpu_failed(&mut self)
        ensures
            final(self).gpu_failed,
    {
        self.gpu_failed = true;
    }

    /// Whether decoding on the GPU has failed.
    pub fn decode_gpu_failed(&self) -> (r: bool)
        ensures
            r == self.gpu_failed,
    {
        self.gpu_failed
    }
}

/// Whether a text switches something on: `1`, or `true` in any case.
pub open spec fn switched_on(s: Seq<char>) -> bool {
    s == "1"@ || text::ascii_lowered(s) == text::ascii_lowered("true"@)
}

/// Whether a text switches something on, or `default` where it is absent.
pub fn flag_or(asked: Option<&str>, default: bool) -> (r: bool)
    ensures
        r == match asked {
            Some(s) => switched_on(s@),
            None => default,
        },
{
    match asked {
        Some(s) => text::same(s, "1") || text::eq_ignore_ascii_case(s, "true"),
        None => default,
    }
}

/// The gamma that is compiled in, by its numeral.
#[derive(Debug, Clone, Copy, PartialEq, Eq, Structural)]
pub enum CompiledGamma {
    Off,
    /// That of the fourth colour stage.
    Stage,
    /// The one that was asked for.
    Asked,
}

/// How colours are treated.
#[derive(Debug, Clone, Copy, PartialEq, Eq, Structural)]
pub struct ColorConfig {
    pub output_srgb: bool,
    pub decoder_gamma: CompiledGamma,
    pub use_runtime_gamma: bool,
}

/// The colour stage that a text asks for.
pub open spec fn stage_asked(asked: Option<Seq<char>>) -> Option<nat> {
    match asked {
        Some(s) => text::parsed_unsigned(s, 255),
        None => None,
    }
}

/// How colours are treated: as the stage says where one is asked for, else by
/// what is asked of the output and whether a gamma above zero is asked for.
pub open spec fn color_config(
    stage: Option<nat>,
    output_srgb: Option<Seq<char>>,
    gamma_asked: bool,
) -> ColorConfig {
    match stage {
        Some(n) => ColorConfig {
            output_srgb: n == 1 || n == 3,
            decoder_gamma: if n == 4 {
                CompiledGamma::Stage
            } else {
                CompiledGamma::Off
            },
            use_runtime_gamma: n < 1 || n > 4,
        },
        None => ColorConfig {
            output_srgb: output_srgb == Some("1"@) || output_srgb == Some("true"@),
            decoder_gamma: if gamma_asked {
                CompiledGamma::Asked
            } else {
                CompiledGamma::Off
            },
            use_runtime_gamma: !gamma_asked,
        },
    }
}

/// How colours are treated. `gamma_asked` says whether a gamma above zero is
/// asked for.
pub fn choose_colors(stage: Option<&str>, output_srgb: Option<&str>, gamma_asked: bool) -> (r:
    ColorConfig)
    ensures
        r == color_config(stage_asked(opt_view(stage)), opt_view(output_srgb), gamma_asked),
{
    let number: Option<u64> = match stage {
        Some(s) => text::parse_unsigned(s, 255),
        None => None,
    };
    match number {
        Some(n) => ColorConfig {
            output_srgb: n == 1 || n == 3,
            decoder_gamma: if n == 4 {
                CompiledGamma::Stage
            } else {
                CompiledGamma::Off
            },
            use_runtime_gamma: n < 1 || n > 4,
        },
        None => {
            let srgb = match output_srgb {
                Some(s) => text::same(s, "1") || text::same(s, "true"),
                None => false,
            };
            ColorConfig {
                output_srgb: srgb,
                decoder_gamma: if gamma_asked {
                    CompiledGamma::Asked
                } else {
                    CompiledGamma::Off
                },
                use_runtime_gamma: !gamma_asked,
            }
        },
    }
}

/// Which shader is compiled.
#[derive(Debug, Clone, Copy, PartialEq, Eq, Structural)]
pub enum ShaderVariant {
    SolidRed,
    GrayY,
    Full,
}

/// Which shader is compiled: one for finding faults where it is asked for, the
/// red one first.
pub fn choose_shader(solid_red: Option<&str>, gray_y: Option<&str>) -> (r: ShaderVariant)
    ensures
        r == if opt_view(solid_red) is Some && switched_on(opt_view(solid_red)->0) {
            ShaderVariant::SolidRed
        } else if opt_view(gray_y) is Some && switched_on(opt_view(gray_y)->0) {
            ShaderVariant::GrayY
        } else {
            ShaderVariant::Full
        },
{
    if flag_or(solid_red, false) {
        ShaderVariant::SolidRed
    } else if flag_or(gray_y, false) {
        ShaderVariant::GrayY
    } else {
        ShaderVariant::Full
    }
}

/// `line` where `yes`.
pub open spec fn line_if(yes: bool, line: Seq<char>) -> Seq<char> {
    if yes {
        line
    } else {
        Seq::empty()
    }
}

/// The definitions in front of the shader's source.
pub open spec fn defines(
    output_srgb: bool,
    full_range: bool,
    gamma: Option<Seq<char>>,
    use_runtime_gamma: bool,
    uv_bilinear: bool,
) -> Seq<char> {
    line_if(output_srgb, "#define OUTPUT_SRGB 1\n"@) + line_if(
        full_range,
        "#define FULL_RANGE 1\n"@,
    ) + (match gamma {
        Some(g) => "#define GAMMA_DECODER_ENABLED 1\n"@ + "#define GAMMA_DECODER "@ + g + "\n"@,
        None => Seq::empty(),
    }) + line_if(use_runtime_gamma, "#define GAMMA_RUNTIME 1\n"@) + line_if(
        uv_bilinear,
        "#define UV_BILINEAR 1\n"@,
    )
}

/// The definitions in front of the shader's source. `gamma` is the numeral of the
/// gamma that is compiled in.
pub fn shader_defines(
    output_srgb: bool,
    full_range: bool,
    gamma: Option<&str>,
    use_runtime_gamma: bool,
    uv_bilinear: bool,
) -> (r: String)
    ensures
        r@ == defines(output_srgb, full_range, opt_view(gamma), use_runtime_gamma, uv_bilinear),
{
    let mut r = String::new();
    if output_srgb {
        r.push_str("#define OUTPUT_SRGB 1\n");
    }
    if full_range {
        r.push_str("#define FULL_RANGE 1\n");
    }
    if let Some(g) = gamma {
        r.push_str("#define GAMMA_DECODER_ENABLED 1\n");
        r.push_str("#define GAMMA_DECODER ");
        r.push_str(g);
        r.push_str("\n");
    }
    if use_runtime_gamma {
        r.push_str("#define GAMMA_RUNTIME 1\n");
    }
    if uv_bilinear {
        r.push_str("#define UV_BILINEAR 1\n");
    }
    assert(r@ =~= defines(
        output_srgb,
        full_range,
        opt_view(gamma),
        use_runtime_gamma,
        uv_bilinear,
    ));
    r
}

/// A constant buffer of sixteen bytes that the CPU rewrites.
pub open spec fn small_params() -> BufferDesc {
    BufferDesc {
        byte_width: 16,
        usage: USAGE_DYNAMIC,
        bind_flags: BIND_CONSTANT_BUFFER,
        cpu_access: CPU_ACCESS_WRITE,
        misc_flags: 0,
    }
}

/// A constant buffer of sixteen bytes that the CPU rewrites.
pub fn create_small_params() -> (r: BufferDesc)
    ensures
        r == small_params(),
{
    BufferDesc {
        byte_width: 16,
        usage: USAGE_DYNAMIC,
        bind_flags: BIND_CONSTANT_BUFFER,
        cpu_access: CPU_ACCESS_WRITE,
        misc_flags: 0,
    }
}

/// The textures of a converter from I420.
#[derive(Debug, Clone, Copy, PartialEq, Eq, Structural)]
pub struct I420Resources {
    pub params: BufferDesc,
    pub tex_y: TextureDesc,
    pub tex_uv: TextureDesc,
    pub tex_rgba: TextureDesc,
    pub staging_rgba: TextureDesc,
    /// The format of the views through which the planes are read.
    pub plane_view_format: u32,
    /// The format of the view through which the result is written.
    pub rgba_view_format: u32,
}

/// The textures of a converter from I420: the planes, the result, and its copy
/// for the CPU to read.
pub fn create_resources(width: u32, height: u32) -> (r: I420Resources)
    ensures
        r.params == small_params(),
        r.tex_y == d3d11::gpu_texture(width, height, FORMAT_R8_UNORM, BIND_SHADER_RESOURCE),
        r.tex_uv == d3d11::gpu_texture(
            width / 2,
            height / 2,
            FORMAT_R8_UNORM,
            BIND_SHADER_RESOURCE,
        ),
        r.tex_rgba == d3d11::gpu_texture(
            width,
            height,
            FORMAT_R8G8B8A8_UNORM,
            BIND_UNORDERED_ACCESS,
        ),
        r.staging_rgba == d3d11::staging_texture(
            width,
            height,
            FORMAT_R8G8B8A8_UNORM,
            CPU_ACCESS_READ,
        ),
        r.plane_view_format == FORMAT_R8_UNORM,
        r.rgba_view_format == FORMAT_R8G8B8A8_UNORM,
{
    I420Resources {
        params: create_small_params(),
        tex_y: d3d11::make_gpu_texture(width, height, FORMAT_R8_UNORM, BIND_SHADER_RESOURCE),
        tex_uv: d3d11::make_gpu_texture(
            width / 2,
            height / 2,
            FORMAT_R8_UNORM,
            BIND_SHADER_RESOURCE,
        ),
        tex_rgba: d3d11::make_gpu_texture(
            width,
            height,
            FORMAT_R8G8B8A8_UNORM,
            BIND_UNORDERED_ACCESS,
        ),
        staging_rgba: d3d11::make_staging_texture(
            width,
            height,
            FORMAT_R8G8B8A8_UNORM,
            CPU_ACCESS_READ,
        ),
        plane_view_format: FORMAT_R8_UNORM,
        rgba_view_format: FORMAT_R8G8B8A8_UNORM,
    }
}

/// A converter from I420 of one size.
#[derive(Debug, Clone, Copy, PartialEq, Eq, Structural)]
pub struct D3d11I420ToRgba {
    pub width: u32,
    pub height: u32,
}

/// How a frame is converted: the pitches of the planes, the parameters, and the
/// thread groups.
#[derive(Debug, Clone, Copy, PartialEq, Eq, Structural)]
pub struct I420Plan {
    pub luma_pitch: u32,
    pub chroma_pitch: u32,
    pub params_width: u32,
    pub params_height: u32,
    pub groups_x: u32,
    pub groups_y: u32,
    /// The number of bytes of the result.
    pub rgba_len: usize,
}

impl D3d11I420ToRgba {
    /// A converter for frames of a size.
    pub fn new(width: u32, height: u32) -> (r: D3d11I420ToRgba)
        ensures
            r.width == width,
            r.height == height,
    {
        D3d11I420ToRgba { width, height }
    }

    /// Plans a frame whose planes have the given lengths, if they are long
    /// enough.
    pub fn convert(&self, y_len: usize, u_len: usize, v_len: usize) -> (r: Result<
        I420Plan,
        D3d11RgbaError,
    >)
        requires
            luma_len(self.width, self.height) * 4 <= u32::MAX,
            self.width + 15 <= u32::MAX,
            self.height + 15 <= u32::MAX,
        ensures
            ({
                let fits = y_len >= luma_len(self.width, self.height) && u_len >= chroma_len(
                    self.width,
                    self.height,
                ) && v_len >= chroma_len(self.width, self.height);
                match r {
                    Ok(plan) => fits && plan == (I420Plan {
                        luma_pitch: self.width,
                        chroma_pitch: self.width / 2,
                        params_width: self.width,
                        params_height: self.height,
                        groups_x: d3d11::groups_over(self.width as int, 16) as u32,
                        groups_y: d3d11::groups_over(self.height as int, 16) as u32,
                        rgba_len: (luma_len(self.width, self.height) * 4) as usize,
                    }),
                    Err(D3d11RgbaError::MapFailed(s)) => !fits && s@ == "I420 plane size mismatch"@,
                    Err(_) => false,
                }
            }),
    {
        proof {
            chroma_is_smaller(self.width, self.height);
        }
        let (w, h): (u32, u32) = (self.width, self.height);
        let luma: usize = (w * h) as usize;
        let chroma: usize = ((w / 2) * (h / 2)) as usize;
        if y_len < luma || u_len < chroma || v_len < chroma {
            return Err(D3d11RgbaError::MapFailed("I420 plane size mismatch".to_owned()));
        }
        Ok(
            I420Plan {
                luma_pitch: w,
                chroma_pitch: w / 2,
                params_width: w,
                params_height: h,
                groups_x: d3d11::groups16(w),
                groups_y: d3d11::groups16(h),
                rgba_len: (w * h * 4) as usize,
            },
        )
    }

    /// The width of the frames.
    pub fn width(&self) -> (r: u32)
        ensures
            r == self.width,
    {
        self.width
    }

    /// The height of the frames.
    pub fn height(&self) -> (r: u32)
        ensures
            r == self.height,
    {
        self.height
    }
}

/// Whether the device is lost; the text says why.
pub fn check_device_lost(removed: Option<&str>) -> (r: Result<(), D3d11RgbaError>)
    ensures
        match (r, removed) {
            (Ok(_), None) => true,
            (Err(D3d11RgbaError::DeviceLost(s)), Some(why)) => s@ == "D3D11 device lost: "@ + why@,
            _ => false,
        },
{
    match removed {
        None => Ok(()),
        Some(why) => {
            let mut s = "D3D11 device lost: ".to_owned();
            s.push_str(why);
            Err(D3d11RgbaError::DeviceLost(s))
        },
    }
}

/// Where the conversion of an I420 frame stands.
#[derive(Debug, Clone, Copy, PartialEq, Eq, Structural)]
pub enum RgbaStage {
    /// The planes are being handed to the GPU.
    Uploading,
    /// It is being asked whether the device is lost, after that.
    CheckingUpload,
    /// The shader's parameters are being written.
    WritingParams,
    /// The shader is being run.
    Dispatching,
    /// It is being asked whether the device is lost, after that.
    CheckingRun,
    /// The result is being copied for the CPU to read.
    Copying,
    /// The copy is awaited.
    Waiting,
    /// It is being asked whether the device is lost, after that.
    CheckingCopy,
    /// The copy is being read.
    Reading,
    /// The conversion is over.
    Over,
}

/// What came of the action that a step asked for.
#[derive(Debug, Clone, PartialEq, Eq)]
pub enum RgbaEvent {
    /// It was carried out.
    Finished,
    /// It was asked whether the device is lost; the text says why.
    Checked(Option<String>),
    /// It was asked whether the copy is there: since when, in microseconds, why the
    /// device is lost, and what asking gave.
    Asked { ready: bool, elapsed_us: u64, removed: Option<String>, last_error: String },
    /// A call failed.
    Failed(String),
}

/// Why the conversion of a frame failed.
#[derive(Debug, Clone, PartialEq, Eq)]
pub enum RgbaFailure {
    /// The device is lost.
    Lost(String),
    /// The copy did not come in time.
    TimedOut(String),
    /// A call failed.
    Call(String),
}

impl RgbaFailure {
    /// The error that is reported.
    pub fn error(self) -> (r: D3d11RgbaError)
        ensures
            match (self, r) {
                (RgbaFailure::Lost(why), D3d11RgbaError::DeviceLost(s)) => s@
                    == "D3D11 device lost: "@ + why@,
                (RgbaFailure::TimedOut(last), D3d11RgbaError::DeviceLost(s)) => s@
                    == "GPU query timeout (2s), last err: "@ + last@,
                (RgbaFailure::Call(t), D3d11RgbaError::MapFailed(s)) => s == t,
                _ => false,
            },
    {
        match self {
            RgbaFailure::Lost(why) => {
                let mut s = "D3D11 device lost: ".to_owned();
                s.push_str(why.as_str());
                D3d11RgbaError::DeviceLost(s)
            },
            RgbaFailure::TimedOut(last) => {
                let mut s = "GPU query timeout (2s), last err: ".to_owned();
                s.push_str(last.as_str());
                D3d11RgbaError::DeviceLost(s)
            },
            RgbaFailure::Call(s) => D3d11RgbaError::MapFailed(s),
        }
    }
}

/// What to do next.
#[derive(Debug, Clone, PartialEq, Eq)]
pub enum RgbaAction {
    /// Ask whether the device is lost.
    CheckDevice,
    WriteParams,
    Dispatch,
    /// Copy the result for the CPU to read.
    Copy,
    /// Ask whether the copy is there.
    Ask,
    /// Read the copy.
    Read,
    Done,
    Fail(RgbaFailure),
}

/// Whether the event answers the action that led to the stage.
pub open spec fn rgba_answers(stage: RgbaStage, ev: RgbaEvent) -> bool {
    match stage {
        RgbaStage::Uploading | RgbaStage::Dispatching | RgbaStage::Copying => ev is Finished,
        RgbaStage::WritingParams | RgbaStage::Reading => ev is Finished || ev is Failed,
        RgbaStage::CheckingUpload | RgbaStage::CheckingRun | RgbaStage::CheckingCopy => ev
            is Checked,
        RgbaStage::Waiting => ev is Asked,
        RgbaStage::Over => false,
    }
}

/// The stage that follows one that went well, and the action that leads to it.
pub open spec fn rgba_forward(stage: RgbaStage) -> (RgbaStage, RgbaAction) {
    match stage {
        RgbaStage::Uploading => (RgbaStage::CheckingUpload, RgbaAction::CheckDevice),
        RgbaStage::CheckingUpload => (RgbaStage::WritingParams, RgbaAction::WriteParams),
        RgbaStage::WritingParams => (RgbaStage::Dispatching, RgbaAction::Dispatch),
        RgbaStage::Dispatching => (RgbaStage::CheckingRun, RgbaAction::CheckDevice),
        RgbaStage::CheckingRun => (RgbaStage::Copying, RgbaAction::Copy),
        RgbaStage::Copying => (RgbaStage::Waiting, RgbaAction::Ask),
        RgbaStage::Waiting => (RgbaStage::CheckingCopy, RgbaAction::CheckDevice),
        RgbaStage::CheckingCopy => (RgbaStage::Reading, RgbaAction::Read),
        RgbaStage::Reading => (RgbaStage::Over, RgbaAction::Done),
        RgbaStage::Over => (RgbaStage::Over, RgbaAction::Done),
    }
}

/// What the conversion of a frame does next, given what came of the last action.
pub open spec fn rgba_next(stage: RgbaStage, ev: RgbaEvent) -> (RgbaStage, RgbaAction) {
    match ev {
        RgbaEvent::Finished => rgba_forward(stage),
        RgbaEvent::Failed(s) => (RgbaStage::Over, RgbaAction::Fail(RgbaFailure::Call(s))),
        RgbaEvent::Checked(Some(why)) => (
            RgbaStage::Over,
            RgbaAction::Fail(RgbaFailure::Lost(why)),
        ),
        RgbaEvent::Checked(None) => rgba_forward(stage),
        RgbaEvent::Asked { ready, elapsed_us, removed, last_error } => if ready {
            rgba_forward(stage)
        } else {
            match removed {
                Some(why) => (RgbaStage::Over, RgbaAction::Fail(RgbaFailure::Lost(why))),
                None => if elapsed_us > QUERY_TIMEOUT_US {
                    (RgbaStage::Over, RgbaAction::Fail(RgbaFailure::TimedOut(last_error)))
                } else {
                    (stage, RgbaAction::Ask)
                },
            }
        },
    }
}

impl RgbaStage {
    fn forward(&mut self) -> (r: RgbaAction)
        ensures
            (*final(self), r) == rgba_forward(*old(self)),
    {
        match *self {
            RgbaStage::Uploading => {
                *self = RgbaStage::CheckingUpload;
                RgbaAction::CheckDevice
            },
            RgbaStage::CheckingUpload => {
                *self = RgbaStage::WritingParams;
                RgbaAction::WriteParams
            },
            RgbaStage::WritingParams => {
                *self = RgbaStage::Dispatching;
                RgbaAction::Dispatch
            },
            RgbaStage::Dispatching => {
                *self = RgbaStage::CheckingRun;
                RgbaAction::CheckDevice
            },
            RgbaStage::CheckingRun => {
                *self = RgbaStage::Copying;
                RgbaAction::Copy
            },
            RgbaStage::Copying => {
                *self = RgbaStage::Waiting;
                RgbaAction::Ask
            },
            RgbaStage::Waiting => {
                *self = RgbaStage::CheckingCopy;
                RgbaAction::CheckDevice
            },
            RgbaStage::CheckingCopy => {
                *self = RgbaStage::Reading;
                RgbaAction::Read
            },
            RgbaStage::Reading | RgbaStage::Over => {
                *self = RgbaStage::Over;
                RgbaAction::Done
            },
        }
    }

    /// Goes on with the conversion of a frame whose planes are long enough, given
    /// what came of the last action.
    pub fn convert_step(&mut self, ev: RgbaEvent) -> (r: RgbaAction)
        requires
            rgba_answers(*old(self), ev),
        ensures
            (*final(self), r) == rgba_next(*old(self), ev),
    {
        match ev {
            RgbaEvent::Finished => self.forward(),
            RgbaEvent::Failed(s) => {
                *self = RgbaStage::Over;
                RgbaAction::Fail(RgbaFailure::Call(s))
            },
            RgbaEvent::Checked(removed) => match removed {
                Some(why) => {
                    *self = RgbaStage::Over;
                    RgbaAction::Fail(RgbaFailure::Lost(why))
                },
                None => self.forward(),
            },
            RgbaEvent::Asked { ready, elapsed_us, removed, last_error } => {
                if ready {
                    return self.forward();
                }
                match removed {
                    Some(why) => {
                        *self = RgbaStage::Over;
                        RgbaAction::Fail(RgbaFailure::Lost(why))
                    },
                    None => {
                        if elapsed_us > QUERY_TIMEOUT_US {
                            *self = RgbaStage::Over;
                            RgbaAction::Fail(RgbaFailure::TimedOut(last_error))
                        } else {
                            RgbaAction::Ask
                        }
                    },
                }
            },
        }
    }
}

/// How far a conversion has come.
pub open spec fn rgba_rank(stage: RgbaStage) -> int {
    match stage {
        RgbaStage::Uploading => 0,
        RgbaStage::CheckingUpload => 1,
        RgbaStage::WritingParams => 2,
        RgbaStage::Dispatching => 3,
        RgbaStage::CheckingRun => 4,
        RgbaStage::Copying => 5,
        RgbaStage::Waiting => 6,
        RgbaStage::CheckingCopy => 7,
        RgbaStage::Reading => 8,
        RgbaStage::Over => 9,
    }
}

/// A conversion goes forward with every step but asking again, which it does no
/// longer once the time is up; and it is over exactly when it is done or failed.
pub proof fn rgba_conversion_ends(stage: RgbaStage, ev: RgbaEvent)
    requires
        rgba_answers(stage, ev),
    ensures
        ({
            let (next, action) = rgba_next(stage, ev);
            &&& next == stage ==> action is Ask && ev->elapsed_us <= QUERY_TIMEOUT_US
            &&& next != stage ==> rgba_rank(next) > rgba_rank(stage)
            &&& (next is Over) == (action is Done || action is Fail)
        }),
{
}

/// A converter from NV12. The size is zero until the first frame.
#[derive(Debug, Clone, Copy, PartialEq, Eq, Structural)]
pub struct D3d11Nv12ToRgba {
    pub full_range: bool,
    /// There is a buffer for the gamma that is set at run time.
    pub has_gamma_params: bool,
    /// There is a buffer for the size.
    pub has_size_params: bool,
    pub has_output: bool,
    /// The address of the texture that is shown, where it has one.
    pub shared_handle: Option<usize>,
    pub width: u32,
    pub height: u32,
}

/// The textures of a converter from NV12.
#[derive(Debug, Clone, Copy, PartialEq, Eq, Structural)]
pub struct Nv12Resources {
    /// Written by the shader.
    pub output: TextureDesc,
    /// Its copy, which is shown and shared.
    pub display: TextureDesc,
    /// The frame's copy, which the shader reads.
    pub staging: TextureDesc,
}

/// The textures for frames of a size. The texture that the shader writes is not
/// shared, and the one that is shared is not written by it.
pub open spec fn nv12_resources(width: u32, height: u32) -> Nv12Resources {
    Nv12Resources {
        output: d3d11::gpu_texture(
            width,
            height,
            FORMAT_R8G8B8A8_UNORM,
            BIND_UNORDERED_ACCESS | BIND_SHADER_RESOURCE,
        ),
        display: TextureDesc {
            misc_flags: MISC_SHARED,
            ..d3d11::gpu_texture(width, height, FORMAT_R8G8B8A8_UNORM, BIND_SHADER_RESOURCE)
        },
        staging: d3d11::gpu_texture(width, height, FORMAT_NV12, BIND_SHADER_RESOURCE),
    }
}

/// How a frame is converted.
#[derive(Debug, Clone, Copy, PartialEq, Eq, Structural)]
pub struct Nv12Plan {
    /// The textures to create first, where there are none of that size.
    pub create: Option<Nv12Resources>,
    /// How many constant buffers are bound.
    pub params_bound: u32,
    pub groups_x: u32,
    pub groups_y: u32,
}

impl D3d11Nv12ToRgba {
    /// A converter before its first frame.
    pub fn new(full_range: Option<&str>, default_full_range: bool, colors: ColorConfig, uv_bilinear:
        Option<&str>) -> (r: D3d11Nv12ToRgba)
        ensures
            r.full_range == match full_range {
                Some(s) => switched_on(s@),
                None => default_full_range,
            },
            r.has_gamma_params == colors.use_runtime_gamma,
            r.has_size_params == match uv_bilinear {
                Some(s) => switched_on(s@),
                None => false,
            },
            !r.has_output,
            r.shared_handle is None,
            r.width == 0,
            r.height == 0,
    {
        D3d11Nv12ToRgba {
            full_range: flag_or(full_range, default_full_range),
            has_gamma_params: colors.use_runtime_gamma,
            has_size_params: flag_or(uv_bilinear, false),
            has_output: false,
            shared_handle: None,
            width: 0,
            height: 0,
        }
    }

    /// Whether frames use the full range of values.
    pub fn full_range(&self) -> (r: bool)
        ensures
            r == self.full_range,
    {
        self.full_range
    }

    /// Plans a frame. Textures are created where there are none of that size.
    pub fn convert(&self, width: u32, height: u32) -> (r: Nv12Plan)
        requires
            width + 7 <= u32::MAX,
            height + 7 <= u32::MAX,
        ensures
            r.create == if self.has_output && self.width == width && self.height == height {
                None
            } else {
                Some(nv12_resources(width, height))
            },
            r.params_bound == (if self.has_gamma_params {
                1int
            } else {
                0
            }) + (if self.has_size_params {
                1int
            } else {
                0
            }),
            r.groups_x == d3d11::groups_over(width as int, 8),
            r.groups_y == d3d11::groups_over(height as int, 8),
    {
        let create: Option<Nv12Resources> = if !self.has_output || self.width != width
            || self.height != height {
            Some(
                Nv12Resources {
                    output: d3d11::make_gpu_texture(
                        width,
                        height,
                        FORMAT_R8G8B8A8_UNORM,
                        BIND_UNORDERED_ACCESS | BIND_SHADER_RESOURCE,
                    ),
                    display: TextureDesc {
                        width,
                        height,
                        format: FORMAT_R8G8B8A8_UNORM,
                        usage: USAGE_DEFAULT,
                        bind_flags: BIND_SHADER_RESOURCE,
                        cpu_access: 0,
                        misc_flags: MISC_SHARED,
                    },
                    staging: d3d11::make_gpu_texture(
                        width,
                        height,
                        FORMAT_NV12,
                        BIND_SHADER_RESOURCE,
                    ),
                },
            )
        } else {
            None
        };
        let gamma: u32 = if self.has_gamma_params {
            1
        } else {
            0
        };
        let size: u32 = if self.has_size_params {
            1
        } else {
            0
        };
        Nv12Plan {
            create,
            params_bound: gamma + size,
            groups_x: d3d11::groups8(width),
            groups_y: d3d11::groups8(height),
        }
    }

    /// Notes that the textures were created; `display` is the address of the one
    /// that is shown.
    pub fn resources_created(&mut self, width: u32, height: u32, display: usize)
        ensures
            final(self).has_output,
            final(self).width == width,
            final(self).height == height,
            final(self).shared_handle == if display == 0 {
                None
            } else {
                Some(display)
            },
            final(self).full_range == old(self).full_range,
            final(self).has_gamma_params == old(self).has_gamma_params,
            final(self).has_size_params == old(self).has_size_params,
    {
        self.has_output = true;
        self.width = width;
        self.height = height;
        self.shared_handle = if display == 0 {
            None
        } else {
            Some(display)
        };
    }

    /// The address of the texture that is shown, where there is one.
    pub fn get_shared_handle(&self) -> (r: Option<usize>)
        ensures
            r == self.shared_handle,
    {
        self.shared_handle
    }
}

/// The view of a plane of NV12: its format, and which slice it is.
pub fn nv12_plane_view(y_plane: bool) -> (r: (u32, u32))
    ensures
        y_plane ==> r == (FORMAT_R8_UNORM, 0u32),
        !y_plane ==> r == (FORMAT_R8G8_UNORM, 1u32),
{
    if y_plane {
        (FORMAT_R8_UNORM, 0)
    } else {
        (FORMAT_R8G8_UNORM, 1)
    }
}

/// The copy of a result for the CPU to read, and the number of its bytes.
pub fn rgba_readback(width: u32, height: u32) -> (r: (TextureDesc, usize))
    requires
        luma_len(width, height) * 4 <= u32::MAX,
    ensures
        r.0 == d3d11::staging_texture(width, height, FORMAT_R8G8B8A8_UNORM, CPU_ACCESS_READ),
        r.1 == luma_len(width, height) * 4,
{
    (
        d3d11::make_staging_texture(width, height, FORMAT_R8G8B8A8_UNORM, CPU_ACCESS_READ),
        (width * height * 4) as usize,
    )
}

} // verus!
