//! One encoder over two backends: NVENC where it is to be had, a Media
//! Foundation transform otherwise, and a change from the first to the second when
//! NVENC fails during a session. The backends are driven by the caller, who
//! performs the action that a step asks for and hands back what came of it.
use vstd::prelude::*;

use crate::mft_encoder::{self, MftEncoderError, MftH264Encoder};
use crate::text;

verus! {

/// Which backend encodes.
#[derive(Debug, Clone, Copy, PartialEq, Eq, Structural)]
pub enum EncodedBackendKind {
    NvencD3d11,
    MftHardware,
    MftSoftware,
}

/// A failure of NVENC, and whether the other backend may take its place.
#[derive(Debug, Clone, PartialEq, Eq)]
pub struct NvencD3d11Error {
    pub message: String,
    pub fallback: bool,
}

impl NvencD3d11Error {
    /// Whether the other backend may take NVENC's place.
    pub fn should_fallback_to_mft(&self) -> (r: bool)
        ensures
            r == self.fallback,
    {
        self.fallback
    }
}

/// Why an operation of the encoder failed.
#[derive(Debug, Clone, PartialEq, Eq)]
pub enum EncodedH264EncoderError {
    Nvenc(NvencD3d11Error),
    Mft(MftEncoderError),
}

impl EncodedH264EncoderError {
    /// The text of the error.
    pub fn message(&self) -> (r: String)
        ensures
            r@ == match *self {
                EncodedH264EncoderError::Nvenc(e) => "NVENC D3D11: "@ + e.message@,
                EncodedH264EncoderError::Mft(e) => "MFT: "@ + mft_encoder::error_text(e@),
            },
    {
        let mut r = String::new();
        match self {
            EncodedH264EncoderError::Nvenc(e) => {
                r.push_str("NVENC D3D11: ");
                r.push_str(e.message.as_str());
                assert(r@ =~= "NVENC D3D11: "@ + e.message@);
            },
            EncodedH264EncoderError::Mft(e) => {
                let text = e.message();
                r.push_str("MFT: ");
                r.push_str(text.as_str());
                assert(r@ =~= "MFT: "@ + mft_encoder::error_text(e@));
            },
        }
        r
    }
}

/// What is known of an NVENC session.
#[derive(Debug, Clone, PartialEq, Eq)]
pub struct NvencSession {
    pub encoder_name: String,
    pub is_async: bool,
    pub is_hardware: bool,
    pub uses_rgb_input: bool,
    pub input_ring_size: usize,
    pub in_flight_count: usize,
}

/// The backend in use.
#[derive(Debug)]
pub enum Backend {
    Nvenc(NvencSession),
    Mft(MftH264Encoder),
}

/// What a backend is built for.
#[derive(Debug, Clone, Copy, PartialEq, Eq, Structural)]
pub struct EncodedBackendConfig {
    pub width: u32,
    pub height: u32,
    pub fps: u32,
    pub bitrate: u32,
    pub allow_runtime_mft_fallback: bool,
}

/// The encoder.
#[derive(Debug)]
pub struct EncodedH264Encoder {
    pub inner: Backend,
    pub config: EncodedBackendConfig,
}

/// An operation on the backend.
#[derive(Debug, Clone, Copy, PartialEq, Eq, Structural)]
pub enum Operation {
    Encode,
    Submit,
    Collect,
    CollectBlocking,
    SetBitrate(u32),
}

/// Where an operation stands.
#[derive(Debug, Clone, Copy, PartialEq, Eq, Structural)]
pub enum CallStage {
    /// The operation is being run on the backend in use.
    Running,
    /// A transform is being built to take NVENC's place.
    Rebuilding,
    /// The operation is over.
    Over,
}

/// An operation in progress.
#[derive(Debug, Clone, Copy, PartialEq, Eq, Structural)]
pub struct Call {
    pub operation: Operation,
    pub stage: CallStage,
    pub fallback_attempted: bool,
}

/// What came of the action that a step asked for.
#[derive(Debug)]
pub enum CallEvent {
    Succeeded,
    Failed(EncodedH264EncoderError),
    Built(MftH264Encoder),
    BuildFailed(MftEncoderError),
}

/// What to do next.
#[derive(Debug, PartialEq, Eq)]
pub enum CallAction {
    /// Run the operation on the backend in use.
    Run,
    /// Build a transform for the encoder's configuration.
    BuildMft,
    /// The operation succeeded with the result of its last run.
    Return,
    Fail(EncodedH264EncoderError),
}

/// Whether the event answers the stage's action. An operation fails with an
/// error of the backend that it was run on.
pub open spec fn call_answers(enc: EncodedH264Encoder, call: Call, ev: CallEvent) -> bool {
    match (call.stage, ev) {
        (CallStage::Running, CallEvent::Succeeded) => true,
        (CallStage::Running, CallEvent::Failed(e)) => (e is Nvenc) == (enc.inner is Nvenc),
        (CallStage::Rebuilding, CallEvent::Built(_)) => true,
        (CallStage::Rebuilding, CallEvent::BuildFailed(_)) => true,
        _ => false,
    }
}

/// Whether a failure of NVENC leads to a rebuild.
pub open spec fn falls_back(
    config: EncodedBackendConfig,
    call: Call,
    e: EncodedH264EncoderError,
) -> bool {
    match e {
        EncodedH264EncoderError::Nvenc(n) => !call.fallback_attempted
            && config.allow_runtime_mft_fallback && n.fallback,
        EncodedH264EncoderError::Mft(_) => false,
    }
}

/// The configuration after an operation that succeeded.
pub open spec fn config_after(config: EncodedBackendConfig, op: Operation) -> EncodedBackendConfig {
    match op {
        Operation::SetBitrate(bitrate) => EncodedBackendConfig { bitrate, ..config },
        _ => config,
    }
}

impl Call {
    /// Begins an operation, which is to be run on the backend in use.
    pub fn begin(operation: Operation) -> (r: Call)
        ensures
            r == (Call { operation, stage: CallStage::Running, fallback_attempted: false }),
    {
        Call { operation, stage: CallStage::Running, fallback_attempted: false }
    }
}

/// Whether new rates can be put in force on the backend in use, or it has to be
/// built anew.
#[derive(Debug, Clone, Copy, PartialEq, Eq, Structural)]
pub enum RatesPlan {
    /// Only the bit rate changes: run this operation.
    Bitrate(Operation),
    /// Build a backend of the kind in use for these rates.
    Rebuild { nvenc: bool, fps: u32, bitrate: u32 },
}

/// What came of building a backend for new rates.
#[derive(Debug)]
pub enum RatesEvent {
    NvencBuilt(NvencSession),
    NvencFailed(NvencD3d11Error),
    MftBuilt(MftH264Encoder),
    MftFailed(MftEncoderError),
}

/// What to do next to put new rates in force.
#[derive(Debug, PartialEq, Eq)]
pub enum RatesAction {
    /// The rates are in force.
    Done,
    /// Build a transform for the rates in NVENC's place.
    BuildMft,
    Fail(EncodedH264EncoderError),
}

/// What to do next to open an encoder of either kind.
#[derive(Debug)]
pub enum AutoStep {
    Ready(EncodedH264Encoder),
    /// NVENC is not to be had: build a transform.
    BuildMft,
    Fail(EncodedH264EncoderError),
}

impl EncodedH264Encoder {
    /// An encoder over a transform, which stays with it.
    pub fn new_mft(mft: MftH264Encoder, width: u32, height: u32, fps: u32, bitrate: u32) -> (r:
        EncodedH264Encoder)
        ensures
            r.inner == Backend::Mft(mft),
            r.config == (EncodedBackendConfig {
                width,
                height,
                fps,
                bitrate,
                allow_runtime_mft_fallback: false,
            }),
    {
        EncodedH264Encoder {
            inner: Backend::Mft(mft),
            config: EncodedBackendConfig {
                width,
                height,
                fps,
                bitrate,
                allow_runtime_mft_fallback: false,
            },
        }
    }

    /// An encoder over NVENC where that could be opened; else a transform is to
    /// be built, unless the failure forbids it.
    pub fn new_auto(
        nvenc: Result<NvencSession, NvencD3d11Error>,
        width: u32,
        height: u32,
        fps: u32,
        bitrate: u32,
    ) -> (r: AutoStep)
        ensures
            match (nvenc, r) {
                (Ok(session), AutoStep::Ready(enc)) => enc.inner == Backend::Nvenc(session)
                    && enc.config == (EncodedBackendConfig {
                    width,
                    height,
                    fps,
                    bitrate,
                    allow_runtime_mft_fallback: true,
                }),
                (Err(e), AutoStep::BuildMft) => e.fallback,
                (Err(e), AutoStep::Fail(f)) => !e.fallback && f == EncodedH264EncoderError::Nvenc(
                    e,
                ),
                _ => false,
            },
    {
        match nvenc {
            Ok(session) => AutoStep::Ready(
                EncodedH264Encoder {
                    inner: Backend::Nvenc(session),
                    config: EncodedBackendConfig {
                        width,
                        height,
                        fps,
                        bitrate,
                        allow_runtime_mft_fallback: true,
                    },
                },
            ),
            Err(e) => {
                if e.should_fallback_to_mft() {
                    AutoStep::BuildMft
                } else {
                    AutoStep::Fail(EncodedH264EncoderError::Nvenc(e))
                }
            },
        }
    }

    /// An encoder over the transform that was built because NVENC is not to be
    /// had.
    pub fn auto_over_mft(
        mft: Result<MftH264Encoder, MftEncoderError>,
        width: u32,
        height: u32,
        fps: u32,
        bitrate: u32,
    ) -> (r: Result<EncodedH264Encoder, EncodedH264EncoderError>)
        ensures
            match (mft, r) {
                (Ok(m), Ok(enc)) => enc.inner == Backend::Mft(m) && enc.config == (
                EncodedBackendConfig {
                    width,
                    height,
                    fps,
                    bitrate,
                    allow_runtime_mft_fallback: true,
                }),
                (Err(e), Err(f)) => f == EncodedH264EncoderError::Mft(e),
                _ => false,
            },
    {
        match mft {
            Ok(m) => Ok(
                EncodedH264Encoder {
                    inner: Backend::Mft(m),
                    config: EncodedBackendConfig {
                        width,
                        height,
                        fps,
                        bitrate,
                        allow_runtime_mft_fallback: true,
                    },
                },
            ),
            Err(e) => Err(EncodedH264EncoderError::Mft(e)),
        }
    }

    /// Goes on with an operation, given what came of its last action. NVENC may
    /// fail once: then, where that is allowed, a transform takes its place and
    /// the operation is run again.
    pub fn call_step(&mut self, call: &mut Call, ev: CallEvent) -> (r: CallAction)
        requires
            call_answers(*old(self), *old(call), ev),
        ensures
            final(call).operation == old(call).operation,
            final(call).stage == call_follows(old(self).config, *old(call), ev).stage,
            final(call).stage != CallStage::Over ==> *final(call) == call_follows(
                old(self).config,
                *old(call),
                ev,
            ),
            match ev {
                CallEvent::Succeeded => r == CallAction::Return && final(call).stage
                    == CallStage::Over && final(call).fallback_attempted
                    == old(call).fallback_attempted && final(self).inner == old(self).inner
                    && final(self).config == config_after(
                    old(self).config,
                    old(call).operation,
                ),
                CallEvent::Failed(e) => *final(self) == *old(self) && if falls_back(
                    old(self).config,
                    *old(call),
                    e,
                ) {
                    r == CallAction::BuildMft && final(call).stage == CallStage::Rebuilding
                        && final(call).fallback_attempted
                } else {
                    r == CallAction::Fail(e) && final(call).stage == CallStage::Over
                },
                CallEvent::Built(mft) => r == CallAction::Run && final(call).stage
                    == CallStage::Running && final(call).fallback_attempted
                    == old(call).fallback_attempted && final(self).inner == Backend::Mft(mft)
                    && final(self).config == old(self).config,
                CallEvent::BuildFailed(e) => r == CallAction::Fail(EncodedH264EncoderError::Mft(e))
                    && final(call).stage == CallStage::Over && *final(self) == *old(self),
            },
    {
        match ev {
            CallEvent::Succeeded => {
                if let Operation::SetBitrate(bitrate) = call.operation {
                    self.config.bitrate = bitrate;
                }
                call.stage = CallStage::Over;
                CallAction::Return
            },
            CallEvent::Failed(e) => {
                let mut rebuild = false;
                if let EncodedH264EncoderError::Nvenc(n) = &e {
                    if !call.fallback_attempted {
                        call.fallback_attempted = true;
                        rebuild =
                        self.config.allow_runtime_mft_fallback && n.should_fallback_to_mft();
                    }
                }
                if rebuild {
                    call.stage = CallStage::Rebuilding;
                    CallAction::BuildMft
                } else {
                    call.stage = CallStage::Over;
                    CallAction::Fail(e)
                }
            },
            CallEvent::Built(mft) => {
                self.inner = Backend::Mft(mft);
                call.stage = CallStage::Running;
                CallAction::Run
            },
            CallEvent::BuildFailed(e) => {
                call.stage = CallStage::Over;
                CallAction::Fail(EncodedH264EncoderError::Mft(e))
            },
        }
    }

    /// How new rates are put in force. A frame rate of zero counts as one.
    pub fn set_rates(&self, fps: u32, bitrate: u32) -> (r: RatesPlan)
        ensures
            ({
                let fps = if fps == 0 {
                    1
                } else {
                    fps
                };
                r == if fps == self.config.fps {
                    RatesPlan::Bitrate(Operation::SetBitrate(bitrate))
                } else {
                    RatesPlan::Rebuild { nvenc: self.inner is Nvenc, fps, bitrate }
                }
            }),
    {
        let fps: u32 = if fps == 0 {
            1
        } else {
            fps
        };
        if fps == self.config.fps {
            RatesPlan::Bitrate(Operation::SetBitrate(bitrate))
        } else {
            let nvenc = match &self.inner {
                Backend::Nvenc(_) => true,
                Backend::Mft(_) => false,
            };
            RatesPlan::Rebuild { nvenc, fps, bitrate }
        }
    }

    /// Goes on with putting new rates in force, given what came of building a
    /// backend for them. The backend in use stays until another is ready.
    pub fn rates_step(&mut self, fps: u32, bitrate: u32, ev: RatesEvent) -> (r: RatesAction)
        ensures
            match ev {
                RatesEvent::NvencBuilt(session) => r == RatesAction::Done && final(self).inner
                    == Backend::Nvenc(session) && final(self).config == (EncodedBackendConfig {
                    fps,
                    bitrate,
                    ..old(self).config
                }),
                RatesEvent::NvencFailed(e) => *final(self) == *old(self) && r == if old(
                    self,
                ).config.allow_runtime_mft_fallback && e.fallback {
                    RatesAction::BuildMft
                } else {
                    RatesAction::Fail(EncodedH264EncoderError::Nvenc(e))
                },
                RatesEvent::MftBuilt(mft) => r == RatesAction::Done && final(self).inner
                    == Backend::Mft(mft) && final(self).config == (EncodedBackendConfig {
                    fps,
                    bitrate,
                    ..old(self).config
                }),
                RatesEvent::MftFailed(e) => *final(self) == *old(self) && r == RatesAction::Fail(
                    EncodedH264EncoderError::Mft(e),
                ),
            },
    {
        match ev {
            RatesEvent::NvencBuilt(session) => {
                self.inner = Backend::Nvenc(session);
                self.config.fps = fps;
                self.config.bitrate = bitrate;
                RatesAction::Done
            },
            RatesEvent::NvencFailed(e) => {
                if self.config.allow_runtime_mft_fallback && e.should_fallback_to_mft() {
                    RatesAction::BuildMft
                } else {
                    RatesAction::Fail(EncodedH264EncoderError::Nvenc(e))
                }
            },
            RatesEvent::MftBuilt(mft) => {
                self.inner = Backend::Mft(mft);
                self.config.fps = fps;
                self.config.bitrate = bitrate;
                RatesAction::Done
            },
            RatesEvent::MftFailed(e) => RatesAction::Fail(EncodedH264EncoderError::Mft(e)),
        }
    }

    /// Whether the backend works asynchronously.
    pub fn is_async(&self) -> (r: bool)
        ensures
            r == match self.inner {
                Backend::Nvenc(s) => s.is_async,
                Backend::Mft(m) => m.is_async,
            },
    {
        match &self.inner {
            Backend::Nvenc(s) => s.is_async,
            Backend::Mft(m) => m.is_async(),
        }
    }

    /// Whether the backend runs on hardware.
    pub fn is_hardware(&self) -> (r: bool)
        ensures
            r == match self.inner {
                Backend::Nvenc(s) => s.is_hardware,
                Backend::Mft(m) => m.is_hardware,
            },
    {
        match &self.inner {
            Backend::Nvenc(s) => s.is_hardware,
            Backend::Mft(m) => m.is_hardware(),
        }
    }

    /// Whether NVENC takes RGB input; a transform never does.
    pub fn nvenc_uses_rgb_input(&self) -> (r: bool)
        ensures
            r == match self.inner {
                Backend::Nvenc(s) => s.uses_rgb_input,
                Backend::Mft(_) => false,
            },
    {
        match &self.inner {
            Backend::Nvenc(s) => s.uses_rgb_input,
            Backend::Mft(_) => false,
        }
    }

    /// The size of NVENC's input ring.
    pub fn nvenc_input_ring_size(&self) -> (r: Option<usize>)
        ensures
            r == match self.inner {
                Backend::Nvenc(s) => Some(s.input_ring_size),
                Backend::Mft(_) => None,
            },
    {
        match &self.inner {
            Backend::Nvenc(s) => Some(s.input_ring_size),
            Backend::Mft(_) => None,
        }
    }

    /// How many frames NVENC has in flight.
    pub fn nvenc_in_flight_count(&self) -> (r: Option<usize>)
        ensures
            r == match self.inner {
                Backend::Nvenc(s) => Some(s.in_flight_count),
                Backend::Mft(_) => None,
            },
    {
        match &self.inner {
            Backend::Nvenc(s) => Some(s.in_flight_count),
            Backend::Mft(_) => None,
        }
    }

    /// Which backend is in use.
    pub fn backend_kind(&self) -> (r: EncodedBackendKind)
        ensures
            r == match self.inner {
                Backend::Nvenc(_) => EncodedBackendKind::NvencD3d11,
                Backend::Mft(m) => if m.is_hardware {
                    EncodedBackendKind::MftHardware
                } else {
                    EncodedBackendKind::MftSoftware
                },
            },
    {
        match &self.inner {
            Backend::Nvenc(_) => EncodedBackendKind::NvencD3d11,
            Backend::Mft(m) => {
                if m.is_hardware() {
                    EncodedBackendKind::MftHardware
                } else {
                    EncodedBackendKind::MftSoftware
                }
            },
        }
    }

    /// The backend's name.
    pub fn encoder_name(&self) -> (r: &str)
        ensures
            r@ == match self.inner {
                Backend::Nvenc(s) => s.encoder_name@,
                Backend::Mft(m) => m.encoder_name@,
            },
    {
        match &self.inner {
            Backend::Nvenc(s) => s.encoder_name.as_str(),
            Backend::Mft(m) => m.encoder_name(),
        }
    }

    /// The backend's name as it is reported, without trailing zeros.
    pub fn reported_name(&self) -> (r: String)
        ensures
            r@ == text::end_trimmed(
                match self.inner {
                    Backend::Nvenc(s) => s.encoder_name@,
                    Backend::Mft(m) => m.encoder_name@,
                },
                Some('\0'),
            ),
    {
        text::trim_end_matches(self.encoder_name(), '\0')
    }

    /// The bit rate in force.
    pub fn bitrate_bps(&self) -> (r: u32)
        ensures
            r == self.config.bitrate,
    {
        self.config.bitrate
    }

    /// The frame rate in force.
    pub fn fps(&self) -> (r: u32)
        ensures
            r == self.config.fps,
    {
        self.config.fps
    }
}

/// How far an operation has come: after a rebuild it can only be run once more.
pub open spec fn call_rank(call: Call) -> int {
    match (call.stage, call.fallback_attempted) {
        (CallStage::Running, false) => 0,
        (CallStage::Rebuilding, _) => 1,
        (CallStage::Running, true) => 2,
        (CallStage::Over, _) => 3,
    }
}

/// What an operation may be followed by: the stages that `call_step` leads to.
pub open spec fn call_follows(config: EncodedBackendConfig, call: Call, ev: CallEvent) -> Call {
    match ev {
        CallEvent::Succeeded => Call { stage: CallStage::Over, ..call },
        CallEvent::Failed(e) => if falls_back(config, call, e) {
            Call { stage: CallStage::Rebuilding, fallback_attempted: true, ..call }
        } else {
            Call { stage: CallStage::Over, ..call }
        },
        CallEvent::Built(_) => Call { stage: CallStage::Running, ..call },
        CallEvent::BuildFailed(_) => Call { stage: CallStage::Over, ..call },
    }
}

/// An operation goes forward with every step: a backend is rebuilt at most once
/// during it, and it ends.
pub proof fn at_most_one_fallback(enc: EncodedH264Encoder, call: Call, ev: CallEvent)
    requires
        call_answers(enc, call, ev),
        call.stage == CallStage::Rebuilding ==> call.fallback_attempted,
    ensures
        call_rank(call_follows(enc.config, call, ev)) > call_rank(call),
        call.fallback_attempted ==> call_follows(enc.config, call, ev).stage
            != CallStage::Rebuilding,
        call_follows(enc.config, call, ev).stage == CallStage::Rebuilding ==> call_follows(
            enc.config,
            call,
            ev,
        ).fallback_attempted && enc.inner is Nvenc,
{
}

} // verus!
