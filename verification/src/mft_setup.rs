//! Setting up a Media Foundation encoder: which transform is taken, which media
//! types are tried, the attribute values and codec settings, and what is read
//! out of its samples.
use vstd::prelude::*;

use crate::h264;
use crate::mft_encoder::{EncodedFrame, MftEncoderError, MftErrorView};
use crate::text;

verus! {

/// How many of a transform's media types are looked at.
pub const MAX_MEDIA_TYPES: u32 = 32;

/// The seconds between group headers where nothing else is asked for.
pub const DEFAULT_GOP_SECS: u32 = 12;

/// Two numbers in one attribute: `high` in the upper half, `low` in the lower.
pub open spec fn packed(high: u32, low: u32) -> int {
    high * 0x1_0000_0000 + low
}

fn pack(high: u32, low: u32) -> (r: u64)
    ensures
        r == packed(high, low),
{
    let r: u64 = ((high as u64) << 32) | (low as u64);
    assert(r == (high as u64) * 0x1_0000_0000 + (low as u64)) by (bit_vector)
        requires
            r == ((high as u64) << 32) | (low as u64),
    ;
    r
}

/// The frame size attribute: the width in the upper half.
pub fn frame_size_attribute(width: u32, height: u32) -> (r: u64)
    ensures
        r == packed(width, height),
{
    pack(width, height)
}

/// The frame rate attribute: the rate in the upper half, over one.
pub fn frame_rate_attribute(fps: u32) -> (r: u64)
    ensures
        r == packed(fps, 1),
{
    pack(fps, 1)
}

/// Different sizes have different attributes.
pub proof fn frame_size_is_injective(w1: u32, h1: u32, w2: u32, h2: u32)
    requires
        packed(w1, h1) == packed(w2, h2),
    ensures
        w1 == w2,
        h1 == h2,
{
}

/// What is set on a media type. The bit rate stands on the output only.
#[derive(Debug, Clone, Copy, PartialEq, Eq, Structural)]
pub struct TypeAttributes {
    pub bitrate_bps: Option<u32>,
    pub frame_size: u64,
    pub frame_rate: u64,
}

/// The attributes of the output type.
pub fn create_output_media_type(width: u32, height: u32, fps: u32, bitrate_bps: u32) -> (r:
    TypeAttributes)
    ensures
        r.bitrate_bps == Some(bitrate_bps),
        r.frame_size == packed(width, height),
        r.frame_rate == packed(fps, 1),
{
    TypeAttributes {
        bitrate_bps: Some(bitrate_bps),
        frame_size: frame_size_attribute(width, height),
        frame_rate: frame_rate_attribute(fps),
    }
}

/// The attributes of the input type.
pub fn create_input_media_type(width: u32, height: u32, fps: u32) -> (r: TypeAttributes)
    ensures
        r.bitrate_bps is None,
        r.frame_size == packed(width, height),
        r.frame_rate == packed(fps, 1),
{
    TypeAttributes {
        bitrate_bps: None,
        frame_size: frame_size_attribute(width, height),
        frame_rate: frame_rate_attribute(fps),
    }
}

/// The time of a sample and its duration, in units of a hundred nanoseconds.
#[derive(Debug, Clone, Copy, PartialEq, Eq, Structural)]
pub struct SampleTimes {
    pub time: i64,
    pub duration: i64,
}

/// The times of the sample of a frame that was captured at `timestamp_us`.
pub fn sample_times(timestamp_us: i64, fps: u32) -> (r: SampleTimes)
    requires
        fps > 0,
        i64::MIN <= timestamp_us * 10 <= i64::MAX,
    ensures
        r.time == timestamp_us * 10,
        r.duration == 10_000_000int / fps as int,
{
    SampleTimes { time: timestamp_us * 10, duration: 10_000_000 / (fps as i64) }
}

/// The codec's settings, by the values that are set.
#[derive(Debug, Clone, Copy, PartialEq, Eq, Structural)]
pub struct CodecSettings {
    pub b_picture_count: u32,
    pub low_latency: u32,
    /// 0 for a constant bit rate, 4 for a variable one with low delay.
    pub rate_control_mode: u32,
    pub mean_bit_rate: u32,
    pub gop_size: u32,
    pub quality_vs_speed: u32,
    pub cabac_enable: u32,
    pub worker_threads: u32,
    pub intra_refresh_mode: u32,
    pub slice_size_control_mode: Option<u32>,
}

/// The seconds between group headers: what the text asks for, at least one, and
/// twelve where it is absent or no number.
pub open spec fn gop_seconds(asked: Option<Seq<char>>) -> nat {
    let n = match asked {
        Some(s) => match text::parsed_unsigned(s, u32::MAX as nat) {
            Some(n) => n,
            None => DEFAULT_GOP_SECS as nat,
        },
        None => DEFAULT_GOP_SECS as nat,
    };
    if n < 1 {
        1
    } else {
        n
    }
}

/// Whether the text switches something off: `0`, or `false` in any case.
pub open spec fn switched_off(asked: Option<Seq<char>>) -> bool {
    match asked {
        Some(s) => s == "0"@ || text::ascii_lowered(s) == text::ascii_lowered("false"@),
        None => false,
    }
}

/// A text that may be absent, by its characters.
pub open spec fn opt_view(s: Option<&str>) -> Option<Seq<char>> {
    match s {
        Some(t) => Some(t@),
        None => None,
    }
}

/// Whether the text switches something off.
pub fn is_switched_off(asked: Option<&str>) -> (r: bool)
    ensures
        r == switched_off(opt_view(asked)),
{
    match asked {
        Some(s) => text::same(s, "0") || text::eq_ignore_ascii_case(s, "false"),
        None => false,
    }
}

/// The codec's settings for a stream. `gop_secs` and `slice_constrained` are
/// what the environment asks for.
pub fn codec_settings(
    fps: u32,
    bitrate_bps: u32,
    gop_secs: Option<&str>,
    slice_constrained: Option<&str>,
) -> (r: CodecSettings)
    ensures
        r.b_picture_count == 0,
        r.low_latency == 1,
        r.rate_control_mode == if fps >= 60 {
            0int
        } else {
            4
        },
        r.mean_bit_rate == bitrate_bps,
        r.gop_size == if fps * gop_seconds(opt_view(gop_secs)) > u32::MAX {
            u32::MAX as int
        } else {
            fps * gop_seconds(opt_view(gop_secs))
        },
        r.quality_vs_speed == 100,
        r.cabac_enable == 0,
        r.worker_threads == 4,
        r.intra_refresh_mode == 2,
        r.slice_size_control_mode == if switched_off(opt_view(slice_constrained)) {
            None
        } else {
            Some(2u32)
        },
{
    let asked: u64 = match gop_secs {
        Some(s) => match text::parse_unsigned(s, u32::MAX as u64) {
            Some(n) => n,
            None => DEFAULT_GOP_SECS as u64,
        },
        None => DEFAULT_GOP_SECS as u64,
    };
    let secs: u64 = if asked < 1 {
        1
    } else {
        asked
    };
    assert((fps as u64) * secs <= u64::MAX) by (nonlinear_arith)
        requires
            fps <= u32::MAX,
            secs <= u32::MAX,
    ;
    let frames: u64 = (fps as u64) * secs;
    let slice: Option<u32> = if is_switched_off(slice_constrained) {
        None
    } else {
        Some(2)
    };
    CodecSettings {
        b_picture_count: 0,
        low_latency: 1,
        rate_control_mode: if fps >= 60 {
            0
        } else {
            4
        },
        mean_bit_rate: bitrate_bps,
        gop_size: if frames > u32::MAX as u64 {
            u32::MAX
        } else {
            frames as u32
        },
        quality_vs_speed: 100,
        cabac_enable: 0,
        worker_threads: 4,
        intra_refresh_mode: 2,
        slice_size_control_mode: slice,
    }
}

/// What came of trying a hardware transform.
#[derive(Debug, Clone, Copy, PartialEq, Eq, Structural)]
pub struct HardwareTrial {
    /// It is listed and could be activated.
    pub activated: bool,
    /// It took the device manager.
    pub accepts_d3d: bool,
}

/// Which transform encodes.
#[derive(Debug, Clone, Copy, PartialEq, Eq, Structural)]
pub enum EncoderChoice {
    Hardware(usize),
    Software,
}

/// The first trial that ended with a usable transform, or the length.
pub open spec fn first_usable(trials: Seq<HardwareTrial>) -> int
    decreases trials.len(),
{
    if trials.len() == 0 || (trials[0].activated && trials[0].accepts_d3d) {
        0
    } else {
        1 + first_usable(trials.drop_first())
    }
}

/// `first_usable` is the first usable trial, if there is one.
pub proof fn first_usable_is_first(trials: Seq<HardwareTrial>)
    ensures
        0 <= first_usable(trials) <= trials.len(),
        first_usable(trials) < trials.len() ==> trials[first_usable(trials)].activated
            && trials[first_usable(trials)].accepts_d3d,
        forall|i: int|
            0 <= i < first_usable(trials) ==> !((#[trigger] trials[i]).activated
                && trials[i].accepts_d3d),
    decreases trials.len(),
{
    if trials.len() > 0 && !(trials[0].activated && trials[0].accepts_d3d) {
        first_usable_is_first(trials.drop_first());
        assert forall|i: int| 0 <= i < first_usable(trials) implies !((
        #[trigger] trials[i]).activated && trials[i].accepts_d3d) by {
            if i > 0 {
                assert(trials[i] == trials.drop_first()[i - 1]);
            }
        }
    }
}

/// Chooses a transform: the first hardware one that is usable unless software is
/// preferred, else the software one, where one is listed.
pub fn create_mft(
    prefer_software: bool,
    hardware: &Vec<HardwareTrial>,
    software_listed: bool,
) -> (r: Result<EncoderChoice, MftEncoderError>)
    ensures
        match r {
            Ok(EncoderChoice::Hardware(i)) => !prefer_software && i == first_usable(hardware@) && i
                < hardware@.len(),
            Ok(EncoderChoice::Software) => (prefer_software || first_usable(hardware@)
                == hardware@.len()) && software_listed,
            Err(e) => (prefer_software || first_usable(hardware@) == hardware@.len())
                && !software_listed && e@ == MftErrorView::NoEncoderFound,
        },
{
    if !prefer_software {
        let mut i: usize = 0;
        assert(hardware@.skip(0) =~= hardware@);
        while i < hardware.len()
            invariant
                !prefer_software,
                i <= hardware@.len(),
                first_usable(hardware@) == i + first_usable(hardware@.skip(i as int)),
            decreases hardware@.len() - i,
        {
            if hardware[i].activated && hardware[i].accepts_d3d {
                return Ok(EncoderChoice::Hardware(i));
            }
            assert(hardware@.skip(i as int).drop_first() =~= hardware@.skip(i + 1));
            i += 1;
        }
    }
    if software_listed {
        Ok(EncoderChoice::Software)
    } else {
        Err(MftEncoderError::NoEncoderFound)
    }
}

/// The name of a transform as the system gives it, up to its terminating zero,
/// or a name for its kind where it has none.
pub fn get_friendly_name(name: Option<&Vec<u16>>, hardware: bool) -> (r: String)
    ensures
        r@ == match name {
            Some(units) => text::utf16_chars(text::until_nul(units@)),
            None => if hardware {
                "Hardware MFT"@
            } else {
                "Software MFT"@
            },
        },
{
    match name {
        Some(units) => text::wide_text(units),
        None => if hardware {
            "Hardware MFT".to_owned()
        } else {
            "Software MFT".to_owned()
        },
    }
}

/// Which end of the transform a media type is negotiated for.
#[derive(Debug, Clone, Copy, PartialEq, Eq, Structural)]
pub enum StreamEnd {
    Output,
    Input,
}

/// Where a negotiation stands.
#[derive(Debug, Clone, Copy, PartialEq, Eq, Structural)]
pub enum TypeStage {
    /// The type with this number is being asked for.
    Query(u32),
    /// It is being set as it is.
    SetAsOffered(u32),
    /// It is being set with the stream's attributes added.
    SetWithAttributes(u32),
    /// A type made from scratch is being set.
    SetManual,
    /// A type is in force. Where it was set as it was offered, the attributes
    /// are added afterwards.
    Settled { attributes_pending: bool },
    /// No type could be set.
    Refused,
}

/// What came of the last action of a negotiation.
#[derive(Debug, Clone, PartialEq, Eq)]
pub enum TypeEvent {
    /// There is no type with that number.
    Exhausted,
    /// There is, and whether it is of the wanted format.
    Offered(bool),
    Accepted,
    Rejected(String),
}

/// The stage after the type with the number `i` came to nothing.
pub open spec fn next_query(i: u32) -> TypeStage {
    if i + 1 < MAX_MEDIA_TYPES {
        TypeStage::Query((i + 1) as u32)
    } else {
        TypeStage::SetManual
    }
}

/// Whether the event answers the stage's action.
pub open spec fn type_answers(stage: TypeStage, ev: TypeEvent) -> bool {
    match stage {
        TypeStage::Query(i) => i < MAX_MEDIA_TYPES && (ev is Exhausted || ev is Offered),
        TypeStage::SetAsOffered(i) | TypeStage::SetWithAttributes(i) => i < MAX_MEDIA_TYPES && (ev
            is Accepted || ev is Rejected),
        TypeStage::SetManual => ev is Accepted || ev is Rejected,
        TypeStage::Settled { .. } | TypeStage::Refused => false,
    }
}

/// Where a negotiation goes from a stage. An output type of the wanted format is
/// tried first as it is offered, then with the attributes added; an input type
/// with the attributes only.
pub open spec fn type_next(end: StreamEnd, stage: TypeStage, ev: TypeEvent) -> TypeStage {
    match (stage, ev) {
        (TypeStage::Query(i), TypeEvent::Exhausted) => TypeStage::SetManual,
        (TypeStage::Query(i), TypeEvent::Offered(fits)) => if !fits {
            next_query(i)
        } else if end == StreamEnd::Output {
            TypeStage::SetAsOffered(i)
        } else {
            TypeStage::SetWithAttributes(i)
        },
        (TypeStage::SetAsOffered(i), TypeEvent::Accepted) => TypeStage::Settled {
            attributes_pending: true,
        },
        (TypeStage::SetAsOffered(i), _) => TypeStage::SetWithAttributes(i),
        (TypeStage::SetWithAttributes(i), TypeEvent::Accepted) => TypeStage::Settled {
            attributes_pending: false,
        },
        (TypeStage::SetWithAttributes(i), _) => next_query(i),
        (TypeStage::SetManual, TypeEvent::Accepted) => TypeStage::Settled {
            attributes_pending: false,
        },
        (TypeStage::SetManual, _) => TypeStage::Refused,
        _ => stage,
    }
}

/// Goes on with a negotiation; the error where the type made from scratch was
/// refused too.
pub fn negotiate_type(end: StreamEnd, stage: TypeStage, ev: TypeEvent) -> (r: Result<
    TypeStage,
    MftEncoderError,
>)
    requires
        type_answers(stage, ev),
    ensures
        match r {
            Ok(next) => next == type_next(end, stage, ev) && next != TypeStage::Refused,
            Err(e) => type_next(end, stage, ev) == TypeStage::Refused && match ev {
                TypeEvent::Rejected(why) => e@ == MftErrorView::MediaType(
                    (if end == StreamEnd::Output {
                        "SetOutputType (manual): "@
                    } else {
                        "SetInputType (manual): "@
                    }) + why@,
                ),
                _ => false,
            },
        },
{
    match stage {
        TypeStage::Query(i) => match ev {
            TypeEvent::Offered(fits) => {
                if !fits {
                    Ok(query_after(i))
                } else if end == StreamEnd::Output {
                    Ok(TypeStage::SetAsOffered(i))
                } else {
                    Ok(TypeStage::SetWithAttributes(i))
                }
            },
            _ => Ok(TypeStage::SetManual),
        },
        TypeStage::SetAsOffered(i) => match ev {
            TypeEvent::Accepted => Ok(TypeStage::Settled { attributes_pending: true }),
            _ => Ok(TypeStage::SetWithAttributes(i)),
        },
        TypeStage::SetWithAttributes(i) => match ev {
            TypeEvent::Accepted => Ok(TypeStage::Settled { attributes_pending: false }),
            _ => Ok(query_after(i)),
        },
        _ => match ev {
            TypeEvent::Rejected(why) => {
                let mut message = String::new();
                if end == StreamEnd::Output {
                    message.push_str("SetOutputType (manual): ");
                } else {
                    message.push_str("SetInputType (manual): ");
                }
                let ghost prefix = message@;
                message.push_str(why.as_str());
                assert(prefix =~= (if end == StreamEnd::Output {
                    "SetOutputType (manual): "@
                } else {
                    "SetInputType (manual): "@
                }));
                Err(MftEncoderError::MediaType(message))
            },
            _ => Ok(TypeStage::Settled { attributes_pending: false }),
        },
    }
}

fn query_after(i: u32) -> (r: TypeStage)
    requires
        i < MAX_MEDIA_TYPES,
    ensures
        r == next_query(i),
{
    if i + 1 < MAX_MEDIA_TYPES {
        TypeStage::Query(i + 1)
    } else {
        TypeStage::SetManual
    }
}

/// How far a negotiation has come.
pub open spec fn type_rank(stage: TypeStage) -> int {
    match stage {
        TypeStage::Query(i) => 3 * i,
        TypeStage::SetAsOffered(i) => 3 * i + 1,
        TypeStage::SetWithAttributes(i) => 3 * i + 2,
        TypeStage::SetManual => 3 * MAX_MEDIA_TYPES,
        TypeStage::Settled { .. } => 3 * MAX_MEDIA_TYPES + 1,
        TypeStage::Refused => 3 * MAX_MEDIA_TYPES + 1,
    }
}

/// A negotiation always goes forward, so it ends; and an answer is always taken
/// from a stage that a negotiation can reach.
pub proof fn negotiation_ends(end: StreamEnd, stage: TypeStage, ev: TypeEvent)
    requires
        type_answers(stage, ev),
    ensures
        type_rank(type_next(end, stage, ev)) > type_rank(stage),
        type_rank(type_next(end, stage, ev)) <= 3 * MAX_MEDIA_TYPES + 1,
{
}

/// Whether a frame is a key frame: it holds an IDR slice, or is said to be an
/// intra picture (type 0).
pub fn is_key_frame_sample(annex_b: &[u8], picture_type: Option<u32>) -> (r: bool)
    ensures
        r == (h264::idr_from(annex_b@, 0) || picture_type == Some(0u32)),
{
    if h264::contains_idr_nal(annex_b) {
        return true;
    }
    match picture_type {
        Some(t) => t == 0,
        None => false,
    }
}

/// The frame in a sample, if the sample holds any bytes.
pub fn extract_h264_from_sample(
    data: Vec<u8>,
    timestamp_us: i64,
    picture_type: Option<u32>,
) -> (r: Option<EncodedFrame>)
    ensures
        match r {
            Some(frame) => data@.len() > 0 && frame == (EncodedFrame {
                data,
                timestamp_us,
                key_frame: h264::idr_from(data@, 0) || picture_type == Some(0u32),
            }),
            None => data@.len() == 0,
        },
{
    if data.len() == 0 {
        return None;
    }
    let key_frame = is_key_frame_sample(data.as_slice(), picture_type);
    Some(EncodedFrame { data, timestamp_us, key_frame })
}

} // verus!
