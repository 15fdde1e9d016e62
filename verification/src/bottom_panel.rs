//! The strip at the bottom left: one's own state in voice, the stream's controls,
//! and the numbers behind the connection. Drawing it is the caller's, and so is
//! writing out real numbers.
use vstd::prelude::*;

use crate::headless::{preset_named, ScreenPreset};
use crate::text;

verus! {

/// What the strip's controls ask for.
#[derive(Debug, Clone, Copy, PartialEq, Eq, Structural)]
pub enum BottomPanelAction {
    SetMicMuted(bool),
    SetDeafened(bool),
    SetScreenAudioMuted(bool),
    OpenSettings,
    OpenStreamPicker,
    StopStream,
    SetScreenPreset(ScreenPreset),
    LeaveVoice,
}

/// One's own state in voice, as far as the controls depend on it.
#[derive(Debug, Clone, Copy, PartialEq, Eq, Structural)]
pub struct VoiceControls {
    pub mic_muted: bool,
    pub output_muted: bool,
    pub screen_on: bool,
    pub screen_preset: ScreenPreset,
    pub screen_audio_muted: bool,
}

/// A control that is on or off: what it is called, and what it asks for.
#[derive(Debug, Clone, Copy, PartialEq, Eq)]
pub struct Toggle {
    pub on: bool,
    pub tooltip: &'static str,
    pub action: BottomPanelAction,
}

/// What stands below one's name: one's id, or that one is online.
pub fn identity_line(user_id: Option<i64>) -> (r: String)
    ensures
        r@ == match user_id {
            Some(id) => text::decimal_int(id as int),
            None => "В сети"@,
        },
{
    match user_id {
        Some(id) => text::decimal_int_text(id),
        None => "В сети".to_owned(),
    }
}

/// The control that switches the microphone and the sound off together.
pub fn deafen_toggle(v: &VoiceControls) -> (r: Toggle)
    ensures
        r.on == (v.mic_muted && v.output_muted),
        r.tooltip@ == if r.on {
            "Включить микрофон и звук"@
        } else {
            "Выключить микрофон и звук"@
        },
        r.action == BottomPanelAction::SetDeafened(!r.on),
{
    let on = v.mic_muted && v.output_muted;
    Toggle {
        on,
        tooltip: if on {
            "Включить микрофон и звук"
        } else {
            "Выключить микрофон и звук"
        },
        action: BottomPanelAction::SetDeafened(!on),
    }
}

/// The control that switches the microphone off.
pub fn mic_toggle(v: &VoiceControls) -> (r: Toggle)
    ensures
        r.on == v.mic_muted,
        r.tooltip@ == if v.mic_muted {
            "Включить микрофон"@
        } else {
            "Выключить микрофон"@
        },
        r.action == BottomPanelAction::SetMicMuted(!v.mic_muted),
{
    Toggle {
        on: v.mic_muted,
        tooltip: if v.mic_muted {
            "Включить микрофон"
        } else {
            "Выключить микрофон"
        },
        action: BottomPanelAction::SetMicMuted(!v.mic_muted),
    }
}

/// The control that starts and ends a stream.
pub fn stream_toggle(v: &VoiceControls) -> (r: Toggle)
    ensures
        r.on == v.screen_on,
        r.tooltip@ == if v.screen_on {
            "Остановить трансляцию"@
        } else {
            "Начать трансляцию"@
        },
        r.action == if v.screen_on {
            BottomPanelAction::StopStream
        } else {
            BottomPanelAction::OpenStreamPicker
        },
{
    if v.screen_on {
        Toggle {
            on: true,
            tooltip: "Остановить трансляцию",
            action: BottomPanelAction::StopStream,
        }
    } else {
        Toggle {
            on: false,
            tooltip: "Начать трансляцию",
            action: BottomPanelAction::OpenStreamPicker,
        }
    }
}

/// The control that switches the stream's sound off.
pub fn stream_audio_toggle(v: &VoiceControls) -> (r: Toggle)
    ensures
        r.on == v.screen_audio_muted,
        r.tooltip@ == if v.screen_audio_muted {
            "Включить звук трансляции"@
        } else {
            "Выключить звук трансляции"@
        },
        r.action == BottomPanelAction::SetScreenAudioMuted(!v.screen_audio_muted),
{
    Toggle {
        on: v.screen_audio_muted,
        tooltip: if v.screen_audio_muted {
            "Включить звук трансляции"
        } else {
            "Выключить звук трансляции"
        },
        action: BottomPanelAction::SetScreenAudioMuted(!v.screen_audio_muted),
    }
}

/// The short name of a preset.
pub open spec fn preset_text(p: ScreenPreset) -> Seq<char> {
    match p {
        ScreenPreset::P720F30 => "720p30"@,
        ScreenPreset::P720F60 => "720p60"@,
        ScreenPreset::P720F120 => "720p120"@,
        ScreenPreset::P1080F30 => "1080p30"@,
        ScreenPreset::P1080F60 => "1080p60"@,
        ScreenPreset::P1080F120 => "1080p120"@,
        ScreenPreset::P1440F30 => "1440p30"@,
        ScreenPreset::P1440F60 => "1440p60"@,
        ScreenPreset::P1440F90 => "1440p90"@,
    }
}

/// The short name of a preset.
pub fn preset_button_label(preset: ScreenPreset) -> (r: &'static str)
    ensures
        r@ == preset_text(preset),
{
    match preset {
        ScreenPreset::P720F30 => "720p30",
        ScreenPreset::P720F60 => "720p60",
        ScreenPreset::P720F120 => "720p120",
        ScreenPreset::P1080F30 => "1080p30",
        ScreenPreset::P1080F60 => "1080p60",
        ScreenPreset::P1080F120 => "1080p120",
        ScreenPreset::P1440F30 => "1440p30",
        ScreenPreset::P1440F60 => "1440p60",
        ScreenPreset::P1440F90 => "1440p90",
    }
}

/// The environment's reader takes every preset by its short name.
pub proof fn presets_read_back(p: ScreenPreset)
    ensures
        preset_named(preset_text(p)) == p,
{
    reveal_strlit("720p30");
    reveal_strlit("720p60");
    reveal_strlit("720p120");
    reveal_strlit("1080p30");
    reveal_strlit("1080p60");
    reveal_strlit("1080p120");
    reveal_strlit("1440p30");
    reveal_strlit("1440p60");
    reveal_strlit("1440p90");
    reveal_strlit("720P30");
    reveal_strlit("P720F30");
    reveal_strlit("720P60");
    reveal_strlit("P720F60");
    reveal_strlit("720P120");
    reveal_strlit("P720F120");
    reveal_strlit("1080P30");
    reveal_strlit("P1080F30");
    reveal_strlit("1080P60");
    reveal_strlit("P1080F60");
    reveal_strlit("1080P120");
    reveal_strlit("P1080F120");
    reveal_strlit("1440P30");
    reveal_strlit("P1440F30");
    reveal_strlit("1440P60");
    reveal_strlit("P1440F60");
    reveal_strlit("1440P90");
    reveal_strlit("P1440F90");
    let s = preset_text(p);
    match p {
        ScreenPreset::P720F30 => {
            assert(text::ascii_lowered(s) =~= text::ascii_lowered("720P30"@));
        },
        ScreenPreset::P720F60 => {
            assert(text::ascii_lowered(s)[4] != text::ascii_lowered("720P30"@)[4]);
            assert(text::ascii_lowered(s) =~= text::ascii_lowered("720P60"@));
        },
        ScreenPreset::P720F120 => {
            assert(text::ascii_lowered(s)[0] != text::ascii_lowered("P720F30"@)[0]);
            assert(text::ascii_lowered(s)[0] != text::ascii_lowered("P720F60"@)[0]);
            assert(text::ascii_lowered(s) =~= text::ascii_lowered("720P120"@));
        },
        ScreenPreset::P1080F30 => {
            assert(text::ascii_lowered(s)[0] != text::ascii_lowered("P720F30"@)[0]);
            assert(text::ascii_lowered(s)[0] != text::ascii_lowered("P720F60"@)[0]);
            assert(text::ascii_lowered(s)[0] != text::ascii_lowered("720P120"@)[0]);
            assert(text::ascii_lowered(s) =~= text::ascii_lowered("1080P30"@));
        },
        ScreenPreset::P1080F60 => {
            assert(text::ascii_lowered(s)[0] != text::ascii_lowered("P720F30"@)[0]);
            assert(text::ascii_lowered(s)[0] != text::ascii_lowered("P720F60"@)[0]);
            assert(text::ascii_lowered(s)[0] != text::ascii_lowered("720P120"@)[0]);
            assert(text::ascii_lowered(s)[5] != text::ascii_lowered("1080P30"@)[5]);
            assert(text::ascii_lowered(s)[1] != text::ascii_lowered("1440P30"@)[1]);
            assert(text::ascii_lowered(s)[1] != text::ascii_lowered("1440P60"@)[1]);
            assert(text::ascii_lowered(s)[1] != text::ascii_lowered("1440P90"@)[1]);
        },
        ScreenPreset::P1080F120 => {
            assert(text::ascii_lowered(s)[0] != text::ascii_lowered("P720F120"@)[0]);
            assert(text::ascii_lowered(s)[0] != text::ascii_lowered("P1080F30"@)[0]);
            assert(text::ascii_lowered(s) =~= text::ascii_lowered("1080P120"@));
        },
        ScreenPreset::P1440F30 => {
            assert(text::ascii_lowered(s)[0] != text::ascii_lowered("P720F30"@)[0]);
            assert(text::ascii_lowered(s)[0] != text::ascii_lowered("P720F60"@)[0]);
            assert(text::ascii_lowered(s)[0] != text::ascii_lowered("720P120"@)[0]);
            assert(text::ascii_lowered(s)[1] != text::ascii_lowered("1080P30"@)[1]);
            assert(text::ascii_lowered(s) =~= text::ascii_lowered("1440P30"@));
        },
        ScreenPreset::P1440F60 => {
            assert(text::ascii_lowered(s)[0] != text::ascii_lowered("P720F30"@)[0]);
            assert(text::ascii_lowered(s)[0] != text::ascii_lowered("P720F60"@)[0]);
            assert(text::ascii_lowered(s)[0] != text::ascii_lowered("720P120"@)[0]);
            assert(text::ascii_lowered(s)[1] != text::ascii_lowered("1080P30"@)[1]);
            assert(text::ascii_lowered(s)[5] != text::ascii_lowered("1440P30"@)[5]);
            assert(text::ascii_lowered(s) =~= text::ascii_lowered("1440P60"@));
        },
        ScreenPreset::P1440F90 => {
            assert(text::ascii_lowered(s)[0] != text::ascii_lowered("P720F30"@)[0]);
            assert(text::ascii_lowered(s)[0] != text::ascii_lowered("P720F60"@)[0]);
            assert(text::ascii_lowered(s)[0] != text::ascii_lowered("720P120"@)[0]);
            assert(text::ascii_lowered(s)[1] != text::ascii_lowered("1080P30"@)[1]);
            assert(text::ascii_lowered(s)[5] != text::ascii_lowered("1440P30"@)[5]);
            assert(text::ascii_lowered(s)[5] != text::ascii_lowered("1440P60"@)[5]);
            assert(text::ascii_lowered(s) =~= text::ascii_lowered("1440P90"@));
        },
    }
}

/// What is said of the connection: the round trip in whole milliseconds, where it
/// is known.
pub fn latency_tooltip(latency_ms: Option<&str>) -> (r: String)
    ensures
        r@ == match latency_ms {
            Some(n) => "RTT до сервера: "@ + n@ + " мс"@,
            None => "Показать задержку соединения"@,
        },
{
    match latency_ms {
        Some(n) => {
            let mut r = "RTT до сервера: ".to_owned();
            r.push_str(n);
            r.push_str(" мс");
            r
        },
        None => "Показать задержку соединения".to_owned(),
    }
}

/// The name of the connection, or a placeholder.
pub fn connection_label(label: Option<&str>) -> (r: String)
    ensures
        r@ == match label {
            Some(s) => s@,
            None => "Сервер / Голосовой канал"@,
        },
{
    match label {
        Some(s) => s.to_owned(),
        None => "Сервер / Голосовой канал".to_owned(),
    }
}

/// The numbers behind the connection; real numbers by their numerals.
#[derive(Debug, Clone, PartialEq, Eq)]
pub struct LatencyStats {
    pub preset_label: String,
    pub preset_fps: String,
    pub preset_mbps: String,
    pub source_fps: Option<String>,
    pub source_cap_fps: Option<String>,
    pub webrtc_effective_fps_cap: Option<String>,
    pub startup_transport_cap_fps: Option<String>,
    pub final_schedule_cap_fps: Option<String>,
    pub webrtc_requested_bitrate_mbps: Option<String>,
    pub webrtc_target_bitrate_mbps: Option<String>,
    pub webrtc_fps_hint: Option<String>,
    pub webrtc_available_outgoing_bitrate_mbps: Option<String>,
    pub encoded_pre_rtp_bitrate_mbps: Option<String>,
    pub webrtc_packet_loss_pct: Option<String>,
    pub webrtc_nack_count: Option<u32>,
    pub webrtc_pli_count: Option<u32>,
    pub webrtc_quality_limitation_reason: Option<String>,
    pub webrtc_transport_path: Option<String>,
    pub webrtc_transport_rtt_ms: Option<String>,
    pub stream_fps: Option<String>,
    pub resolution: Option<(u32, u32)>,
    pub outgoing_speed_mbps: Option<String>,
    pub encoding_path: Option<String>,
    pub decoding_path: Option<String>,
}

impl Default for LatencyStats {
    /// Nothing was measured.
    fn default() -> (r: LatencyStats)
        ensures
            r.preset_label@.len() == 0,
            r.preset_fps@.len() == 0,
            r.preset_mbps@.len() == 0,
            r.source_fps is None,
            r.source_cap_fps is None,
            r.webrtc_effective_fps_cap is None,
            r.startup_transport_cap_fps is None,
            r.final_schedule_cap_fps is None,
            r.webrtc_requested_bitrate_mbps is None,
            r.webrtc_target_bitrate_mbps is None,
            r.webrtc_fps_hint is None,
            r.webrtc_available_outgoing_bitrate_mbps is None,
            r.encoded_pre_rtp_bitrate_mbps is None,
            r.webrtc_packet_loss_pct is None,
            r.webrtc_nack_count is None,
            r.webrtc_pli_count is None,
            r.webrtc_quality_limitation_reason is None,
            r.webrtc_transport_path is None,
            r.webrtc_transport_rtt_ms is None,
            r.stream_fps is None,
            r.resolution is None,
            r.outgoing_speed_mbps is None,
            r.encoding_path is None,
            r.decoding_path is None,
    {
        LatencyStats {
            preset_label: String::new(),
            preset_fps: String::new(),
            preset_mbps: String::new(),
            source_fps: None,
            source_cap_fps: None,
            webrtc_effective_fps_cap: None,
            startup_transport_cap_fps: None,
            final_schedule_cap_fps: None,
            webrtc_requested_bitrate_mbps: None,
            webrtc_target_bitrate_mbps: None,
            webrtc_fps_hint: None,
            webrtc_available_outgoing_bitrate_mbps: None,
            encoded_pre_rtp_bitrate_mbps: None,
            webrtc_packet_loss_pct: None,
            webrtc_nack_count: None,
            webrtc_pli_count: None,
            webrtc_quality_limitation_reason: None,
            webrtc_transport_path: None,
            webrtc_transport_rtt_ms: None,
            stream_fps: None,
            resolution: None,
            outgoing_speed_mbps: None,
            encoding_path: None,
            decoding_path: None,
        }
    }
}

/// A line of the popup.
#[derive(Debug, Clone, PartialEq, Eq)]
pub struct StatRow {
    pub label: &'static str,
    pub value: String,
}

/// A value with its unit, or a placeholder.
pub open spec fn with_unit(v: Option<String>, unit: Seq<char>, none: Seq<char>) -> Seq<char> {
    match v {
        Some(s) => s@ + unit,
        None => none,
    }
}

/// A count, or a placeholder.
pub open spec fn count_text(v: Option<u32>) -> Seq<char> {
    match v {
        Some(n) => text::decimal(n as nat),
        None => "-"@,
    }
}

/// The lines of the popup, each with its label and its value.
pub open spec fn stat_texts(s: LatencyStats) -> Seq<(Seq<char>, Seq<char>)> {
    seq![
        (
            "Preset"@,
            s.preset_label@ + " / "@ + s.preset_fps@ + " fps / "@ + s.preset_mbps@ + " Mbps"@,
        ),
        ("Source FPS"@, with_unit(s.source_fps, ""@, "-"@)),
        (
            "Caps"@,
            "src "@ + with_unit(s.source_cap_fps, ""@, "-"@) + " / bwe "@ + with_unit(
                s.webrtc_effective_fps_cap,
                ""@,
                "-"@,
            ) + " / boot "@ + with_unit(s.startup_transport_cap_fps, ""@, "-"@) + " / final "@
                + with_unit(s.final_schedule_cap_fps, ""@, "-"@),
        ),
        ("BWE target"@, with_unit(s.webrtc_requested_bitrate_mbps, " Mbps"@, "-"@)),
        ("Encoder bitrate"@, with_unit(s.webrtc_target_bitrate_mbps, " Mbps"@, "-"@)),
        ("FPS hint"@, with_unit(s.webrtc_fps_hint, ""@, "-"@)),
        (
            "Available bitrate"@,
            with_unit(s.webrtc_available_outgoing_bitrate_mbps, " Mbps"@, "-"@),
        ),
        ("Pre-RTP bitrate"@, with_unit(s.encoded_pre_rtp_bitrate_mbps, " Mbps"@, "-"@)),
        ("Packet loss"@, with_unit(s.webrtc_packet_loss_pct, "%"@, "-"@)),
        ("NACK"@, count_text(s.webrtc_nack_count)),
        ("PLI"@, count_text(s.webrtc_pli_count)),
        ("Quality limit"@, with_unit(s.webrtc_quality_limitation_reason, ""@, "-"@)),
        ("Transport path"@, with_unit(s.webrtc_transport_path, ""@, "-"@)),
        ("Transport RTT"@, with_unit(s.webrtc_transport_rtt_ms, " ms"@, "-"@)),
        ("ФПС трансляции"@, with_unit(s.stream_fps, ""@, "—"@)),
        (
            "Разрешение"@,
            match s.resolution {
                Some((w, h)) => text::decimal(w as nat) + "×"@ + text::decimal(h as nat),
                None => "—"@,
            },
        ),
        ("Исходящая скорость"@, with_unit(s.outgoing_speed_mbps, " Мбит/с"@, "—"@)),
        ("Кодирование"@, with_unit(s.encoding_path, ""@, "—"@)),
        ("Декодирование"@, with_unit(s.decoding_path, ""@, "—"@)),
    ]
}

/// The lines of a list, by their characters.
pub open spec fn row_texts(v: Seq<StatRow>) -> Seq<(Seq<char>, Seq<char>)> {
    v.map_values(|r: StatRow| (r.label@, r.value@))
}

fn value_or(v: &Option<String>, unit: &str, none: &str) -> (r: String)
    ensures
        r@ == with_unit(*v, unit@, none@),
{
    match v {
        Some(s) => {
            let mut r = s.clone();
            r.push_str(unit);
            r
        },
        None => none.to_owned(),
    }
}

fn count_or(v: Option<u32>) -> (r: String)
    ensures
        r@ == count_text(v),
{
    match v {
        Some(n) => text::decimal_text(n as u64),
        None => "-".to_owned(),
    }
}

fn add_row(rows: &mut Vec<StatRow>, label: &'static str, value: String)
    ensures
        row_texts(final(rows)@) == row_texts(old(rows)@).push((label@, value@)),
{
    let ghost before = row_texts(rows@);
    rows.push(StatRow { label, value });
    assert(row_texts(rows@) =~= before.push((label@, value@)));
}

/// The lines of the popup behind the connection.
pub fn latency_popup_contents(s: &LatencyStats) -> (r: Vec<StatRow>)
    ensures
        row_texts(r@) == stat_texts(*s),
{
    let mut rows: Vec<StatRow> = Vec::new();
    let mut preset = s.preset_label.clone();
    preset.push_str(" / ");
    preset.push_str(s.preset_fps.as_str());
    preset.push_str(" fps / ");
    preset.push_str(s.preset_mbps.as_str());
    preset.push_str(" Mbps");
    let mut caps = "src ".to_owned();
    caps.push_str(value_or(&s.source_cap_fps, "", "-").as_str());
    caps.push_str(" / bwe ");
    caps.push_str(value_or(&s.webrtc_effective_fps_cap, "", "-").as_str());
    caps.push_str(" / boot ");
    caps.push_str(value_or(&s.startup_transport_cap_fps, "", "-").as_str());
    caps.push_str(" / final ");
    caps.push_str(value_or(&s.final_schedule_cap_fps, "", "-").as_str());
    let resolution = match s.resolution {
        Some((w, h)) => {
            let mut t = text::decimal_text(w as u64);
            t.push_str("×");
            text::push_decimal(&mut t, h as u64);
            t
        },
        None => "—".to_owned(),
    };
    assert(row_texts(rows@) =~= Seq::empty());
    add_row(&mut rows, "Preset", preset);
    add_row(&mut rows, "Source FPS", value_or(&s.source_fps, "", "-"));
    add_row(&mut rows, "Caps", caps);
    add_row(
        &mut rows,
        "BWE target",
        value_or(&s.webrtc_requested_bitrate_mbps, " Mbps", "-"),
    );
    add_row(
        &mut rows,
        "Encoder bitrate",
        value_or(&s.webrtc_target_bitrate_mbps, " Mbps", "-"),
    );
    add_row(&mut rows, "FPS hint", value_or(&s.webrtc_fps_hint, "", "-"));
    add_row(
        &mut rows,
        "Available bitrate",
        value_or(&s.webrtc_available_outgoing_bitrate_mbps, " Mbps", "-"),
    );
    add_row(
        &mut rows,
        "Pre-RTP bitrate",
        value_or(&s.encoded_pre_rtp_bitrate_mbps, " Mbps", "-"),
    );
    add_row(&mut rows, "Packet loss", value_or(&s.webrtc_packet_loss_pct, "%", "-"));
    add_row(&mut rows, "NACK", count_or(s.webrtc_nack_count));
    add_row(&mut rows, "PLI", count_or(s.webrtc_pli_count));
    add_row(
        &mut rows,
        "Quality limit",
        value_or(&s.webrtc_quality_limitation_reason, "", "-"),
    );
    add_row(&mut rows, "Transport path", value_or(&s.webrtc_transport_path, "", "-"));
    add_row(&mut rows, "Transport RTT", value_or(&s.webrtc_transport_rtt_ms, " ms", "-"));
    add_row(&mut rows, "ФПС трансляции", value_or(&s.stream_fps, "", "—"));
    add_row(&mut rows, "Разрешение", resolution);
    add_row(&mut rows, "Исходящая скорость", value_or(&s.outgoing_speed_mbps, " Мбит/с", "—"));
    add_row(&mut rows, "Кодирование", value_or(&s.encoding_path, "", "—"));
    add_row(&mut rows, "Декодирование", value_or(&s.decoding_path, "", "—"));
    assert(row_texts(rows@) =~= stat_texts(*s));
    rows
}

} // verus!
