//! Sharing the screen without a window, as the environment asks for it.
use vstd::prelude::*;

use crate::mft_setup::opt_view;
use crate::text;

verus! {

/// The sizes and frame rates at which the screen can be shared.
#[derive(Debug, Clone, Copy, PartialEq, Eq, Structural)]
pub enum ScreenPreset {
    P720F30,
    P720F60,
    P720F120,
    P1080F30,
    P1080F60,
    P1080F120,
    P1440F30,
    P1440F60,
    P1440F90,
}

/// What is shared.
#[derive(Debug, Clone, Copy, PartialEq, Eq, Structural)]
pub enum StreamSourceTarget {
    Window { window_id: u64, process_id: u32 },
    Monitor { index: usize },
}

/// Whether a text says yes: `1`, or `true` or `on` in any case.
pub open spec fn truthy(s: Seq<char>) -> bool {
    s == "1"@ || named(s, "true"@) || named(s, "on"@)
}

/// Whether a text is a name, whatever the case of its letters.
pub open spec fn named(s: Seq<char>, name: Seq<char>) -> bool {
    text::ascii_lowered(s) == text::ascii_lowered(name)
}

/// Whether a text is there and says yes.
pub fn env_truthy(value: Option<&str>) -> (r: bool)
    ensures
        r == match opt_view(value) {
            Some(s) => truthy(s),
            None => false,
        },
{
    match value {
        Some(s) => text::same(s, "1") || text::eq_ignore_ascii_case(s, "true")
            || text::eq_ignore_ascii_case(s, "on"),
        None => false,
    }
}

/// The preset that a name stands for; 1080 lines at sixty frames a second for any
/// other text.
pub open spec fn preset_named(s: Seq<char>) -> ScreenPreset {
    if named(s, "P720F30"@) || named(s, "720P30"@) {
        ScreenPreset::P720F30
    } else if named(s, "P720F60"@) || named(s, "720P60"@) {
        ScreenPreset::P720F60
    } else if named(s, "P720F120"@) || named(s, "720P120"@) {
        ScreenPreset::P720F120
    } else if named(s, "P1080F30"@) || named(s, "1080P30"@) {
        ScreenPreset::P1080F30
    } else if named(s, "P1080F120"@) || named(s, "1080P120"@) {
        ScreenPreset::P1080F120
    } else if named(s, "P1440F30"@) || named(s, "1440P30"@) {
        ScreenPreset::P1440F30
    } else if named(s, "P1440F60"@) || named(s, "1440P60"@) {
        ScreenPreset::P1440F60
    } else if named(s, "P1440F90"@) || named(s, "1440P90"@) {
        ScreenPreset::P1440F90
    } else {
        ScreenPreset::P1080F60
    }
}

/// Whether a text is one of two names, whatever the case of its letters.
fn is_either(s: &str, a: &str, b: &str) -> (r: bool)
    ensures
        r == (named(s@, a@) || named(s@, b@)),
{
    text::eq_ignore_ascii_case(s, a) || text::eq_ignore_ascii_case(s, b)
}

/// The preset that the environment asks for.
pub fn parse_headless_preset(value: Option<&str>) -> (r: ScreenPreset)
    ensures
        r == match opt_view(value) {
            Some(s) => preset_named(s),
            None => ScreenPreset::P1080F60,
        },
{
    let s = match value {
        Some(s) => s,
        None => {
            return ScreenPreset::P1080F60;
        },
    };
    if is_either(s, "P720F30", "720P30") {
        ScreenPreset::P720F30
    } else if is_either(s, "P720F60", "720P60") {
        ScreenPreset::P720F60
    } else if is_either(s, "P720F120", "720P120") {
        ScreenPreset::P720F120
    } else if is_either(s, "P1080F30", "1080P30") {
        ScreenPreset::P1080F30
    } else if is_either(s, "P1080F120", "1080P120") {
        ScreenPreset::P1080F120
    } else if is_either(s, "P1440F30", "1440P30") {
        ScreenPreset::P1440F30
    } else if is_either(s, "P1440F60", "1440P60") {
        ScreenPreset::P1440F60
    } else if is_either(s, "P1440F90", "1440P90") {
        ScreenPreset::P1440F90
    } else {
        ScreenPreset::P1080F60
    }
}

/// The number that a text stands for, zero where it is none of at most `max`.
pub open spec fn number_or_zero(s: Seq<char>, max: nat) -> nat {
    match text::parsed_unsigned(s, max) {
        Some(n) => n,
        None => 0,
    }
}

fn parse_or_zero(s: &str, max: u64) -> (r: u64)
    ensures
        r == number_or_zero(s@, max as nat),
        r <= max,
{
    match text::parse_unsigned(s, max) {
        Some(n) => n,
        None => 0,
    }
}

/// The source that a text stands for: `window:ID:PROCESS`, `monitor:N`, or just
/// `N`; the first monitor for any other text.
pub open spec fn source_named(s: Seq<char>) -> StreamSourceTarget {
    let parts = text::pieces(s, ':');
    if parts.len() == 3 && parts[0] == "window"@ {
        StreamSourceTarget::Window {
            window_id: number_or_zero(parts[1], u64::MAX as nat) as u64,
            process_id: number_or_zero(parts[2], u32::MAX as nat) as u32,
        }
    } else if parts.len() == 2 && parts[0] == "monitor"@ {
        StreamSourceTarget::Monitor {
            index: number_or_zero(parts[1], usize::MAX as nat) as usize,
        }
    } else if parts.len() == 1 {
        StreamSourceTarget::Monitor {
            index: number_or_zero(parts[0], usize::MAX as nat) as usize,
        }
    } else {
        StreamSourceTarget::Monitor { index: 0 }
    }
}

/// The source that the environment asks for.
pub fn parse_headless_source(value: Option<&str>) -> (r: StreamSourceTarget)
    ensures
        r == match opt_view(value) {
            Some(s) => source_named(s),
            None => StreamSourceTarget::Monitor { index: 0 },
        },
{
    let s = match value {
        Some(s) => s,
        None => {
            return StreamSourceTarget::Monitor { index: 0 };
        },
    };
    let parts = text::split(s, ':');
    assert(forall|i: int| 0 <= i < parts@.len() ==> text::texts(parts@)[i] == parts@[i]@);
    if parts.len() == 3 && text::same(parts[0].as_str(), "window") {
        let window_id: u64 = parse_or_zero(parts[1].as_str(), u64::MAX);
        let process_id: u64 = parse_or_zero(parts[2].as_str(), u32::MAX as u64);
        return StreamSourceTarget::Window { window_id, process_id: process_id as u32 };
    }
    if parts.len() == 2 && text::same(parts[0].as_str(), "monitor") {
        let index: u64 = parse_or_zero(parts[1].as_str(), usize::MAX as u64);
        return StreamSourceTarget::Monitor { index: index as usize };
    }
    if parts.len() == 1 {
        let index: u64 = parse_or_zero(parts[0].as_str(), usize::MAX as u64);
        return StreamSourceTarget::Monitor { index: index as usize };
    }
    StreamSourceTarget::Monitor { index: 0 }
}

/// How to go on at the start.
#[derive(Debug, PartialEq, Eq)]
pub enum HeadlessStart {
    /// With the window.
    NotAsked,
    /// Not at all: this is missing.
    Missing(String),
    /// With sharing the screen.
    Share {
        livekit_url: String,
        livekit_token: String,
        user_id: i64,
        source: StreamSourceTarget,
        preset: ScreenPreset,
    },
}

/// How to go on at the start, as the environment asks: sharing without a window
/// wants an address and a token, in that order.
pub fn headless_start(
    asked: Option<&str>,
    livekit_url: Option<&str>,
    livekit_token: Option<&str>,
    user_id: Option<&str>,
    source: Option<&str>,
    preset: Option<&str>,
) -> (r: HeadlessStart)
    ensures
        ({
            let wanted = opt_view(asked) is Some && truthy(opt_view(asked)->0);
            match r {
                HeadlessStart::NotAsked => !wanted,
                HeadlessStart::Missing(what) => wanted && match livekit_url {
                    None => what@ == "[headless] ASTRIX_LIVEKIT_URL is required"@,
                    Some(_) => livekit_token is None && what@
                        == "[headless] ASTRIX_LIVEKIT_TOKEN is required"@,
                },
                HeadlessStart::Share {
                    livekit_url: u,
                    livekit_token: t,
                    user_id: id,
                    source: s,
                    preset: p,
                } => wanted && opt_view(livekit_url) == Some(u@) && opt_view(livekit_token)
                    == Some(t@) && id == match opt_view(user_id) {
                    Some(n) => match text::parsed_i64(n) {
                        Some(n) => n,
                        None => 0,
                    },
                    None => 0,
                } && s == match opt_view(source) {
                    Some(x) => source_named(x),
                    None => StreamSourceTarget::Monitor { index: 0 },
                } && p == match opt_view(preset) {
                    Some(x) => preset_named(x),
                    None => ScreenPreset::P1080F60,
                },
            }
        }),
{
    if !env_truthy(asked) {
        return HeadlessStart::NotAsked;
    }
    let url = match livekit_url {
        Some(u) => u.to_owned(),
        None => {
            return HeadlessStart::Missing("[headless] ASTRIX_LIVEKIT_URL is required".to_owned());
        },
    };
    let token = match livekit_token {
        Some(t) => t.to_owned(),
        None => {
            return HeadlessStart::Missing(
                "[headless] ASTRIX_LIVEKIT_TOKEN is required".to_owned(),
            );
        },
    };
    let id: i64 = match user_id {
        Some(n) => match text::parse_i64(n) {
            Some(n) => n,
            None => 0,
        },
        None => 0,
    };
    HeadlessStart::Share {
        livekit_url: url,
        livekit_token: token,
        user_id: id,
        source: parse_headless_source(source),
        preset: parse_headless_preset(preset),
    }
}

/// Whether the window is drawn in step with the monitor: only where the text is
/// `1`.
pub fn vsync_enabled(value: Option<&str>) -> (r: bool)
    ensures
        r == (opt_view(value) == Some("1"@)),
{
    match value {
        Some(s) => text::same(s, "1"),
        None => false,
    }
}

} // verus!
