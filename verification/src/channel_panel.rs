//! The list of channels at the left: what it shows and what it asks for.
use std::collections::{HashMap, HashSet};

use vstd::prelude::*;

use crate::net::VoiceParticipant;
use crate::state::FULL_VOLUME;
use crate::text;

verus! {

broadcast use vstd::std_specs::hash::group_hash_axioms;

/// What the list's controls ask for. Volumes are held by their bits.
#[derive(Debug, Clone, PartialEq, Eq)]
pub enum ChannelPanelAction {
    SelectChannel(i64),
    JoinVoice { channel_id: i64, server_id: i64 },
    LeaveVoice,
    SetMicMuted(bool),
    SetOutputMuted(bool),
    SetCameraEnabled(bool),
    ToggleScreenShare,
    SetParticipantMuted { user_id: i64, muted: bool },
    SetParticipantDenoise { user_id: i64, enabled: bool },
    SetParticipantVolume { user_id: i64, volume: u32 },
    CreateChannel,
    Invite,
    ChannelSettings(i64, String),
    OpenServerSettings,
    Logout,
    RetryChannels,
}

/// What the list knows of voice.
#[derive(Debug)]
pub struct ChannelPanelVoiceSnapshot {
    pub channel_id: Option<i64>,
    pub server_id: Option<i64>,
    pub mic_muted: bool,
    pub output_muted: bool,
    pub camera_on: bool,
    pub screen_on: bool,
    pub channel_voice: HashMap<i64, Vec<VoiceParticipant>>,
    pub speaking: HashMap<i64, bool>,
    pub local_volumes: HashMap<i64, u32>,
    pub locally_muted: HashSet<i64>,
    pub receiver_denoise_users: HashSet<i64>,
}

/// How far loading the channels has come.
#[derive(Debug, Clone, PartialEq, Eq)]
pub enum ChannelsLoadState {
    Idle,
    Loading,
    Loaded,
    Error(String),
}

/// What the list's body shows.
#[derive(Debug, Clone, PartialEq, Eq)]
pub enum ChannelsBody {
    /// A text beside a spinner.
    Loading(String),
    /// An error, with a control to try again.
    Error(String),
    Channels,
}

/// What the list's body shows.
pub fn channels_body(load: &ChannelsLoadState) -> (r: ChannelsBody)
    ensures
        match *load {
            ChannelsLoadState::Loading => r is Loading && r->Loading_0@ == "Loading channels..."@,
            ChannelsLoadState::Error(e) => r == ChannelsBody::Error(e),
            _ => r == ChannelsBody::Channels,
        },
{
    match load {
        ChannelsLoadState::Loading => ChannelsBody::Loading("Loading channels...".to_owned()),
        ChannelsLoadState::Error(e) => ChannelsBody::Error(e.clone()),
        _ => ChannelsBody::Channels,
    }
}

/// A row of the list.
#[derive(Debug, Clone, PartialEq, Eq)]
pub struct ChannelRow {
    /// The name under which the drawing keeps the row.
    pub row_id: String,
    pub icon: &'static str,
    pub label: String,
    pub active: bool,
    pub unread: bool,
    /// What stands at the row's end, where it has anything.
    pub metadata: Option<String>,
}

/// Whether a row is drawn in the stronger colour.
pub fn row_emphasised(row: &ChannelRow) -> (r: bool)
    ensures
        r == (row.active || row.unread),
{
    row.active || row.unread
}

/// Whether a row has the mark of unread messages.
pub fn row_marked(row: &ChannelRow) -> (r: bool)
    ensures
        r == (row.unread && !row.active),
{
    row.unread && !row.active
}

/// The row of a text channel.
pub fn text_channel_row(
    id: i64,
    name: &String,
    selected: Option<i64>,
    unread: &HashSet<i64>,
) -> (r: ChannelRow)
    ensures
        r.row_id@ == "text_channel_"@ + text::decimal_int(id as int),
        r.icon@ == "#"@,
        r.label == *name,
        r.active == (selected == Some(id)),
        r.unread == unread@.contains(id),
        r.metadata is None,
{
    let mut row_id = "text_channel_".to_owned();
    text::push_decimal_int(&mut row_id, id);
    ChannelRow {
        row_id,
        icon: "#",
        label: name.clone(),
        active: selected == Some(id),
        unread: unread.contains(&id),
        metadata: None,
    }
}

/// How many people are in a voice channel.
pub open spec fn people_in(voice: ChannelPanelVoiceSnapshot, id: i64) -> int {
    if voice.channel_voice@.contains_key(id) {
        voice.channel_voice@[id]@.len() as int
    } else {
        0
    }
}

/// The row of a voice channel, with the number of people in it where there are
/// any.
pub fn voice_channel_row(
    id: i64,
    name: &String,
    selected: Option<i64>,
    voice: &ChannelPanelVoiceSnapshot,
) -> (r: ChannelRow)
    ensures
        r.row_id@ == "voice_channel_"@ + text::decimal_int(id as int),
        r.icon@ == "🔊"@,
        r.label == *name,
        r.active == (selected == Some(id) || voice.channel_id == Some(id)),
        !r.unread,
        match r.metadata {
            Some(s) => people_in(*voice, id) > 0 && s@ == text::decimal(
                people_in(*voice, id) as nat,
            ),
            None => people_in(*voice, id) == 0,
        },
{
    let mut row_id = "voice_channel_".to_owned();
    text::push_decimal_int(&mut row_id, id);
    let people: usize = match voice.channel_voice.get(&id) {
        Some(list) => list.len(),
        None => 0,
    };
    let metadata: Option<String> = if people > 0 {
        Some(text::decimal_text(people as u64))
    } else {
        None
    };
    ChannelRow {
        row_id,
        icon: "🔊",
        label: name.clone(),
        active: selected == Some(id) || voice.channel_id == Some(id),
        unread: false,
        metadata,
    }
}

/// What a click on a voice channel asks for: to select it, and to join it unless
/// one is in it.
pub fn voice_channel_click(id: i64, server_id: i64, voice_channel: Option<i64>) -> (r: Vec<
    ChannelPanelAction,
>)
    ensures
        r@ == if voice_channel == Some(id) {
            seq![ChannelPanelAction::SelectChannel(id)]
        } else {
            seq![
                ChannelPanelAction::SelectChannel(id),
                ChannelPanelAction::JoinVoice { channel_id: id, server_id },
            ]
        },
{
    let mut r: Vec<ChannelPanelAction> = Vec::new();
    r.push(ChannelPanelAction::SelectChannel(id));
    if voice_channel != Some(id) {
        r.push(ChannelPanelAction::JoinVoice { channel_id: id, server_id });
        assert(r@ =~= seq![
            ChannelPanelAction::SelectChannel(id),
            ChannelPanelAction::JoinVoice { channel_id: id, server_id },
        ]);
    } else {
        assert(r@ =~= seq![ChannelPanelAction::SelectChannel(id)]);
    }
    r
}

/// What is said of a participant's sound.
#[derive(Debug, Clone, Copy, PartialEq, Eq, Structural)]
pub enum MuteStatus {
    Heard,
    /// Muted by oneself.
    Locally,
    /// Hears and says nothing.
    Fully,
    Microphone,
}

impl MuteStatus {
    /// The status's label; nothing for those who are heard.
    pub fn label(&self) -> (r: Option<&'static str>)
        ensures
            match (*self, r) {
                (MuteStatus::Heard, None) => true,
                (MuteStatus::Locally, Some(s)) => s@ == "mute local"@,
                (MuteStatus::Fully, Some(s)) => s@ == "Полный мут"@,
                (MuteStatus::Microphone, Some(s)) => s@ == "Микрофон выключен"@,
                _ => false,
            },
    {
        match self {
            MuteStatus::Heard => None,
            MuteStatus::Locally => Some("mute local"),
            MuteStatus::Fully => Some("Полный мут"),
            MuteStatus::Microphone => Some("Микрофон выключен"),
        }
    }
}

/// What is said of a participant's sound: the strongest that applies.
pub open spec fn mute_status(p: VoiceParticipant, locally: bool) -> MuteStatus {
    if locally {
        MuteStatus::Locally
    } else if p.deafened {
        MuteStatus::Fully
    } else if p.mic_muted {
        MuteStatus::Microphone
    } else {
        MuteStatus::Heard
    }
}

/// The menu of a participant.
#[derive(Debug, Clone, PartialEq, Eq)]
pub struct ParticipantMenu {
    pub mute_label: &'static str,
    pub mute_action: ChannelPanelAction,
    pub denoise_label: &'static str,
    pub denoise_action: ChannelPanelAction,
    /// The volume in force, by its bits.
    pub volume: u32,
}

/// The menu of a participant, by who is muted and denoised here.
pub open spec fn is_menu_of(
    m: ParticipantMenu,
    user_id: i64,
    muted: bool,
    denoised: bool,
    volumes: Map<i64, u32>,
) -> bool {
    &&& m.mute_label@ == if muted {
        "Снять локальный мут"@
    } else {
        "Локально заглушить"@
    }
    &&& m.mute_action == ChannelPanelAction::SetParticipantMuted { user_id, muted: !muted }
    &&& m.denoise_label@ == if denoised {
        "Выключить локальное шумоподавление"@
    } else {
        "Включить локальное шумоподавление"@
    }
    &&& m.denoise_action == ChannelPanelAction::SetParticipantDenoise {
        user_id,
        enabled: !denoised,
    }
    &&& m.volume == if volumes.contains_key(user_id) {
        volumes[user_id]
    } else {
        FULL_VOLUME
    }
}

/// The row of a participant.
#[derive(Debug, Clone, PartialEq, Eq)]
pub struct ParticipantRow {
    pub name: String,
    pub speaking: bool,
    pub status: MuteStatus,
    pub menu: Option<ParticipantMenu>,
}

/// The row of a participant of a voice channel. Others in the channel that one is
/// in have a menu.
pub fn voice_participant_row(
    p: &VoiceParticipant,
    channel_id: i64,
    voice: &ChannelPanelVoiceSnapshot,
    user_id: Option<i64>,
) -> (r: ParticipantRow)
    ensures
        r.name@ == if p.username@.len() == 0 {
            "Гость"@
        } else {
            p.username@
        },
        r.speaking == (voice.speaking@.contains_key(p.user_id) && voice.speaking@[p.user_id]),
        r.status == mute_status(*p, voice.locally_muted@.contains(p.user_id)),
        match r.menu {
            Some(m) => voice.channel_id == Some(channel_id) && user_id != Some(p.user_id)
                && is_menu_of(
                m,
                p.user_id,
                voice.locally_muted@.contains(p.user_id),
                voice.receiver_denoise_users@.contains(p.user_id),
                voice.local_volumes@,
            ),
            None => voice.channel_id != Some(channel_id) || user_id == Some(p.user_id),
        },
{
    let name = if p.username.as_str().is_empty() {
        "Гость".to_owned()
    } else {
        p.username.clone()
    };
    let speaking = match voice.speaking.get(&p.user_id) {
        Some(b) => *b,
        None => false,
    };
    let muted = voice.locally_muted.contains(&p.user_id);
    let status = if muted {
        MuteStatus::Locally
    } else if p.deafened {
        MuteStatus::Fully
    } else if p.mic_muted {
        MuteStatus::Microphone
    } else {
        MuteStatus::Heard
    };
    let menu: Option<ParticipantMenu> = if voice.channel_id == Some(channel_id) && user_id != Some(
        p.user_id,
    ) {
        let denoised = voice.receiver_denoise_users.contains(&p.user_id);
        let volume: u32 = match voice.local_volumes.get(&p.user_id) {
            Some(v) => *v,
            None => FULL_VOLUME,
        };
        Some(
            ParticipantMenu {
                mute_label: if muted {
                    "Снять локальный мут"
                } else {
                    "Локально заглушить"
                },
                mute_action: ChannelPanelAction::SetParticipantMuted {
                    user_id: p.user_id,
                    muted: !muted,
                },
                denoise_label: if denoised {
                    "Выключить локальное шумоподавление"
                } else {
                    "Включить локальное шумоподавление"
                },
                denoise_action: ChannelPanelAction::SetParticipantDenoise {
                    user_id: p.user_id,
                    enabled: !denoised,
                },
                volume,
            },
        )
    } else {
        None
    };
    ParticipantRow { name, speaking, status, menu }
}

} // verus!
