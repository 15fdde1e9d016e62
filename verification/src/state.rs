//! The client's state, and the mathematical view that contracts speak of.
use std::collections::{HashMap, HashSet, VecDeque};

use vstd::prelude::*;

use crate::net::{Channel, Member, Message, Server, VoiceParticipant, WsClientMsg};
use crate::text;

verus! {

broadcast use vstd::std_specs::hash::group_hash_axioms;

/// The bits of the single-precision number one: full volume.
pub const FULL_VOLUME: u32 = 0x3f80_0000;

/// A volume that was saved for a user. Volumes are single-precision numbers,
/// held by their bits.
#[derive(Debug, Clone, PartialEq, Eq)]
pub struct SavedVolume {
    /// The user's id in decimal.
    pub user: String,
    pub volume: u32,
}

/// What is kept between sessions.
#[derive(Debug, Clone, PartialEq, Eq)]
pub struct Settings {
    pub remember_me: bool,
    pub saved_username: String,
    pub saved_password: String,
    pub input_sensitivity: u32,
    pub dark_mode: bool,
    pub voice_volume_by_user: Vec<SavedVolume>,
    pub stream_volume_by_user: Vec<SavedVolume>,
    /// Ids, in decimal, of the users whose voice is denoised on arrival.
    pub receiver_denoise_by_user: Vec<String>,
}

/// The index of the first volume saved for `user`, or the length.
pub open spec fn saved_index(list: Seq<SavedVolume>, user: Seq<char>) -> int
    decreases list.len(),
{
    if list.len() == 0 || list[0].user@ == user {
        0
    } else {
        1 + saved_index(list.drop_first(), user)
    }
}

/// The volume saved for a user, full where none is.
pub open spec fn volume_of(list: Seq<SavedVolume>, user_id: i64) -> u32 {
    let i = saved_index(list, text::decimal_int(user_id as int));
    if 0 <= i < list.len() {
        list[i].volume
    } else {
        FULL_VOLUME
    }
}

/// Whether the user's id stands in the list.
pub open spec fn lists_user(list: Seq<String>, user_id: i64) -> bool {
    exists|i: int|
        0 <= i < list.len() && (#[trigger] list[i])@ == text::decimal_int(user_id as int)
}

/// The volume saved for a user, full where none is.
pub fn saved_volume(list: &Vec<SavedVolume>, user_id: i64) -> (r: u32)
    ensures
        r == volume_of(list@, user_id),
{
    let user = text::decimal_int_text(user_id);
    let mut i: usize = 0;
    assert(list@.skip(0) =~= list@);
    while i < list.len()
        invariant
            i <= list@.len(),
            user@ == text::decimal_int(user_id as int),
            saved_index(list@, user@) == i + saved_index(list@.skip(i as int), user@),
        decreases list@.len() - i,
    {
        if list[i].user == user {
            return list[i].volume;
        }
        assert(list@.skip(i as int).drop_first() =~= list@.skip(i + 1));
        i += 1;
    }
    FULL_VOLUME
}

/// Whether the user's id stands in the list.
pub fn user_listed(list: &Vec<String>, user_id: i64) -> (r: bool)
    ensures
        r == lists_user(list@, user_id),
{
    let user = text::decimal_int_text(user_id);
    let mut i: usize = 0;
    while i < list.len()
        invariant
            i <= list@.len(),
            user@ == text::decimal_int(user_id as int),
            forall|j: int| 0 <= j < i ==> (#[trigger] list@[j])@ != user@,
        decreases list@.len() - i,
    {
        if list[i] == user {
            return true;
        }
        i += 1;
    }
    false
}

/// Someone who is writing in the selected channel, and when that was last heard.
/// Times are nanoseconds on a monotonic clock.
#[derive(Debug, Clone, PartialEq, Eq)]
pub struct TypingUser {
    pub user_id: i64,
    pub name: String,
    pub since: u64,
}

impl crate::rows::Keyed for TypingUser {
    open spec fn key(&self) -> i64 {
        self.user_id
    }

    fn read_key(&self) -> i64 {
        self.user_id
    }
}

/// The voice session.
#[derive(Debug)]
pub struct VoiceState {
    pub channel_id: Option<i64>,
    pub server_id: Option<i64>,
    pub participants: Vec<VoiceParticipant>,
    pub local_volumes: HashMap<i64, u32>,
    pub stream_volumes: HashMap<i64, u32>,
    pub receiver_denoise_users: HashSet<i64>,
    pub locally_muted: HashSet<i64>,
    pub stream_muted: HashSet<i64>,
    pub stream_subscriptions: HashSet<i64>,
    pub input_sensitivity: u32,
}

/// What the main screen shows.
#[derive(Debug)]
pub struct MainState {
    pub servers: Vec<Server>,
    pub channels: Vec<Channel>,
    pub server_members: Vec<Member>,
    pub messages: Vec<Message>,
    /// The channel that `messages` was loaded for.
    pub messages_load_for: Option<i64>,
    pub selected_server: Option<i64>,
    pub selected_channel: Option<i64>,
    pub unread_channels: HashSet<i64>,
    pub online_users: HashSet<i64>,
    pub typing_users: Vec<TypingUser>,
    pub my_display_name: String,
    pub new_message: String,
    pub prev_message: String,
    pub last_typing_sent: Option<u64>,
    pub ws_connected_server: Option<i64>,
    pub ws_viewing_channel: Option<i64>,
    /// A channel and the last message read in it.
    pub pending_read_receipt: Option<(i64, i64)>,
    pub pending_media_ids: Vec<i64>,
    pub channel_voice: HashMap<i64, Vec<VoiceParticipant>>,
    pub voice: VoiceState,
    /// Keys of the videos that have a texture.
    pub voice_video_textures: HashSet<i64>,
    /// Ids of the GPU textures, by the key of the video.
    pub voice_video_gpu_textures: HashMap<i64, u64>,
    pub voice_video_gpu_tex_pending_delete: Vec<u64>,
    /// Keys of the videos whose frame rate is measured.
    pub voice_render_fps: HashSet<i64>,
    pub fullscreen_stream_user: Option<i64>,
}

/// Which screen is shown.
#[derive(Debug, Clone, Copy, PartialEq, Eq, Structural)]
pub enum Screen {
    Auth,
    Main,
}

/// The sign-in form.
#[derive(Debug, Clone, PartialEq, Eq)]
pub struct AuthState {
    pub username: String,
    pub password: String,
    pub remember_me: bool,
}

/// A command to the voice engine.
#[derive(Debug, Clone, Copy, PartialEq, Eq, Structural)]
pub enum VoiceCmd {
    SetUserVolume(i64, u32),
    SetStreamVolume(i64, u32),
    SetRemoteVoiceDenoise { user_id: i64, enabled: bool },
}

/// The whole of the client's state, with what is to be sent.
#[derive(Debug)]
pub struct AstrixApp {
    pub screen: Screen,
    pub auth: AuthState,
    pub settings: Settings,
    pub dark_mode: bool,
    pub access_token: Option<String>,
    pub user_id: Option<i64>,
    pub main: MainState,
    /// Media that have a texture.
    pub media_textures: HashSet<i64>,
    /// Media whose bytes are here.
    pub media_bytes: HashSet<i64>,
    pub media_pending: VecDeque<i64>,
    /// Users whose avatar has a texture.
    pub avatar_textures: HashSet<i64>,
    pub avatar_failed: HashSet<i64>,
    pub avatar_pending: VecDeque<i64>,
    /// Whether a voice engine is there to take commands.
    pub voice_engine: bool,
    pub voice_cmds: Vec<VoiceCmd>,
    /// Whether a connection is there to take messages.
    pub ws_open: bool,
    pub ws_out: Vec<WsClientMsg>,
    pub repaint: bool,
}

/// The view of a [`VoiceState`].
#[verifier::ext_equal]
pub struct VoiceView {
    pub channel_id: Option<i64>,
    pub server_id: Option<i64>,
    pub participants: Seq<VoiceParticipant>,
    pub local_volumes: Map<i64, u32>,
    pub stream_volumes: Map<i64, u32>,
    pub receiver_denoise_users: Set<i64>,
    pub locally_muted: Set<i64>,
    pub stream_muted: Set<i64>,
    pub stream_subscriptions: Set<i64>,
    pub input_sensitivity: u32,
}

/// The view of a [`MainState`].
#[verifier::ext_equal]
pub struct MainView {
    pub servers: Seq<Server>,
    pub channels: Seq<Channel>,
    pub server_members: Seq<Member>,
    pub messages: Seq<Message>,
    pub messages_load_for: Option<i64>,
    pub selected_server: Option<i64>,
    pub selected_channel: Option<i64>,
    pub unread_channels: Set<i64>,
    pub online_users: Set<i64>,
    pub typing_users: Seq<TypingUser>,
    pub my_display_name: Seq<char>,
    pub new_message: Seq<char>,
    pub prev_message: Seq<char>,
    pub last_typing_sent: Option<u64>,
    pub ws_connected_server: Option<i64>,
    pub ws_viewing_channel: Option<i64>,
    pub pending_read_receipt: Option<(i64, i64)>,
    pub pending_media_ids: Seq<i64>,
    pub channel_voice: Map<i64, Seq<VoiceParticipant>>,
    pub voice: VoiceView,
    pub voice_video_textures: Set<i64>,
    pub voice_video_gpu_textures: Map<i64, u64>,
    pub voice_video_gpu_tex_pending_delete: Seq<u64>,
    pub voice_render_fps: Set<i64>,
    pub fullscreen_stream_user: Option<i64>,
}

/// The view of an [`AstrixApp`].
#[verifier::ext_equal]
pub struct AppView {
    pub screen: Screen,
    pub auth: AuthState,
    pub settings: Settings,
    pub dark_mode: bool,
    pub access_token: Option<String>,
    pub user_id: Option<i64>,
    pub main: MainView,
    pub media_textures: Set<i64>,
    pub media_bytes: Set<i64>,
    pub media_pending: Seq<i64>,
    pub avatar_textures: Set<i64>,
    pub avatar_failed: Set<i64>,
    pub avatar_pending: Seq<i64>,
    pub voice_engine: bool,
    pub voice_cmds: Seq<VoiceCmd>,
    pub ws_open: bool,
    pub ws_out: Seq<WsClientMsg>,
    pub repaint: bool,
}

impl View for VoiceState {
    type V = VoiceView;

    open spec fn view(&self) -> VoiceView {
        VoiceView {
            channel_id: self.channel_id,
            server_id: self.server_id,
            participants: self.participants@,
            local_volumes: self.local_volumes@,
            stream_volumes: self.stream_volumes@,
            receiver_denoise_users: self.receiver_denoise_users@,
            locally_muted: self.locally_muted@,
            stream_muted: self.stream_muted@,
            stream_subscriptions: self.stream_subscriptions@,
            input_sensitivity: self.input_sensitivity,
        }
    }
}

/// Who is in each voice channel.
pub open spec fn voice_lists(m: Map<i64, Vec<VoiceParticipant>>) -> Map<
    i64,
    Seq<VoiceParticipant>,
> {
    m.map_values(|v: Vec<VoiceParticipant>| v@)
}

impl View for MainState {
    type V = MainView;

    open spec fn view(&self) -> MainView {
        MainView {
            servers: self.servers@,
            channels: self.channels@,
            server_members: self.server_members@,
            messages: self.messages@,
            messages_load_for: self.messages_load_for,
            selected_server: self.selected_server,
            selected_channel: self.selected_channel,
            unread_channels: self.unread_channels@,
            online_users: self.online_users@,
            typing_users: self.typing_users@,
            my_display_name: self.my_display_name@,
            new_message: self.new_message@,
            prev_message: self.prev_message@,
            last_typing_sent: self.last_typing_sent,
            ws_connected_server: self.ws_connected_server,
            ws_viewing_channel: self.ws_viewing_channel,
            pending_read_receipt: self.pending_read_receipt,
            pending_media_ids: self.pending_media_ids@,
            channel_voice: voice_lists(self.channel_voice@),
            voice: self.voice@,
            voice_video_textures: self.voice_video_textures@,
            voice_video_gpu_textures: self.voice_video_gpu_textures@,
            voice_video_gpu_tex_pending_delete: self.voice_video_gpu_tex_pending_delete@,
            voice_render_fps: self.voice_render_fps@,
            fullscreen_stream_user: self.fullscreen_stream_user,
        }
    }
}

impl View for AstrixApp {
    type V = AppView;

    open spec fn view(&self) -> AppView {
        AppView {
            screen: self.screen,
            auth: self.auth,
            settings: self.settings,
            dark_mode: self.dark_mode,
            access_token: self.access_token,
            user_id: self.user_id,
            main: self.main@,
            media_textures: self.media_textures@,
            media_bytes: self.media_bytes@,
            media_pending: self.media_pending@,
            avatar_textures: self.avatar_textures@,
            avatar_failed: self.avatar_failed@,
            avatar_pending: self.avatar_pending@,
            voice_engine: self.voice_engine,
            voice_cmds: self.voice_cmds@,
            ws_open: self.ws_open,
            ws_out: self.ws_out@,
            repaint: self.repaint,
        }
    }
}

/// The main screen before anything was loaded.
pub open spec fn blank_main(input_sensitivity: u32) -> MainView {
    MainView {
        servers: Seq::empty(),
        channels: Seq::empty(),
        server_members: Seq::empty(),
        messages: Seq::empty(),
        messages_load_for: None,
        selected_server: None,
        selected_channel: None,
        unread_channels: Set::empty(),
        online_users: Set::empty(),
        typing_users: Seq::empty(),
        my_display_name: Seq::empty(),
        new_message: Seq::empty(),
        prev_message: Seq::empty(),
        last_typing_sent: None,
        ws_connected_server: None,
        ws_viewing_channel: None,
        pending_read_receipt: None,
        pending_media_ids: Seq::empty(),
        channel_voice: Map::empty(),
        voice: VoiceView {
            channel_id: None,
            server_id: None,
            participants: Seq::empty(),
            local_volumes: Map::empty(),
            stream_volumes: Map::empty(),
            receiver_denoise_users: Set::empty(),
            locally_muted: Set::empty(),
            stream_muted: Set::empty(),
            stream_subscriptions: Set::empty(),
            input_sensitivity,
        },
        voice_video_textures: Set::empty(),
        voice_video_gpu_textures: Map::empty(),
        voice_video_gpu_tex_pending_delete: Seq::empty(),
        voice_render_fps: Set::empty(),
        fullscreen_stream_user: None,
    }
}

impl MainState {
    /// The main screen before anything was loaded.
    pub fn blank(input_sensitivity: u32) -> (r: MainState)
        ensures
            r@ == blank_main(input_sensitivity),
    {
        let r = MainState {
            servers: Vec::new(),
            channels: Vec::new(),
            server_members: Vec::new(),
            messages: Vec::new(),
            messages_load_for: None,
            selected_server: None,
            selected_channel: None,
            unread_channels: HashSet::new(),
            online_users: HashSet::new(),
            typing_users: Vec::new(),
            my_display_name: String::new(),
            new_message: String::new(),
            prev_message: String::new(),
            last_typing_sent: None,
            ws_connected_server: None,
            ws_viewing_channel: None,
            pending_read_receipt: None,
            pending_media_ids: Vec::new(),
            channel_voice: HashMap::new(),
            voice: VoiceState {
                channel_id: None,
                server_id: None,
                participants: Vec::new(),
                local_volumes: HashMap::new(),
                stream_volumes: HashMap::new(),
                receiver_denoise_users: HashSet::new(),
                locally_muted: HashSet::new(),
                stream_muted: HashSet::new(),
                stream_subscriptions: HashSet::new(),
                input_sensitivity,
            },
            voice_video_textures: HashSet::new(),
            voice_video_gpu_textures: HashMap::new(),
            voice_video_gpu_tex_pending_delete: Vec::new(),
            voice_render_fps: HashSet::new(),
            fullscreen_stream_user: None,
        };
        assert(r@ =~= blank_main(input_sensitivity));
        r
    }
}

} // verus!
