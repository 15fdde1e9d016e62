//! What each event pushed by the server does to the client's state.
use std::collections::HashSet;

use vstd::prelude::*;

use crate::net::{
    AttachmentMeta, Channel, Member, Message, PayloadFields, Server, VideoKeys, VoiceParticipant,
    WsEvent,
};
use crate::rows::{self, distinct, has_key, index_of, without, Keyed};
use crate::state::{self, AppView, AstrixApp, MainView, TypingUser, VoiceCmd, VoiceView};
use crate::text;

verus! {

broadcast use vstd::std_specs::hash::group_hash_axioms;

/// The kinds of event that are acted upon.
#[derive(Debug, Clone, Copy, PartialEq, Eq, Structural)]
pub enum EventKind {
    MessageCreated,
    MessageUpdated,
    MessageDeleted,
    ChannelCreated,
    ChannelUpdated,
    ChannelDeleted,
    MemberJoined,
    MemberLeft,
    MemberUpdated,
    MemberRenamed,
    PresenceInit,
    PresenceUpdate,
    Typing,
    VoiceJoined,
    VoiceLeft,
    VoiceStateUpdate,
    ServerDeleted,
    ServerUpdated,
    ServerAdded,
    UserUpdated,
    MessagesRead,
    Unknown,
}

/// The kind that a name in the protocol stands for.
pub open spec fn kind_named(name: Seq<char>) -> EventKind {
    if name == "message.created"@ {
        EventKind::MessageCreated
    } else if name == "message.updated"@ {
        EventKind::MessageUpdated
    } else if name == "message.deleted"@ {
        EventKind::MessageDeleted
    } else if name == "channel.created"@ {
        EventKind::ChannelCreated
    } else if name == "channel.renamed"@ || name == "channel.updated"@ {
        EventKind::ChannelUpdated
    } else if name == "channel.deleted"@ {
        EventKind::ChannelDeleted
    } else if name == "member.joined"@ {
        EventKind::MemberJoined
    } else if name == "member.left"@ {
        EventKind::MemberLeft
    } else if name == "member.updated"@ {
        EventKind::MemberUpdated
    } else if name == "member.renamed"@ {
        EventKind::MemberRenamed
    } else if name == "presence.init"@ {
        EventKind::PresenceInit
    } else if name == "presence.update"@ {
        EventKind::PresenceUpdate
    } else if name == "typing"@ {
        EventKind::Typing
    } else if name == "voice.participant_joined"@ {
        EventKind::VoiceJoined
    } else if name == "voice.participant_left"@ {
        EventKind::VoiceLeft
    } else if name == "voice.state_update"@ {
        EventKind::VoiceStateUpdate
    } else if name == "server.deleted"@ {
        EventKind::ServerDeleted
    } else if name == "server.updated"@ {
        EventKind::ServerUpdated
    } else if name == "server.added"@ {
        EventKind::ServerAdded
    } else if name == "user.updated"@ {
        EventKind::UserUpdated
    } else if name == "messages.read"@ {
        EventKind::MessagesRead
    } else {
        EventKind::Unknown
    }
}

/// The kind that a name in the protocol stands for.
pub fn event_kind(name: &str) -> (r: EventKind)
    ensures
        r == kind_named(name@),
{
    if text::same(name, "message.created") {
        EventKind::MessageCreated
    } else if text::same(name, "message.updated") {
        EventKind::MessageUpdated
    } else if text::same(name, "message.deleted") {
        EventKind::MessageDeleted
    } else if text::same(name, "channel.created") {
        EventKind::ChannelCreated
    } else if text::same(name, "channel.renamed") || text::same(name, "channel.updated") {
        EventKind::ChannelUpdated
    } else if text::same(name, "channel.deleted") {
        EventKind::ChannelDeleted
    } else if text::same(name, "member.joined") {
        EventKind::MemberJoined
    } else if text::same(name, "member.left") {
        EventKind::MemberLeft
    } else if text::same(name, "member.updated") {
        EventKind::MemberUpdated
    } else if text::same(name, "member.renamed") {
        EventKind::MemberRenamed
    } else if text::same(name, "presence.init") {
        EventKind::PresenceInit
    } else if text::same(name, "presence.update") {
        EventKind::PresenceUpdate
    } else if text::same(name, "typing") {
        EventKind::Typing
    } else if text::same(name, "voice.participant_joined") {
        EventKind::VoiceJoined
    } else if text::same(name, "voice.participant_left") {
        EventKind::VoiceLeft
    } else if text::same(name, "voice.state_update") {
        EventKind::VoiceStateUpdate
    } else if text::same(name, "server.deleted") {
        EventKind::ServerDeleted
    } else if text::same(name, "server.updated") {
        EventKind::ServerUpdated
    } else if text::same(name, "server.added") {
        EventKind::ServerAdded
    } else if text::same(name, "user.updated") {
        EventKind::UserUpdated
    } else if text::same(name, "messages.read") {
        EventKind::MessagesRead
    } else {
        EventKind::Unknown
    }
}

/// The media of `attachments` of which neither a texture nor the bytes are here,
/// in order.
pub open spec fn missing_media(
    attachments: Seq<AttachmentMeta>,
    textures: Set<i64>,
    bytes: Set<i64>,
) -> Seq<i64>
    decreases attachments.len(),
{
    if attachments.len() == 0 {
        Seq::empty()
    } else {
        let before = missing_media(attachments.drop_last(), textures, bytes);
        let id = attachments.last().media_id;
        if textures.contains(id) || bytes.contains(id) {
            before
        } else {
            before.push(id)
        }
    }
}

/// A new message: unread where it stands in another channel and is not one's
/// own; added once; its missing media wanted.
pub open spec fn message_created(a: AppView, msg: Message) -> AppView {
    let unread = if Some(msg.channel_id) != a.main.selected_channel && Some(msg.author_id)
        != a.user_id {
        a.main.unread_channels.insert(msg.channel_id)
    } else {
        a.main.unread_channels
    };
    let i = index_of(a.main.messages, msg.id);
    let messages = if has_key(a.main.messages, msg.id) {
        a.main.messages.update(i, Message { seen_by: msg.seen_by, ..a.main.messages[i] })
    } else {
        a.main.messages.push(msg)
    };
    AppView {
        main: MainView { unread_channels: unread, messages, ..a.main },
        media_pending: a.media_pending + missing_media(
            msg.attachments@,
            a.media_textures,
            a.media_bytes,
        ),
        ..a
    }
}

/// An edited message: text and attachments, where the channel's messages are
/// loaded.
pub open spec fn message_updated(a: AppView, msg: Message) -> AppView {
    let i = index_of(a.main.messages, msg.id);
    if a.main.messages_load_for == Some(msg.channel_id) && has_key(a.main.messages, msg.id) {
        let edited = Message {
            content: msg.content,
            attachments: msg.attachments,
            ..a.main.messages[i]
        };
        AppView { main: MainView { messages: a.main.messages.update(i, edited), ..a.main }, ..a }
    } else {
        a
    }
}

/// A message that is gone.
pub open spec fn message_deleted(a: AppView, id: i64) -> AppView {
    AppView { main: MainView { messages: without(a.main.messages, id), ..a.main }, ..a }
}

/// A new channel of the selected server, added once.
pub open spec fn channel_created(a: AppView, ch: Channel) -> AppView {
    if Some(ch.server_id) == a.main.selected_server && !has_key(a.main.channels, ch.id) {
        AppView { main: MainView { channels: a.main.channels.push(ch), ..a.main }, ..a }
    } else {
        a
    }
}

/// A channel's new name and kind.
pub open spec fn channel_updated(a: AppView, ch: Channel) -> AppView {
    let i = index_of(a.main.channels, ch.id);
    if has_key(a.main.channels, ch.id) {
        let edited = Channel { name: ch.name, kind: ch.kind, ..a.main.channels[i] };
        AppView { main: MainView { channels: a.main.channels.update(i, edited), ..a.main }, ..a }
    } else {
        a
    }
}

/// The id of the first text channel.
pub open spec fn first_text_channel(channels: Seq<Channel>) -> Option<i64>
    decreases channels.len(),
{
    if channels.len() == 0 {
        None
    } else if channels[0].kind@ == "text"@ {
        Some(channels[0].id)
    } else {
        first_text_channel(channels.drop_first())
    }
}

/// A channel that is gone. Where it was selected, the first text channel takes
/// its place, with no messages loaded.
pub open spec fn channel_deleted(
    a: AppView,
    id: i64,
    payload_server: Option<i64>,
    event_server: i64,
) -> AppView {
    let here = match a.main.selected_server {
        Some(s) => payload_server == Some(s) || event_server == s,
        None => payload_server is None || event_server == 0,
    };
    let channels = without(a.main.channels, id);
    if !here {
        a
    } else if a.main.selected_channel == Some(id) {
        AppView {
            main: MainView {
                channels,
                selected_channel: first_text_channel(channels),
                messages: Seq::empty(),
                messages_load_for: None,
                ..a.main
            },
            ..a
        }
    } else {
        AppView { main: MainView { channels, ..a.main }, ..a }
    }
}

/// A new member of the selected server, added once.
pub open spec fn member_joined(a: AppView, m: Member, event_server: i64) -> AppView {
    if Some(event_server) == a.main.selected_server && !has_key(a.main.server_members, m.user_id) {
        AppView {
            main: MainView { server_members: a.main.server_members.push(m), ..a.main },
            ..a
        }
    } else {
        a
    }
}

/// A member of the selected server who is gone.
pub open spec fn member_left(a: AppView, user_id: i64, event_server: i64) -> AppView {
    if Some(event_server) == a.main.selected_server {
        AppView {
            main: MainView { server_members: without(a.main.server_members, user_id), ..a.main },
            ..a
        }
    } else {
        a
    }
}

/// A member of the selected server, changed or new.
pub open spec fn member_updated(a: AppView, m: Member, event_server: i64) -> AppView {
    let i = index_of(a.main.server_members, m.user_id);
    if Some(event_server) != a.main.selected_server {
        a
    } else {
        let members = if has_key(a.main.server_members, m.user_id) {
            a.main.server_members.update(
                i,
                Member {
                    username: m.username,
                    display_name: m.display_name,
                    is_owner: m.is_owner,
                    ..a.main.server_members[i]
                },
            )
        } else {
            a.main.server_members.push(m)
        };
        AppView { main: MainView { server_members: members, ..a.main }, ..a }
    }
}

/// A member's new display name, and one's own on the selected server.
pub open spec fn member_renamed(
    a: AppView,
    user_id: i64,
    name: String,
    event_server: i64,
) -> AppView {
    let i = index_of(a.main.server_members, user_id);
    let members = if has_key(a.main.server_members, user_id) {
        a.main.server_members.update(
            i,
            Member { display_name: name, ..a.main.server_members[i] },
        )
    } else {
        a.main.server_members
    };
    let mine = Some(user_id) == a.user_id && Some(event_server) == a.main.selected_server;
    AppView {
        main: MainView {
            server_members: members,
            my_display_name: if mine {
                name@
            } else {
                a.main.my_display_name
            },
            ..a.main
        },
        ..a
    }
}

/// Who is online at the start.
pub open spec fn presence_init(a: AppView, ids: Seq<i64>) -> AppView {
    AppView { main: MainView { online_users: ids.to_set(), ..a.main }, ..a }
}

/// Someone came online or went offline.
pub open spec fn presence_update(a: AppView, user_id: i64, online: bool) -> AppView {
    AppView {
        main: MainView {
            online_users: if online {
                a.main.online_users.insert(user_id)
            } else {
                a.main.online_users.remove(user_id)
            },
            ..a.main
        },
        ..a
    }
}

/// Someone writes in the selected channel: the time is noted, under the name
/// first heard.
pub open spec fn typing(
    a: AppView,
    user_id: i64,
    name: String,
    event_channel: i64,
    now: u64,
) -> AppView {
    let i = index_of(a.main.typing_users, user_id);
    if Some(event_channel) != a.main.selected_channel {
        a
    } else {
        let typing_users = if has_key(a.main.typing_users, user_id) {
            a.main.typing_users.update(i, TypingUser { since: now, ..a.main.typing_users[i] })
        } else {
            a.main.typing_users.push(TypingUser { user_id, name, since: now })
        };
        AppView { main: MainView { typing_users, ..a.main }, ..a }
    }
}

/// `list` with `p` at its end, unless `p` is there already.
pub open spec fn added_once(list: Seq<VoiceParticipant>, p: VoiceParticipant) -> Seq<
    VoiceParticipant,
> {
    if has_key(list, p.user_id) {
        list
    } else {
        list.push(p)
    }
}

/// Who is in a voice channel; nobody where nothing was heard of it.
pub open spec fn voices_in(m: Map<i64, Seq<VoiceParticipant>>, channel: i64) -> Seq<
    VoiceParticipant,
> {
    if m.contains_key(channel) {
        m[channel]
    } else {
        Seq::empty()
    }
}

/// The volumes and the denoising that were saved for a user, put in force here
/// and in the voice engine.
pub open spec fn saved_restored(a: AppView, user_id: i64) -> AppView {
    let volume = state::volume_of(a.settings.voice_volume_by_user@, user_id);
    let stream_volume = state::volume_of(a.settings.stream_volume_by_user@, user_id);
    let denoise = state::lists_user(a.settings.receiver_denoise_by_user@, user_id);
    let voice = VoiceView {
        local_volumes: a.main.voice.local_volumes.insert(user_id, volume),
        stream_volumes: a.main.voice.stream_volumes.insert(user_id, stream_volume),
        receiver_denoise_users: if denoise {
            a.main.voice.receiver_denoise_users.insert(user_id)
        } else {
            a.main.voice.receiver_denoise_users.remove(user_id)
        },
        ..a.main.voice
    };
    AppView {
        main: MainView { voice, ..a.main },
        voice_cmds: if a.voice_engine {
            a.voice_cmds + seq![
                VoiceCmd::SetUserVolume(user_id, volume),
                VoiceCmd::SetStreamVolume(user_id, stream_volume),
                VoiceCmd::SetRemoteVoiceDenoise { user_id, enabled: denoise },
            ]
        } else {
            a.voice_cmds
        },
        ..a
    }
}

/// Someone came into a voice channel: what was saved for the person is put in
/// force, and the person is added once to the channel and to the session.
pub open spec fn voice_joined(a: AppView, p: VoiceParticipant) -> AppView {
    let r = saved_restored(a, p.user_id);
    AppView {
        main: MainView {
            voice: VoiceView {
                participants: if a.main.voice.channel_id == p.channel_id {
                    added_once(a.main.voice.participants, p)
                } else {
                    a.main.voice.participants
                },
                ..r.main.voice
            },
            channel_voice: match p.channel_id {
                Some(c) => a.main.channel_voice.insert(
                    c,
                    added_once(voices_in(a.main.channel_voice, c), p),
                ),
                None => a.main.channel_voice,
            },
            ..r.main
        },
        ..r
    }
}

/// The texture ids under the keys, in the order of the keys.
pub open spec fn textures_under(m: Map<i64, u64>, keys: VideoKeys) -> Seq<u64> {
    let first = if m.contains_key(keys.stream) {
        seq![m[keys.stream]]
    } else {
        Seq::empty()
    };
    if keys.preview != keys.stream && m.contains_key(keys.preview) {
        first.push(m[keys.preview])
    } else {
        first
    }
}

/// Someone left voice: every trace of the person in the session goes, and where
/// it is oneself and the session's channel, the session ends.
pub open spec fn voice_left(
    a: AppView,
    user_id: i64,
    channel_id: Option<i64>,
    keys: VideoKeys,
) -> AppView {
    let channel_voice = match channel_id {
        Some(c) => if a.main.channel_voice.contains_key(c) {
            a.main.channel_voice.insert(c, without(a.main.channel_voice[c], user_id))
        } else {
            a.main.channel_voice
        },
        None => a.main.channel_voice,
    };
    let session_over = Some(user_id) == a.user_id && (channel_id is None
        || a.main.voice.channel_id == channel_id);
    let voice = VoiceView {
        participants: if session_over {
            Seq::empty()
        } else {
            without(a.main.voice.participants, user_id)
        },
        channel_id: if session_over {
            None
        } else {
            a.main.voice.channel_id
        },
        server_id: if session_over {
            None
        } else {
            a.main.voice.server_id
        },
        locally_muted: a.main.voice.locally_muted.remove(user_id),
        stream_muted: a.main.voice.stream_muted.remove(user_id),
        stream_subscriptions: a.main.voice.stream_subscriptions.remove(user_id),
        ..a.main.voice
    };
    AppView {
        main: MainView {
            channel_voice,
            voice,
            voice_video_textures: a.main.voice_video_textures.remove(keys.stream).remove(
                keys.preview,
            ),
            voice_video_gpu_textures: a.main.voice_video_gpu_textures.remove(keys.stream).remove(
                keys.preview,
            ),
            voice_video_gpu_tex_pending_delete: a.main.voice_video_gpu_tex_pending_delete
                + textures_under(a.main.voice_video_gpu_textures, keys),
            voice_render_fps: a.main.voice_render_fps.remove(keys.stream),
            fullscreen_stream_user: if a.main.fullscreen_stream_user == Some(user_id) {
                None
            } else {
                a.main.fullscreen_stream_user
            },
            ..a.main
        },
        ..a
    }
}

/// The flag that an update gives, or the flag as it was.
pub open spec fn given_or(update: Option<bool>, current: bool) -> bool {
    match update {
        Some(b) => b,
        None => current,
    }
}

/// A participant with the flags that an update gives.
pub open spec fn participant_updated(p: VoiceParticipant, f: PayloadFields) -> VoiceParticipant {
    VoiceParticipant {
        mic_muted: given_or(f.mic_muted, p.mic_muted),
        cam_enabled: given_or(f.cam_enabled, p.cam_enabled),
        streaming: given_or(f.streaming, p.streaming),
        ..p
    }
}

/// `list` with the flags of the user's first entry updated.
pub open spec fn list_updated(
    list: Seq<VoiceParticipant>,
    user_id: i64,
    f: PayloadFields,
) -> Seq<VoiceParticipant> {
    let i = index_of(list, user_id);
    if has_key(list, user_id) {
        list.update(i, participant_updated(list[i], f))
    } else {
        list
    }
}

/// Someone's flags in voice changed. Where the person is known and no longer
/// streams, what belonged to watching the stream goes.
pub open spec fn voice_state_updated(a: AppView, user_id: i64, f: PayloadFields) -> AppView {
    let session = a.main.voice.participants;
    let room = match f.channel_id {
        Some(c) => voices_in(a.main.channel_voice, c),
        None => Seq::empty(),
    };
    let channel_voice = match f.channel_id {
        Some(c) => if a.main.channel_voice.contains_key(c) {
            a.main.channel_voice.insert(c, list_updated(room, user_id, f))
        } else {
            a.main.channel_voice
        },
        None => a.main.channel_voice,
    };
    let stopped = if has_key(session, user_id) {
        !given_or(f.streaming, session[index_of(session, user_id)].streaming)
    } else if has_key(room, user_id) {
        !given_or(f.streaming, room[index_of(room, user_id)].streaming)
    } else {
        false
    };
    AppView {
        main: MainView {
            channel_voice,
            voice: VoiceView {
                participants: list_updated(session, user_id, f),
                stream_muted: if stopped {
                    a.main.voice.stream_muted.remove(user_id)
                } else {
                    a.main.voice.stream_muted
                },
                stream_subscriptions: if stopped {
                    a.main.voice.stream_subscriptions.remove(user_id)
                } else {
                    a.main.voice.stream_subscriptions
                },
                ..a.main.voice
            },
            fullscreen_stream_user: if stopped && a.main.fullscreen_stream_user == Some(user_id) {
                None
            } else {
                a.main.fullscreen_stream_user
            },
            ..a.main
        },
        ..a
    }
}

/// A server that is gone; where it was selected, nothing is.
pub open spec fn server_deleted(a: AppView, id: i64) -> AppView {
    let servers = without(a.main.servers, id);
    if a.main.selected_server == Some(id) {
        AppView {
            main: MainView {
                servers,
                selected_server: None,
                channels: Seq::empty(),
                server_members: Seq::empty(),
                selected_channel: None,
                messages: Seq::empty(),
                ..a.main
            },
            ..a
        }
    } else {
        AppView { main: MainView { servers, ..a.main }, ..a }
    }
}

/// A server's new name, and its owner where one is given.
pub open spec fn server_updated(
    a: AppView,
    id: i64,
    name: String,
    owner_id: Option<i64>,
) -> AppView {
    let i = index_of(a.main.servers, id);
    if has_key(a.main.servers, id) {
        let edited = Server {
            name,
            owner_id: match owner_id {
                Some(o) => o,
                None => a.main.servers[i].owner_id,
            },
            ..a.main.servers[i]
        };
        AppView { main: MainView { servers: a.main.servers.update(i, edited), ..a.main }, ..a }
    } else {
        a
    }
}

/// A server that was joined, added once.
pub open spec fn server_added(a: AppView, srv: Server) -> AppView {
    if has_key(a.main.servers, srv.id) {
        a
    } else {
        AppView { main: MainView { servers: a.main.servers.push(srv), ..a.main }, ..a }
    }
}

/// A message with its author's new name, where the author is the user.
pub open spec fn author_renamed(m: Message, user_id: i64, name: String) -> Message {
    if m.author_id == user_id {
        Message { author_username: name, ..m }
    } else {
        m
    }
}

/// A user's new name among the members and as an author.
pub open spec fn user_renamed(a: AppView, user_id: i64, name: String) -> AppView {
    let i = index_of(a.main.server_members, user_id);
    AppView {
        main: MainView {
            server_members: if has_key(a.main.server_members, user_id) {
                a.main.server_members.update(
                    i,
                    Member { username: name, ..a.main.server_members[i] },
                )
            } else {
                a.main.server_members
            },
            messages: Seq::new(
                a.main.messages.len(),
                |j: int| author_renamed(a.main.messages[j], user_id, name),
            ),
            ..a.main
        },
        ..a
    }
}

/// A user's avatar is to be fetched anew.
pub open spec fn avatar_forgotten(a: AppView, user_id: i64) -> AppView {
    AppView {
        avatar_textures: a.avatar_textures.remove(user_id),
        avatar_failed: a.avatar_failed.remove(user_id),
        avatar_pending: rows::ids_without(a.avatar_pending, user_id),
        ..a
    }
}

/// A user's name, avatar, or both changed.
pub open spec fn user_updated(a: AppView, f: PayloadFields) -> AppView {
    match f.user_ref {
        Some(uid) => {
            let renamed = match f.username {
                Some(name) => user_renamed(a, uid, name),
                None => a,
            };
            if given_or(f.avatar_changed, false) {
                avatar_forgotten(renamed, uid)
            } else {
                renamed
            }
        },
        None => a,
    }
}

/// `m` was seen by `reader`: noted once, and not of one's own messages.
pub open spec fn seen(m: Message, reader: i64) -> Seq<i64> {
    if m.author_id != reader && !m.seen_by@.contains(reader) {
        m.seen_by@.push(reader)
    } else {
        m.seen_by@
    }
}

/// `after` is `before` with the reader noted in `seen_by`.
pub open spec fn message_seen(before: Message, after: Message, reader: i64) -> bool {
    &&& after.seen_by@ == seen(before, reader)
    &&& after == Message { seen_by: after.seen_by, ..before }
}

/// `b` is `a` after `reader` has read the messages of `channel`.
pub open spec fn messages_read(a: AppView, b: AppView, reader: i64, channel: i64) -> bool {
    let unread = if Some(reader) == a.user_id {
        a.main.unread_channels.remove(channel)
    } else {
        a.main.unread_channels
    };
    &&& b == AppView {
        main: MainView { unread_channels: unread, messages: b.main.messages, ..a.main },
        ..a
    }
    &&& b.main.messages.len() == a.main.messages.len()
    &&& if a.main.messages_load_for == Some(channel) {
        forall|i: int|
            0 <= i < a.main.messages.len() ==> message_seen(
                a.main.messages[i],
                #[trigger] b.main.messages[i],
                reader,
            )
    } else {
        b.main.messages == a.main.messages
    }
}

/// `b` is `a` after the event.
pub open spec fn after_event(a: AppView, b: AppView, ev: WsEvent, now: u64) -> bool {
    let painted = AppView { repaint: true, ..a };
    match (kind_named(ev.kind@), ev.payload) {
        (EventKind::Unknown, _) => b == a,
        (_, None) => b == painted,
        (kind, Some(p)) => match kind {
            EventKind::MessageCreated => match p.decoded.message {
                Some(msg) => b == message_created(painted, msg),
                None => b == painted,
            },
            EventKind::MessageUpdated => match p.decoded.message {
                Some(msg) => b == message_updated(painted, msg),
                None => b == painted,
            },
            EventKind::MessageDeleted => match p.fields.message_ref {
                Some(id) => b == message_deleted(painted, id),
                None => b == painted,
            },
            EventKind::ChannelCreated => match p.decoded.channel {
                Some(ch) => b == channel_created(painted, ch),
                None => b == painted,
            },
            EventKind::ChannelUpdated => match p.decoded.channel {
                Some(ch) => b == channel_updated(painted, ch),
                None => b == painted,
            },
            EventKind::ChannelDeleted => match p.fields.channel_ref {
                Some(id) => b == channel_deleted(painted, id, p.fields.server_id, ev.server_id),
                None => b == painted,
            },
            EventKind::MemberJoined => match p.decoded.member {
                Some(m) => b == member_joined(painted, m, ev.server_id),
                None => b == painted,
            },
            EventKind::MemberLeft => match p.fields.user_id {
                Some(uid) => b == member_left(painted, uid, ev.server_id),
                None => b == painted,
            },
            EventKind::MemberUpdated => match p.decoded.member {
                Some(m) => b == member_updated(painted, m, ev.server_id),
                None => b == painted,
            },
            EventKind::MemberRenamed => match (p.fields.user_id, p.fields.display_name) {
                (Some(uid), Some(name)) => b == member_renamed(painted, uid, name, ev.server_id),
                _ => b == painted,
            },
            EventKind::PresenceInit => match p.fields.online_user_ids {
                Some(ids) => b == presence_init(painted, ids@),
                None => b == painted,
            },
            EventKind::PresenceUpdate => match (p.fields.user_id, p.fields.online) {
                (Some(uid), Some(online)) => b == presence_update(painted, uid, online),
                _ => b == painted,
            },
            EventKind::Typing => match (p.fields.user_id, p.fields.username) {
                (Some(uid), Some(name)) => b == typing(painted, uid, name, ev.channel_id, now),
                _ => b == painted,
            },
            EventKind::VoiceJoined => match p.decoded.participant {
                Some(v) => b == voice_joined(painted, v),
                None => b == painted,
            },
            EventKind::VoiceLeft => match p.fields.user_id {
                Some(uid) => b == voice_left(painted, uid, p.fields.channel_id, p.video_keys),
                None => b == painted,
            },
            EventKind::VoiceStateUpdate => match p.fields.user_id {
                Some(uid) => b == voice_state_updated(painted, uid, p.fields),
                None => b == painted,
            },
            EventKind::ServerDeleted => match p.fields.server_id {
                Some(id) => b == server_deleted(painted, id),
                None => b == painted,
            },
            EventKind::ServerUpdated => match p.decoded.server {
                Some(srv) => b == server_updated(painted, srv.id, srv.name, Some(srv.owner_id)),
                None => match (p.fields.server_ref, p.fields.name) {
                    (Some(id), Some(name)) => b == server_updated(painted, id, name, None),
                    _ => b == painted,
                },
            },
            EventKind::ServerAdded => match p.decoded.server {
                Some(srv) => b == server_added(painted, srv),
                None => match (p.fields.server_ref, p.fields.name) {
                    (Some(id), Some(name)) => b == server_added(
                        painted,
                        Server {
                            id,
                            name,
                            owner_id: match p.fields.owner_id {
                                Some(o) => o,
                                None => 0,
                            },
                        },
                    ),
                    _ => b == painted,
                },
            },
            EventKind::UserUpdated => b == user_updated(painted, p.fields),
            EventKind::MessagesRead => match (p.fields.reader_id, p.fields.channel_id) {
                (Some(reader), Some(channel)) => messages_read(painted, b, reader, channel),
                _ => b == painted,
            },
            EventKind::Unknown => b == a,
        },
    }
}

/// Appends the media of `attachments` that are not here.
fn want_missing_media(app: &mut AstrixApp, attachments: &Vec<AttachmentMeta>)
    ensures
        final(app)@ == (AppView {
            media_pending: old(app)@.media_pending + missing_media(
                attachments@,
                old(app)@.media_textures,
                old(app)@.media_bytes,
            ),
            ..old(app)@
        }),
{
    let ghost before = app@;
    let mut i: usize = 0;
    while i < attachments.len()
        invariant
            i <= attachments@.len(),
            app@ =~= (AppView {
                media_pending: before.media_pending + missing_media(
                    attachments@.take(i as int),
                    before.media_textures,
                    before.media_bytes,
                ),
                ..before
            }),
        decreases attachments@.len() - i,
    {
        assert(attachments@.take(i + 1).drop_last() =~= attachments@.take(i as int));
        let id: i64 = attachments[i].media_id;
        if !app.media_textures.contains(&id) && !app.media_bytes.contains(&id) {
            app.media_pending.push_back(id);
        }
        i += 1;
    }
    assert(attachments@.take(i as int) =~= attachments@);
}

fn on_message_created(app: &mut AstrixApp, msg: Message)
    ensures
        final(app)@ == message_created(old(app)@, msg),
{
    let ghost before = app@;
    if Some(msg.channel_id) != app.main.selected_channel && Some(msg.author_id) != app.user_id {
        app.main.unread_channels.insert(msg.channel_id);
    }
    want_missing_media(app, &msg.attachments);
    match rows::find(&app.main.messages, msg.id) {
        Some(i) => {
            app.main.messages[i].seen_by = msg.seen_by;
        },
        None => {
            app.main.messages.push(msg);
        },
    }
    assert(app@ =~= message_created(before, msg));
}

fn on_message_updated(app: &mut AstrixApp, msg: Message)
    ensures
        final(app)@ == message_updated(old(app)@, msg),
{
    let ghost before = app@;
    if app.main.messages_load_for == Some(msg.channel_id) {
        if let Some(i) = rows::find(&app.main.messages, msg.id) {
            app.main.messages[i].content = msg.content;
            app.main.messages[i].attachments = msg.attachments;
        }
    }
    assert(app@ =~= message_updated(before, msg));
}

fn on_channel_updated(app: &mut AstrixApp, ch: Channel)
    ensures
        final(app)@ == channel_updated(old(app)@, ch),
{
    let ghost before = app@;
    if let Some(i) = rows::find(&app.main.channels, ch.id) {
        app.main.channels[i].name = ch.name;
        app.main.channels[i].kind = ch.kind;
    }
    assert(app@ =~= channel_updated(before, ch));
}

/// The id of the first text channel.
pub fn fallback_channel(channels: &Vec<Channel>) -> (r: Option<i64>)
    ensures
        r == first_text_channel(channels@),
{
    let mut i: usize = 0;
    assert(channels@.skip(0) =~= channels@);
    while i < channels.len()
        invariant
            i <= channels@.len(),
            first_text_channel(channels@) == first_text_channel(channels@.skip(i as int)),
        decreases channels@.len() - i,
    {
        if text::same(channels[i].kind.as_str(), "text") {
            return Some(channels[i].id);
        }
        assert(channels@.skip(i as int).drop_first() =~= channels@.skip(i + 1));
        i += 1;
    }
    None
}

fn on_channel_deleted(
    app: &mut AstrixApp,
    id: i64,
    payload_server: Option<i64>,
    event_server: i64,
)
    ensures
        final(app)@ == channel_deleted(old(app)@, id, payload_server, event_server),
{
    let ghost before = app@;
    let selected: i64 = match app.main.selected_server {
        Some(s) => s,
        None => 0,
    };
    if payload_server == app.main.selected_server || event_server == selected {
        rows::remove_key(&mut app.main.channels, id);
        if app.main.selected_channel == Some(id) {
            app.main.selected_channel = fallback_channel(&app.main.channels);
            app.main.messages.clear();
            app.main.messages_load_for = None;
        }
    }
    assert(app@ =~= channel_deleted(before, id, payload_server, event_server));
}

fn on_member_updated(app: &mut AstrixApp, m: Member, event_server: i64)
    ensures
        final(app)@ == member_updated(old(app)@, m, event_server),
{
    let ghost before = app@;
    if Some(event_server) == app.main.selected_server {
        match rows::find(&app.main.server_members, m.user_id) {
            Some(i) => {
                app.main.server_members[i].username = m.username;
                app.main.server_members[i].display_name = m.display_name;
                app.main.server_members[i].is_owner = m.is_owner;
            },
            None => {
                app.main.server_members.push(m);
            },
        }
    }
    assert(app@ =~= member_updated(before, m, event_server));
}

fn on_member_renamed(app: &mut AstrixApp, user_id: i64, name: String, event_server: i64)
    ensures
        final(app)@ == member_renamed(old(app)@, user_id, name, event_server),
{
    let ghost before = app@;
    if let Some(i) = rows::find(&app.main.server_members, user_id) {
        app.main.server_members[i].display_name = name.clone();
    }
    if Some(user_id) == app.user_id && Some(event_server) == app.main.selected_server {
        app.main.my_display_name = name;
    }
    assert(app@ =~= member_renamed(before, user_id, name, event_server));
}

/// The ids as a set.
pub fn id_set(ids: &Vec<i64>) -> (r: HashSet<i64>)
    ensures
        r@ == ids@.to_set(),
{
    let mut r: HashSet<i64> = HashSet::new();
    let mut i: usize = 0;
    assert(r@ =~= ids@.take(0).to_set());
    while i < ids.len()
        invariant
            i <= ids@.len(),
            r@ == ids@.take(i as int).to_set(),
        decreases ids@.len() - i,
    {
        r.insert(ids[i]);
        i += 1;
        proof {
            let before = ids@.take(i - 1);
            let after = ids@.take(i as int);
            assert(after =~= before.push(ids@[i - 1]));
            assert forall|x: i64| after.to_set().contains(x) == before.to_set().insert(
                ids@[i - 1],
            ).contains(x) by {
                if before.contains(x) {
                    let j = choose|j: int| 0 <= j < before.len() && before[j] == x;
                    assert(after[j] == x);
                }
                if x == ids@[i - 1] {
                    assert(after[i - 1] == x);
                }
                if after.contains(x) {
                    let j = choose|j: int| 0 <= j < after.len() && after[j] == x;
                    if j < i - 1 {
                        assert(before[j] == x);
                    }
                }
            }
            assert(r@ =~= after.to_set());
        }
    }
    assert(ids@.take(i as int) =~= ids@);
    r
}

fn on_typing(app: &mut AstrixApp, user_id: i64, name: String, event_channel: i64, now: u64)
    ensures
        final(app)@ == typing(old(app)@, user_id, name, event_channel, now),
{
    let ghost before = app@;
    if Some(event_channel) == app.main.selected_channel {
        match rows::find(&app.main.typing_users, user_id) {
            Some(i) => {
                app.main.typing_users[i].since = now;
            },
            None => {
                app.main.typing_users.push(TypingUser { user_id, name, since: now });
            },
        }
    }
    assert(app@ =~= typing(before, user_id, name, event_channel, now));
}

/// Adds a participant once to the list of a voice channel.
fn enter_channel(app: &mut AstrixApp, p: &VoiceParticipant, channel: i64)
    ensures
        final(app)@ == (AppView {
            main: MainView {
                channel_voice: old(app)@.main.channel_voice.insert(
                    channel,
                    added_once(voices_in(old(app)@.main.channel_voice, channel), *p),
                ),
                ..old(app)@.main
            },
            ..old(app)@
        }),
{
    let ghost before = app@;
    let ghost lists = state::voice_lists(app.main.channel_voice@);
    let mut list = match app.main.channel_voice.remove(&channel) {
        Some(list) => list,
        None => Vec::new(),
    };
    assert(list@ == voices_in(lists, channel));
    if !rows::contains(&list, p.user_id) {
        list.push(p.duplicate());
    }
    app.main.channel_voice.insert(channel, list);
    assert(state::voice_lists(app.main.channel_voice@) =~= lists.insert(channel, list@));
    assert(app@ =~= (AppView {
        main: MainView {
            channel_voice: before.main.channel_voice.insert(
                channel,
                added_once(voices_in(before.main.channel_voice, channel), *p),
            ),
            ..before.main
        },
        ..before
    }));
}

/// Puts in force the volumes and the denoising that were saved for a user.
fn restore_saved(app: &mut AstrixApp, user_id: i64)
    ensures
        final(app)@ == saved_restored(old(app)@, user_id),
{
    let ghost before = app@;
    let volume: u32 = state::saved_volume(&app.settings.voice_volume_by_user, user_id);
    let stream_volume: u32 = state::saved_volume(&app.settings.stream_volume_by_user, user_id);
    let denoise = state::user_listed(&app.settings.receiver_denoise_by_user, user_id);
    app.main.voice.local_volumes.insert(user_id, volume);
    app.main.voice.stream_volumes.insert(user_id, stream_volume);
    if denoise {
        app.main.voice.receiver_denoise_users.insert(user_id);
    } else {
        app.main.voice.receiver_denoise_users.remove(&user_id);
    }
    if app.voice_engine {
        app.voice_cmds.push(VoiceCmd::SetUserVolume(user_id, volume));
        app.voice_cmds.push(VoiceCmd::SetStreamVolume(user_id, stream_volume));
        app.voice_cmds.push(VoiceCmd::SetRemoteVoiceDenoise { user_id, enabled: denoise });
    }
    assert(app@ =~= saved_restored(before, user_id));
}

fn on_voice_joined(app: &mut AstrixApp, p: VoiceParticipant)
    ensures
        final(app)@ == voice_joined(old(app)@, p),
{
    let ghost before = app@;
    restore_saved(app, p.user_id);
    if let Some(c) = p.channel_id {
        enter_channel(app, &p, c);
    }
    if app.main.voice.channel_id == p.channel_id && !rows::contains(
        &app.main.voice.participants,
        p.user_id,
    ) {
        app.main.voice.participants.push(p);
    }
    assert(app@ =~= voice_joined(before, p));
}

/// Takes a user out of the list of a voice channel, where there is one.
fn leave_channel(app: &mut AstrixApp, user_id: i64, channel: i64)
    ensures
        final(app)@ == (AppView {
            main: MainView {
                channel_voice: if old(app)@.main.channel_voice.contains_key(channel) {
                    old(app)@.main.channel_voice.insert(
                        channel,
                        without(old(app)@.main.channel_voice[channel], user_id),
                    )
                } else {
                    old(app)@.main.channel_voice
                },
                ..old(app)@.main
            },
            ..old(app)@
        }),
{
    let ghost before = app@;
    let ghost lists = state::voice_lists(app.main.channel_voice@);
    match app.main.channel_voice.remove(&channel) {
        Some(list) => {
            let mut list = list;
            rows::remove_key(&mut list, user_id);
            app.main.channel_voice.insert(channel, list);
            assert(state::voice_lists(app.main.channel_voice@) =~= lists.insert(channel, list@));
        },
        None => {
            assert(state::voice_lists(app.main.channel_voice@) =~= lists);
        },
    }
    assert(app@ =~= (AppView {
        main: MainView {
            channel_voice: if before.main.channel_voice.contains_key(channel) {
                before.main.channel_voice.insert(
                    channel,
                    without(before.main.channel_voice[channel], user_id),
                )
            } else {
                before.main.channel_voice
            },
            ..before.main
        },
        ..before
    }));
}

fn on_voice_left(app: &mut AstrixApp, user_id: i64, channel_id: Option<i64>, keys: VideoKeys)
    ensures
        final(app)@ == voice_left(old(app)@, user_id, channel_id, keys),
{
    let ghost before = app@;
    if let Some(c) = channel_id {
        leave_channel(app, user_id, c);
    }
    rows::remove_key(&mut app.main.voice.participants, user_id);
    app.main.voice.locally_muted.remove(&user_id);
    app.main.voice.stream_muted.remove(&user_id);
    app.main.voice.stream_subscriptions.remove(&user_id);
    app.main.voice_video_textures.remove(&keys.stream);
    app.main.voice_video_textures.remove(&keys.preview);
    if let Some(tex) = app.main.voice_video_gpu_textures.remove(&keys.stream) {
        app.main.voice_video_gpu_tex_pending_delete.push(tex);
    }
    if let Some(tex) = app.main.voice_video_gpu_textures.remove(&keys.preview) {
        app.main.voice_video_gpu_tex_pending_delete.push(tex);
    }
    app.main.voice_render_fps.remove(&keys.stream);
    if app.main.fullscreen_stream_user == Some(user_id) {
        app.main.fullscreen_stream_user = None;
    }
    if Some(user_id) == app.user_id {
        if channel_id.is_none() || app.main.voice.channel_id == channel_id {
            app.main.voice.channel_id = None;
            app.main.voice.server_id = None;
            app.main.voice.participants.clear();
        }
    }
    assert(app@ =~= voice_left(before, user_id, channel_id, keys));
}

/// Sets the flags that an update gives.
fn update_participant(p: &mut VoiceParticipant, f: &PayloadFields)
    ensures
        *final(p) == participant_updated(*old(p), *f),
{
    if let Some(b) = f.mic_muted {
        p.mic_muted = b;
    }
    if let Some(b) = f.cam_enabled {
        p.cam_enabled = b;
    }
    if let Some(b) = f.streaming {
        p.streaming = b;
    }
}

/// Sets the flags of the user's first entry; the streaming flag that results,
/// where there is an entry.
fn update_list(list: &mut Vec<VoiceParticipant>, user_id: i64, f: &PayloadFields) -> (r: Option<
    bool,
>)
    ensures
        final(list)@ == list_updated(old(list)@, user_id, *f),
        r == (if has_key(old(list)@, user_id) {
            Some(given_or(f.streaming, old(list)@[index_of(old(list)@, user_id)].streaming))
        } else {
            None
        }),
{
    let ghost before = list@;
    match rows::find(list, user_id) {
        Some(i) => {
            update_participant(&mut list[i], f);
            assert(list@ =~= list_updated(before, user_id, *f));
            Some(list[i].streaming)
        },
        None => None,
    }
}

fn on_voice_state_update(app: &mut AstrixApp, user_id: i64, f: &PayloadFields)
    ensures
        final(app)@ == voice_state_updated(old(app)@, user_id, *f),
{
    let ghost before = app@;
    let mut streaming = update_list(&mut app.main.voice.participants, user_id, f);
    if let Some(c) = f.channel_id {
        let ghost lists = state::voice_lists(app.main.channel_voice@);
        match app.main.channel_voice.remove(&c) {
            Some(list) => {
                let mut list = list;
                let in_room = update_list(&mut list, user_id, f);
                if streaming.is_none() {
                    streaming = in_room;
                }
                app.main.channel_voice.insert(c, list);
                assert(state::voice_lists(app.main.channel_voice@) =~= lists.insert(c, list@));
            },
            None => {
                assert(state::voice_lists(app.main.channel_voice@) =~= lists);
            },
        }
    }
    if let Some(false) = streaming {
        app.main.voice.stream_muted.remove(&user_id);
        app.main.voice.stream_subscriptions.remove(&user_id);
        if app.main.fullscreen_stream_user == Some(user_id) {
            app.main.fullscreen_stream_user = None;
        }
    }
    assert(app@ =~= voice_state_updated(before, user_id, *f));
}

fn on_server_deleted(app: &mut AstrixApp, id: i64)
    ensures
        final(app)@ == server_deleted(old(app)@, id),
{
    let ghost before = app@;
    rows::remove_key(&mut app.main.servers, id);
    if app.main.selected_server == Some(id) {
        app.main.selected_server = None;
        app.main.channels.clear();
        app.main.server_members.clear();
        app.main.selected_channel = None;
        app.main.messages.clear();
    }
    assert(app@ =~= server_deleted(before, id));
}

fn on_server_updated(app: &mut AstrixApp, id: i64, name: String, owner_id: Option<i64>)
    ensures
        final(app)@ == server_updated(old(app)@, id, name, owner_id),
{
    let ghost before = app@;
    if let Some(i) = rows::find(&app.main.servers, id) {
        app.main.servers[i].name = name;
        if let Some(o) = owner_id {
            app.main.servers[i].owner_id = o;
        }
    }
    assert(app@ =~= server_updated(before, id, name, owner_id));
}

fn on_server_added(app: &mut AstrixApp, srv: Server)
    ensures
        final(app)@ == server_added(old(app)@, srv),
{
    let ghost before = app@;
    if !rows::contains(&app.main.servers, srv.id) {
        app.main.servers.push(srv);
    }
    assert(app@ =~= server_added(before, srv));
}

fn rename_user(app: &mut AstrixApp, user_id: i64, name: &String)
    ensures
        final(app)@ == user_renamed(old(app)@, user_id, *name),
{
    let ghost before = app@;
    if let Some(i) = rows::find(&app.main.server_members, user_id) {
        app.main.server_members[i].username = name.clone();
    }
    let ghost middle = app@;
    let mut j: usize = 0;
    while j < app.main.messages.len()
        invariant
            j <= app@.main.messages.len(),
            app@.main.messages.len() == before.main.messages.len(),
            app@ == (AppView {
                main: MainView { messages: app@.main.messages, ..middle.main },
                ..middle
            }),
            forall|k: int|
                0 <= k < j ==> #[trigger] app@.main.messages[k] == author_renamed(
                    before.main.messages[k],
                    user_id,
                    *name,
                ),
            forall|k: int|
                j <= k < before.main.messages.len() ==> #[trigger] app@.main.messages[k]
                    == before.main.messages[k],
        decreases app@.main.messages.len() - j,
    {
        if app.main.messages[j].author_id == user_id {
            app.main.messages[j].author_username = name.clone();
        }
        j += 1;
    }
    assert(app@ =~= user_renamed(before, user_id, *name));
}

fn forget_avatar(app: &mut AstrixApp, user_id: i64)
    ensures
        final(app)@ == avatar_forgotten(old(app)@, user_id),
{
    let ghost before = app@;
    app.avatar_textures.remove(&user_id);
    app.avatar_failed.remove(&user_id);
    let ghost middle = app@;
    let ghost all = app@.avatar_pending;
    let n: usize = app.avatar_pending.len();
    let mut i: usize = 0;
    assert(all.skip(0) + rows::ids_without(all.take(0), user_id) =~= all);
    assert(app@ =~= (AppView { avatar_pending: app@.avatar_pending, ..middle }));
    while i < n
        invariant
            i <= n,
            n == all.len(),
            app@ == (AppView { avatar_pending: app@.avatar_pending, ..middle }),
            app@.avatar_pending == all.skip(i as int) + rows::ids_without(
                all.take(i as int),
                user_id,
            ),
        decreases n - i,
    {
        let ghost tail = rows::ids_without(all.take(i as int), user_id);
        let head = app.avatar_pending.pop_front();
        assert(all.take(i + 1).drop_last() =~= all.take(i as int));
        if let Some(x) = head {
            assert(x == all[i as int]);
            if x != user_id {
                app.avatar_pending.push_back(x);
            }
        }
        i += 1;
        assert(app@.avatar_pending =~= all.skip(i as int) + rows::ids_without(
            all.take(i as int),
            user_id,
        ));
        assert(app@ =~= (AppView { avatar_pending: app@.avatar_pending, ..middle }));
    }
    assert(all.take(i as int) =~= all);
    assert(app@ =~= avatar_forgotten(before, user_id));
}

fn on_user_updated(app: &mut AstrixApp, f: &PayloadFields)
    ensures
        final(app)@ == user_updated(old(app)@, *f),
{
    if let Some(uid) = f.user_ref {
        if let Some(name) = &f.username {
            rename_user(app, uid, name);
        }
        if let Some(true) = f.avatar_changed {
            forget_avatar(app, uid);
        }
    }
}

fn on_messages_read(app: &mut AstrixApp, reader: i64, channel: i64)
    ensures
        messages_read(old(app)@, final(app)@, reader, channel),
{
    let ghost before = app@;
    if Some(reader) == app.user_id {
        app.main.unread_channels.remove(&channel);
    }
    if app.main.messages_load_for == Some(channel) {
        let ghost middle = app@;
        let mut j: usize = 0;
        while j < app.main.messages.len()
            invariant
                j <= app@.main.messages.len(),
                app@.main.messages.len() == before.main.messages.len(),
                app@ == (AppView {
                    main: MainView { messages: app@.main.messages, ..middle.main },
                    ..middle
                }),
                forall|k: int|
                    0 <= k < j ==> message_seen(
                        before.main.messages[k],
                        #[trigger] app@.main.messages[k],
                        reader,
                    ),
                forall|k: int|
                    j <= k < before.main.messages.len() ==> #[trigger] app@.main.messages[k]
                        == before.main.messages[k],
            decreases app@.main.messages.len() - j,
        {
            if app.main.messages[j].author_id != reader && !rows::contains_id(
                &app.main.messages[j].seen_by,
                reader,
            ) {
                app.main.messages[j].seen_by.push(reader);
            }
            j += 1;
        }
    }
    assert(app@ =~= (AppView {
        main: MainView {
            unread_channels: app@.main.unread_channels,
            messages: app@.main.messages,
            ..before.main
        },
        ..before
    }));
}

impl AstrixApp {
    /// Applies one event.
    pub fn process_ws_event(&mut self, ev: WsEvent, now: u64)
        ensures
            after_event(old(self)@, final(self)@, ev, now),
    {
        let ghost before = self@;
        let kind = event_kind(ev.kind.as_str());
        if kind == EventKind::Unknown {
            return ;
        }
        self.repaint = true;
        assert(self@ =~= (AppView { repaint: true, ..before }));
        let ghost painted = self@;
        let server_id: i64 = ev.server_id;
        let channel_id: i64 = ev.channel_id;
        let p = match ev.payload {
            Some(p) => p,
            None => {
                return ;
            },
        };
        match kind {
            EventKind::MessageCreated => {
                if let Some(msg) = p.decoded.message {
                    on_message_created(self, msg);
                }
            },
            EventKind::MessageUpdated => {
                if let Some(msg) = p.decoded.message {
                    on_message_updated(self, msg);
                }
            },
            EventKind::MessageDeleted => {
                if let Some(id) = p.fields.message_ref {
                    rows::remove_key(&mut self.main.messages, id);
                    assert(self@ =~= message_deleted(painted, id));
                }
            },
            EventKind::ChannelCreated => {
                if let Some(ch) = p.decoded.channel {
                    if Some(ch.server_id) == self.main.selected_server && !rows::contains(
                        &self.main.channels,
                        ch.id,
                    ) {
                        self.main.channels.push(ch);
                    }
                    assert(self@ =~= channel_created(painted, ch));
                }
            },
            EventKind::ChannelUpdated => {
                if let Some(ch) = p.decoded.channel {
                    on_channel_updated(self, ch);
                }
            },
            EventKind::ChannelDeleted => {
                if let Some(id) = p.fields.channel_ref {
                    on_channel_deleted(self, id, p.fields.server_id, server_id);
                }
            },
            EventKind::MemberJoined => {
                if let Some(m) = p.decoded.member {
                    if Some(server_id) == self.main.selected_server && !rows::contains(
                        &self.main.server_members,
                        m.user_id,
                    ) {
                        self.main.server_members.push(m);
                    }
                    assert(self@ =~= member_joined(painted, m, server_id));
                }
            },
            EventKind::MemberLeft => {
                if let Some(uid) = p.fields.user_id {
                    if Some(server_id) == self.main.selected_server {
                        rows::remove_key(&mut self.main.server_members, uid);
                    }
                    assert(self@ =~= member_left(painted, uid, server_id));
                }
            },
            EventKind::MemberUpdated => {
                if let Some(m) = p.decoded.member {
                    on_member_updated(self, m, server_id);
                }
            },
            EventKind::MemberRenamed => {
                if let (Some(uid), Some(name)) = (p.fields.user_id, p.fields.display_name) {
                    on_member_renamed(self, uid, name, server_id);
                }
            },
            EventKind::PresenceInit => {
                if let Some(ids) = &p.fields.online_user_ids {
                    self.main.online_users = id_set(ids);
                    assert(self@ =~= presence_init(painted, ids@));
                }
            },
            EventKind::PresenceUpdate => {
                if let (Some(uid), Some(online)) = (p.fields.user_id, p.fields.online) {
                    if online {
                        self.main.online_users.insert(uid);
                    } else {
                        self.main.online_users.remove(&uid);
                    }
                    assert(self@ =~= presence_update(painted, uid, online));
                }
            },
            EventKind::Typing => {
                if let (Some(uid), Some(name)) = (p.fields.user_id, p.fields.username) {
                    on_typing(self, uid, name, channel_id, now);
                }
            },
            EventKind::VoiceJoined => {
                if let Some(v) = p.decoded.participant {
                    on_voice_joined(self, v);
                }
            },
            EventKind::VoiceLeft => {
                if let Some(uid) = p.fields.user_id {
                    on_voice_left(self, uid, p.fields.channel_id, p.video_keys);
                }
            },
            EventKind::VoiceStateUpdate => {
                if let Some(uid) = p.fields.user_id {
                    on_voice_state_update(self, uid, &p.fields);
                }
            },
            EventKind::ServerDeleted => {
                if let Some(id) = p.fields.server_id {
                    on_server_deleted(self, id);
                }
            },
            EventKind::ServerUpdated => {
                if let Some(srv) = p.decoded.server {
                    on_server_updated(self, srv.id, srv.name, Some(srv.owner_id));
                } else if let (Some(id), Some(name)) = (p.fields.server_ref, p.fields.name) {
                    on_server_updated(self, id, name, None);
                }
            },
            EventKind::ServerAdded => {
                if let Some(srv) = p.decoded.server {
                    on_server_added(self, srv);
                } else if let (Some(id), Some(name)) = (p.fields.server_ref, p.fields.name) {
                    let owner_id: i64 = match p.fields.owner_id {
                        Some(o) => o,
                        None => 0,
                    };
                    on_server_added(self, Server { id, name, owner_id });
                }
            },
            EventKind::UserUpdated => {
                on_user_updated(self, &p.fields);
            },
            EventKind::MessagesRead => {
                if let (Some(reader), Some(channel)) = (p.fields.reader_id, p.fields.channel_id) {
                    on_messages_read(self, reader, channel);
                }
            },
            EventKind::Unknown => {},
        }
    }

    /// Applies the events that have come in, in order.
    pub fn process_ws_events(&mut self, events: Vec<WsEvent>, now: u64)
        ensures
            after_events(old(self)@, final(self)@, events@, now),
    {
        let ghost before = self@;
        let ghost all = events@;
        let ghost mut states: Seq<AppView> = seq![self@];
        for ev in it: events
            invariant
                it.seq() == all,
                is_run(states, all.take(it.index() as int), now),
                states[0] == before,
                states.last() == self@,
        {
            let ghost done = all.take(it.index() + 1);
            self.process_ws_event(ev, now);
            proof {
                let earlier = states;
                states = states.push(self@);
                assert forall|i: int| 0 <= i < done.len() implies #[trigger] step(
                    states,
                    done,
                    i,
                    now,
                ) by {
                    if i < done.len() - 1 {
                        assert(step(earlier, all.take(it.index() as int), i, now));
                    }
                }
            }
        }
        assert(all.take(all.len() as int) =~= all);
    }
}

/// The `i`-th event leads from the `i`-th state to the next.
pub open spec fn step(states: Seq<AppView>, events: Seq<WsEvent>, i: int, now: u64) -> bool {
    after_event(states[i], states[i + 1], events[i], now)
}

/// `states` are those before, between and after the events.
pub open spec fn is_run(states: Seq<AppView>, events: Seq<WsEvent>, now: u64) -> bool {
    &&& states.len() == events.len() + 1
    &&& forall|i: int| 0 <= i < events.len() ==> #[trigger] step(states, events, i, now)
}

/// `b` is `a` after the events, one after another.
pub open spec fn after_events(a: AppView, b: AppView, events: Seq<WsEvent>, now: u64) -> bool {
    exists|states: Seq<AppView>| #[trigger]
        is_run(states, events, now) && states[0] == a && states.last() == b
}

/// Every list holds each id at most once.
pub open spec fn ids_distinct(a: AppView) -> bool {
    &&& distinct(a.main.servers)
    &&& distinct(a.main.channels)
    &&& distinct(a.main.server_members)
    &&& distinct(a.main.messages)
    &&& distinct(a.main.typing_users)
    &&& distinct(a.main.voice.participants)
    &&& forall|c: i64| #[trigger]
        a.main.channel_voice.contains_key(c) ==> distinct(a.main.channel_voice[c])
}

proof fn keys_kept_distinct<T: rows::Keyed>(a: Seq<T>, b: Seq<T>)
    requires
        distinct(a),
        a.len() == b.len(),
        forall|i: int| 0 <= i < a.len() ==> (#[trigger] b[i]).key() == a[i].key(),
    ensures
        distinct(b),
{
    assert forall|i: int, j: int| 0 <= i < j < b.len() implies (#[trigger] b[i]).key() != (
    #[trigger] b[j]).key() by {
        assert(a[i].key() != a[j].key());
    }
}

proof fn push_kept_distinct<T: rows::Keyed>(a: Seq<T>, x: T)
    requires
        distinct(a),
        !has_key(a, x.key()),
    ensures
        distinct(a.push(x)),
{
    let b = a.push(x);
    assert forall|i: int, j: int| 0 <= i < j < b.len() implies (#[trigger] b[i]).key() != (
    #[trigger] b[j]).key() by {
        assert(a[i].key() != x.key());
        if j < a.len() {
            assert(a[i].key() != a[j].key());
        }
    }
}

/// No event ever puts the same id twice into a list: servers, channels, members,
/// messages, writers, and the people in voice stay free of duplicates.
pub proof fn events_keep_ids_distinct(a: AppView, b: AppView, ev: WsEvent, now: u64)
    requires
        ids_distinct(a),
        after_event(a, b, ev, now),
    ensures
        ids_distinct(b),
{
    if let Some(p) = ev.payload {
        if let Some(msg) = p.decoded.message {
            rows::index_of_is_first(a.main.messages, msg.id);
            if !has_key(a.main.messages, msg.id) {
                push_kept_distinct(a.main.messages, msg);
            }
            keys_kept_distinct(
                a.main.messages,
                message_updated(AppView { repaint: true, ..a }, msg).main.messages,
            );
            if has_key(a.main.messages, msg.id) {
                keys_kept_distinct(
                    a.main.messages,
                    message_created(AppView { repaint: true, ..a }, msg).main.messages,
                );
            }
        }
        if let Some(id) = p.fields.message_ref {
            rows::without_keeps_others(a.main.messages, id);
        }
        if let Some(ch) = p.decoded.channel {
            rows::index_of_is_first(a.main.channels, ch.id);
            if !has_key(a.main.channels, ch.id) {
                push_kept_distinct(a.main.channels, ch);
            }
            keys_kept_distinct(
                a.main.channels,
                channel_updated(AppView { repaint: true, ..a }, ch).main.channels,
            );
        }
        if let Some(id) = p.fields.channel_ref {
            rows::without_keeps_others(a.main.channels, id);
        }
        if let Some(m) = p.decoded.member {
            rows::index_of_is_first(a.main.server_members, m.user_id);
            if !has_key(a.main.server_members, m.user_id) {
                push_kept_distinct(a.main.server_members, m);
            } else {
                keys_kept_distinct(
                    a.main.server_members,
                    member_updated(
                        AppView { repaint: true, ..a },
                        m,
                        ev.server_id,
                    ).main.server_members,
                );
            }
        }
        if let Some(uid) = p.fields.user_id {
            rows::index_of_is_first(a.main.server_members, uid);
            rows::without_keeps_others(a.main.server_members, uid);
            rows::without_keeps_others(a.main.voice.participants, uid);
            if let Some(name) = p.fields.display_name {
                keys_kept_distinct(
                    a.main.server_members,
                    member_renamed(
                        AppView { repaint: true, ..a },
                        uid,
                        name,
                        ev.server_id,
                    ).main.server_members,
                );
            }
            if let Some(name) = p.fields.username {
                rows::index_of_is_first(a.main.typing_users, uid);
                if has_key(a.main.typing_users, uid) {
                    keys_kept_distinct(
                        a.main.typing_users,
                        typing(
                            AppView { repaint: true, ..a },
                            uid,
                            name,
                            ev.channel_id,
                            now,
                        ).main.typing_users,
                    );
                } else {
                    push_kept_distinct(
                        a.main.typing_users,
                        TypingUser { user_id: uid, name, since: now },
                    );
                }
            }
            if let Some(c) = p.fields.channel_id {
                if a.main.channel_voice.contains_key(c) {
                    rows::without_keeps_others(a.main.channel_voice[c], uid);
                    rows::index_of_is_first(a.main.channel_voice[c], uid);
                    keys_kept_distinct(
                        a.main.channel_voice[c],
                        list_updated(a.main.channel_voice[c], uid, p.fields),
                    );
                }
            }
            rows::index_of_is_first(a.main.voice.participants, uid);
            keys_kept_distinct(
                a.main.voice.participants,
                list_updated(a.main.voice.participants, uid, p.fields),
            );
        }
        if let Some(v) = p.decoded.participant {
            if !has_key(a.main.voice.participants, v.user_id) {
                push_kept_distinct(a.main.voice.participants, v);
            }
            if let Some(c) = v.channel_id {
                let list = voices_in(a.main.channel_voice, c);
                assert(distinct(list));
                if !has_key(list, v.user_id) {
                    push_kept_distinct(list, v);
                }
            }
        }
        if let Some(id) = p.fields.server_id {
            rows::without_keeps_others(a.main.servers, id);
        }
        if let Some(srv) = p.decoded.server {
            rows::index_of_is_first(a.main.servers, srv.id);
            if !has_key(a.main.servers, srv.id) {
                push_kept_distinct(a.main.servers, srv);
            }
            keys_kept_distinct(
                a.main.servers,
                server_updated(
                    AppView { repaint: true, ..a },
                    srv.id,
                    srv.name,
                    Some(srv.owner_id),
                ).main.servers,
            );
        }
        if let (Some(id), Some(name)) = (p.fields.server_ref, p.fields.name) {
            rows::index_of_is_first(a.main.servers, id);
            if !has_key(a.main.servers, id) {
                let owner_id = match p.fields.owner_id {
                    Some(o) => o,
                    None => 0,
                };
                push_kept_distinct(a.main.servers, Server { id, name, owner_id });
            }
            keys_kept_distinct(
                a.main.servers,
                server_updated(AppView { repaint: true, ..a }, id, name, None).main.servers,
            );
        }
        if let Some(uid) = p.fields.user_ref {
            rows::index_of_is_first(a.main.server_members, uid);
            if let Some(name) = p.fields.username {
                let r = user_renamed(AppView { repaint: true, ..a }, uid, name);
                keys_kept_distinct(a.main.server_members, r.main.server_members);
                keys_kept_distinct(a.main.messages, r.main.messages);
            }
        }
        if let (Some(reader), Some(channel)) = (p.fields.reader_id, p.fields.channel_id) {
            if messages_read(AppView { repaint: true, ..a }, b, reader, channel) {
                assert forall|i: int| 0 <= i < a.main.messages.len() implies (
                #[trigger] b.main.messages[i]).key() == a.main.messages[i].key() by {
                    if a.main.messages_load_for == Some(channel) {
                        assert(message_seen(a.main.messages[i], b.main.messages[i], reader));
                    }
                }
                keys_kept_distinct(a.main.messages, b.main.messages);
            }
        }
    }
}

/// Whatever events come, in whatever order, no list ever holds an id twice.
pub proof fn runs_keep_ids_distinct(a: AppView, b: AppView, events: Seq<WsEvent>, now: u64)
    requires
        ids_distinct(a),
        after_events(a, b, events, now),
    ensures
        ids_distinct(b),
{
    let states = choose|states: Seq<AppView>| #[trigger]
        is_run(states, events, now) && states[0] == a && states.last() == b;
    run_keeps_ids_distinct(states, events, now, events.len() as int);
}

proof fn run_keeps_ids_distinct(states: Seq<AppView>, events: Seq<WsEvent>, now: u64, n: int)
    requires
        is_run(states, events, now),
        ids_distinct(states[0]),
        0 <= n <= events.len(),
    ensures
        ids_distinct(states[n]),
    decreases n,
{
    if n > 0 {
        run_keeps_ids_distinct(states, events, now, n - 1);
        assert(step(states, events, n - 1, now));
        events_keep_ids_distinct(states[n - 1], states[n], events[n - 1], now);
    }
}

/// A second copy of an event that creates something changes nothing that the
/// first did not: the message, channel, member or server stays in its list once,
/// with the rest of the list as it was.
pub proof fn repeated_creation_adds_nothing(
    a: AppView,
    msg: Message,
    ch: Channel,
    m: Member,
    srv: Server,
    event_server: i64,
)
    ensures
        message_created(message_created(a, msg), msg).main == message_created(a, msg).main,
        channel_created(channel_created(a, ch), ch) == channel_created(a, ch),
        member_joined(member_joined(a, m, event_server), m, event_server) == member_joined(
            a,
            m,
            event_server,
        ),
        server_added(server_added(a, srv), srv) == server_added(a, srv),
{
    let b = message_created(a, msg).main.messages;
    rows::index_of_is_first(a.main.messages, msg.id);
    rows::index_of_is_first(b, msg.id);
    let i = index_of(a.main.messages, msg.id);
    assert(b[i].key() == msg.id);
    assert forall|j: int| 0 <= j < i implies (#[trigger] b[j]).key() != msg.id by {
        assert(b[j] == a.main.messages[j]);
    }
    assert(index_of(b, msg.id) == i);
    assert(message_created(message_created(a, msg), msg).main =~= message_created(a, msg).main);
    let c = channel_created(a, ch).main.channels;
    if c.len() > a.main.channels.len() {
        assert(c[c.len() - 1].key() == ch.id);
    }
    let d = member_joined(a, m, event_server).main.server_members;
    if d.len() > a.main.server_members.len() {
        assert(d[d.len() - 1].key() == m.user_id);
    }
    let e = server_added(a, srv).main.servers;
    if e.len() > a.main.servers.len() {
        assert(e[e.len() - 1].key() == srv.id);
    }
}

/// What was deleted is no longer listed, and nothing else went with it.
pub proof fn deletion_removes_exactly(a: AppView, id: i64)
    ensures
        !has_key(message_deleted(a, id).main.messages, id),
        forall|m: Message| #[trigger]
            message_deleted(a, id).main.messages.contains(m) <==> a.main.messages.contains(m)
                && m.id != id,
        !has_key(server_deleted(a, id).main.servers, id),
        forall|s: Server| #[trigger]
            server_deleted(a, id).main.servers.contains(s) <==> a.main.servers.contains(s) && s.id
                != id,
        server_deleted(a, id).main.selected_server != Some(id),
{
    rows::without_keeps_others(a.main.messages, id);
    rows::without_keeps_others(a.main.servers, id);
}

/// One's own messages, and those of the channel on screen, never make a channel
/// unread.
pub proof fn own_and_visible_messages_are_read(a: AppView, msg: Message)
    requires
        Some(msg.author_id) == a.user_id || Some(msg.channel_id) == a.main.selected_channel,
    ensures
        message_created(a, msg).main.unread_channels == a.main.unread_channels,
{
}

/// Someone who left voice is in no list of the session, and is nobody's stream.
pub proof fn leaving_clears_the_session(
    a: AppView,
    user_id: i64,
    channel_id: Option<i64>,
    keys: VideoKeys,
)
    ensures
        ({
            let b = voice_left(a, user_id, channel_id, keys);
            &&& !has_key(b.main.voice.participants, user_id)
            &&& !b.main.voice.locally_muted.contains(user_id)
            &&& !b.main.voice.stream_muted.contains(user_id)
            &&& !b.main.voice.stream_subscriptions.contains(user_id)
            &&& b.main.fullscreen_stream_user != Some(user_id)
            &&& !b.main.voice_video_gpu_textures.contains_key(keys.stream)
            &&& !b.main.voice_video_gpu_textures.contains_key(keys.preview)
        }),
{
    rows::without_keeps_others(a.main.voice.participants, user_id);
}

} // verus!
