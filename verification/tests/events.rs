use std::collections::HashSet;

use astrix_client::net::{
    AttachmentMeta, Channel, ClientKind, Decoded, Member, Message, Server, VideoKeys,
    VoiceParticipant, WsClientMsg, WsEvent,
};
use astrix_client::pictures::{is_jpeg, Picture};
use astrix_client::state::{
    saved_volume, user_listed, AstrixApp, SavedVolume, Screen, Settings, TypingUser, VoiceCmd,
    FULL_VOLUME,
};
use astrix_client::ws_events::{event_kind, fallback_channel, id_set, EventKind};

const HALF: u32 = 0x3f00_0000;

fn settings() -> Settings {
    Settings {
        remember_me: false,
        saved_username: "alice".to_string(),
        saved_password: "secret".to_string(),
        input_sensitivity: HALF,
        dark_mode: false,
        voice_volume_by_user: Vec::new(),
        stream_volume_by_user: Vec::new(),
        receiver_denoise_by_user: Vec::new(),
    }
}

fn app() -> AstrixApp {
    let mut app = AstrixApp::new(settings());
    app.screen = Screen::Main;
    app.user_id = Some(1);
    app.main.selected_server = Some(10);
    app.main.selected_channel = Some(100);
    app.main.messages_load_for = Some(100);
    app
}

fn nothing() -> Decoded {
    Decoded { message: None, channel: None, member: None, participant: None, server: None }
}

fn keys() -> VideoKeys {
    VideoKeys { stream: 7, preview: -7 }
}

fn event(kind: &str, payload: &str, decoded: Decoded) -> WsEvent {
    let json: serde_json::Value = serde_json::from_str(payload).unwrap();
    WsEvent::from_json(kind.to_string(), 10, 100, Some(&json), decoded, keys())
}

fn message(id: i64, channel_id: i64, author_id: i64) -> Message {
    Message {
        id,
        channel_id,
        author_id,
        author_username: format!("user{}", author_id),
        content: format!("text {}", id),
        created_at: "2024-01-02T03:04:05Z".to_string(),
        seen_by: Vec::new(),
        attachments: Vec::new(),
    }
}

fn of_message(msg: Message) -> Decoded {
    Decoded { message: Some(msg), ..nothing() }
}

fn channel(id: i64, server_id: i64, kind: &str) -> Channel {
    Channel { id, server_id, name: format!("room {}", id), kind: kind.to_string() }
}

fn of_channel(ch: Channel) -> Decoded {
    Decoded { channel: Some(ch), ..nothing() }
}

fn member(user_id: i64) -> Member {
    Member {
        user_id,
        username: format!("user{}", user_id),
        display_name: format!("User {}", user_id),
        is_owner: false,
    }
}

fn of_member(m: Member) -> Decoded {
    Decoded { member: Some(m), ..nothing() }
}

fn server(id: i64) -> Server {
    Server { id, name: format!("server {}", id), owner_id: 5 }
}

fn of_server(s: Server) -> Decoded {
    Decoded { server: Some(s), ..nothing() }
}

fn person(user_id: i64, channel_id: Option<i64>) -> VoiceParticipant {
    VoiceParticipant {
        user_id,
        username: format!("user{}", user_id),
        channel_id,
        mic_muted: false,
        deafened: false,
        cam_enabled: false,
        streaming: true,
    }
}

fn of_person(p: VoiceParticipant) -> Decoded {
    Decoded { participant: Some(p), ..nothing() }
}

fn run(app: &mut AstrixApp, kind: &str, payload: &str, decoded: Decoded) {
    app.process_ws_event(event(kind, payload, decoded), 5_000);
}

#[test]
fn protocol_names_are_told_apart() {
    let names = vec![
        ("message.created", EventKind::MessageCreated),
        ("message.updated", EventKind::MessageUpdated),
        ("message.deleted", EventKind::MessageDeleted),
        ("channel.created", EventKind::ChannelCreated),
        ("channel.renamed", EventKind::ChannelUpdated),
        ("channel.updated", EventKind::ChannelUpdated),
        ("channel.deleted", EventKind::ChannelDeleted),
        ("member.joined", EventKind::MemberJoined),
        ("member.left", EventKind::MemberLeft),
        ("member.updated", EventKind::MemberUpdated),
        ("member.renamed", EventKind::MemberRenamed),
        ("presence.init", EventKind::PresenceInit),
        ("presence.update", EventKind::PresenceUpdate),
        ("typing", EventKind::Typing),
        ("voice.participant_joined", EventKind::VoiceJoined),
        ("voice.participant_left", EventKind::VoiceLeft),
        ("voice.state_update", EventKind::VoiceStateUpdate),
        ("server.deleted", EventKind::ServerDeleted),
        ("server.updated", EventKind::ServerUpdated),
        ("server.added", EventKind::ServerAdded),
        ("user.updated", EventKind::UserUpdated),
        ("messages.read", EventKind::MessagesRead),
        ("message.create", EventKind::Unknown),
        ("", EventKind::Unknown),
    ];
    for (name, kind) in names {
        assert_eq!(event_kind(name), kind);
    }
}

#[test]
fn payload_fields_are_read_by_type() {
    let json: serde_json::Value = serde_json::from_str(
        "{\"id\": 3, \"message_id\": 4, \"user_id\": \"x\", \"username\": \"bob\", \
         \"online\": true, \"online_user_ids\": [1, \"two\", 3, 4.5]}",
    )
    .unwrap();
    let f = astrix_client::net::read_payload(&json);
    assert_eq!(f.message_ref, Some(3));
    assert_eq!(f.channel_ref, Some(3));
    assert_eq!(f.server_ref, Some(3));
    // A field that is there but holds no integer is not replaced by another one.
    assert_eq!(f.user_ref, None);
    assert_eq!(f.user_id, None);
    assert_eq!(f.username, Some("bob".to_string()));
    assert_eq!(f.name, None);
    assert_eq!(f.online, Some(true));
    assert_eq!(f.mic_muted, None);
    assert_eq!(f.online_user_ids, Some(vec![1, 3]));
}

#[test]
fn payload_that_is_no_object_has_no_fields() {
    let json: serde_json::Value = serde_json::from_str("[1, 2]").unwrap();
    let f = astrix_client::net::read_payload(&json);
    assert_eq!(f.message_ref, None);
    assert_eq!(f.user_ref, None);
    assert_eq!(f.online_user_ids, None);
}

#[test]
fn new_message_elsewhere_is_unread() {
    let mut app = app();
    run(&mut app, "message.created", "{}", of_message(message(1, 200, 2)));
    assert!(app.main.unread_channels.contains(&200));
    assert_eq!(app.main.messages.len(), 1);
    assert!(app.repaint);
}

#[test]
fn own_message_and_visible_message_are_read() {
    let mut app = app();
    run(&mut app, "message.created", "{}", of_message(message(1, 200, 1)));
    run(&mut app, "message.created", "{}", of_message(message(2, 100, 2)));
    assert!(app.main.unread_channels.is_empty());
    assert_eq!(app.main.messages.len(), 2);
}

#[test]
fn message_created_again_updates_readers_only() {
    let mut app = app();
    run(&mut app, "message.created", "{}", of_message(message(1, 100, 2)));
    let mut again = message(1, 100, 2);
    again.content = "other".to_string();
    again.seen_by = vec![9];
    run(&mut app, "message.created", "{}", of_message(again));
    assert_eq!(app.main.messages.len(), 1);
    assert_eq!(app.main.messages[0].content, "text 1");
    assert_eq!(app.main.messages[0].seen_by, vec![9]);
}

#[test]
fn attachments_that_are_missing_are_wanted() {
    let mut app = app();
    app.media_textures.insert(51);
    app.media_bytes.insert(52);
    let mut msg = message(1, 100, 2);
    for id in vec![50, 51, 52, 53] {
        msg.attachments.push(AttachmentMeta {
            media_id: id,
            filename: "f".to_string(),
            mime_type: "image/png".to_string(),
            size_bytes: 1,
        });
    }
    run(&mut app, "message.created", "{}", of_message(msg));
    let wanted: Vec<i64> = app.media_pending.iter().copied().collect();
    assert_eq!(wanted, vec![50, 53]);
}

#[test]
fn message_that_does_not_decode_changes_nothing() {
    let mut app = app();
    run(&mut app, "message.created", "{}", nothing());
    assert!(app.main.messages.is_empty());
    assert!(app.repaint);
}

#[test]
fn unknown_event_does_not_even_repaint() {
    let mut app = app();
    run(&mut app, "message.exploded", "{}", of_message(message(1, 200, 2)));
    assert!(app.main.messages.is_empty());
    assert!(!app.repaint);
}

#[test]
fn event_without_payload_only_repaints() {
    let mut app = app();
    let ev = WsEvent {
        kind: "message.created".to_string(),
        server_id: 10,
        channel_id: 100,
        payload: None,
    };
    app.process_ws_event(ev, 0);
    assert!(app.repaint);
    assert!(app.main.messages.is_empty());
}

#[test]
fn edit_changes_text_where_the_channel_is_loaded() {
    let mut app = app();
    app.main.messages.push(message(1, 100, 2));
    let mut edit = message(1, 100, 2);
    edit.content = "new".to_string();
    edit.created_at = "later".to_string();
    run(&mut app, "message.updated", "{}", of_message(edit));
    assert_eq!(app.main.messages[0].content, "new");
    assert_eq!(app.main.messages[0].created_at, "2024-01-02T03:04:05Z");

    app.main.messages_load_for = Some(300);
    let mut other = message(1, 100, 2);
    other.content = "ignored".to_string();
    run(&mut app, "message.updated", "{}", of_message(other));
    assert_eq!(app.main.messages[0].content, "new");
}

#[test]
fn deletion_removes_exactly_the_message() {
    let mut app = app();
    for id in vec![1, 2, 3] {
        app.main.messages.push(message(id, 100, 2));
    }
    run(&mut app, "message.deleted", "{\"message_id\": 2}", nothing());
    let ids: Vec<i64> = app.main.messages.iter().map(|m| m.id).collect();
    assert_eq!(ids, vec![1, 3]);
    run(&mut app, "message.deleted", "{\"id\": 1}", nothing());
    let ids: Vec<i64> = app.main.messages.iter().map(|m| m.id).collect();
    assert_eq!(ids, vec![3]);
}

#[test]
fn channels_are_added_once_and_renamed() {
    let mut app = app();
    run(&mut app, "channel.created", "{}", of_channel(channel(7, 10, "text")));
    run(&mut app, "channel.created", "{}", of_channel(channel(7, 10, "text")));
    run(&mut app, "channel.created", "{}", of_channel(channel(8, 11, "text")));
    assert_eq!(app.main.channels.len(), 1);
    let mut renamed = channel(7, 99, "voice");
    renamed.name = "lounge".to_string();
    run(&mut app, "channel.renamed", "{}", of_channel(renamed));
    assert_eq!(app.main.channels[0].name, "lounge");
    assert_eq!(app.main.channels[0].kind, "voice");
    assert_eq!(app.main.channels[0].server_id, 10);
}

#[test]
fn deleting_the_selected_channel_falls_back_to_a_text_channel() {
    let mut app = app();
    app.main.channels.push(channel(100, 10, "text"));
    app.main.channels.push(channel(101, 10, "voice"));
    app.main.channels.push(channel(102, 10, "text"));
    app.main.messages.push(message(1, 100, 2));
    run(&mut app, "channel.deleted", "{\"id\": 100, \"server_id\": 10}", nothing());
    assert_eq!(app.main.selected_channel, Some(102));
    assert!(app.main.messages.is_empty());
    assert_eq!(app.main.messages_load_for, None);
    assert_eq!(app.main.channels.len(), 2);
}

#[test]
fn deletion_on_another_server_is_ignored() {
    let mut app = app();
    app.main.channels.push(channel(100, 10, "text"));
    let json: serde_json::Value =
        serde_json::from_str("{\"id\": 100, \"server_id\": 11}").unwrap();
    let ev =
        WsEvent::from_json("channel.deleted".to_string(), 11, 0, Some(&json), nothing(), keys());
    app.process_ws_event(ev, 0);
    assert_eq!(app.main.channels.len(), 1);
    assert_eq!(app.main.selected_channel, Some(100));
}

#[test]
fn fallback_is_the_first_text_channel() {
    assert_eq!(fallback_channel(&Vec::new()), None);
    assert_eq!(fallback_channel(&vec![channel(1, 1, "voice")]), None);
    let list = vec![channel(1, 1, "voice"), channel(2, 1, "text"), channel(3, 1, "text")];
    assert_eq!(fallback_channel(&list), Some(2));
}

#[test]
fn members_join_change_and_leave() {
    let mut app = app();
    run(&mut app, "member.joined", "{}", of_member(member(2)));
    run(&mut app, "member.joined", "{}", of_member(member(2)));
    assert_eq!(app.main.server_members.len(), 1);
    let mut changed = member(2);
    changed.is_owner = true;
    run(&mut app, "member.updated", "{}", of_member(changed));
    assert!(app.main.server_members[0].is_owner);
    run(&mut app, "member.updated", "{}", of_member(member(3)));
    assert_eq!(app.main.server_members.len(), 2);
    run(&mut app, "member.renamed", "{\"user_id\": 3, \"display_name\": \"Carol\"}", nothing());
    assert_eq!(app.main.server_members[1].display_name, "Carol");
    assert_eq!(app.main.my_display_name, "");
    run(&mut app, "member.renamed", "{\"user_id\": 1, \"display_name\": \"Me\"}", nothing());
    assert_eq!(app.main.my_display_name, "Me");
    run(&mut app, "member.left", "{\"user_id\": 2}", nothing());
    assert_eq!(app.main.server_members.len(), 1);
    assert_eq!(app.main.server_members[0].user_id, 3);
}

#[test]
fn presence_follows_the_events() {
    let mut app = app();
    run(&mut app, "presence.init", "{\"online_user_ids\": [1, 2, 2, 3]}", nothing());
    assert_eq!(app.main.online_users.len(), 3);
    run(&mut app, "presence.update", "{\"user_id\": 2, \"online\": false}", nothing());
    assert!(!app.main.online_users.contains(&2));
    run(&mut app, "presence.update", "{\"user_id\": 4, \"online\": true}", nothing());
    assert!(app.main.online_users.contains(&4));
    run(&mut app, "presence.update", "{\"user_id\": 5}", nothing());
    assert!(!app.main.online_users.contains(&5));
    let expected: HashSet<i64> = vec![1, 3, 4].into_iter().collect();
    assert_eq!(app.main.online_users, expected);
    assert_eq!(id_set(&vec![3, 4, 1, 3]), expected);
}

#[test]
fn typing_is_noted_for_the_selected_channel() {
    let mut app = app();
    run(&mut app, "typing", "{\"user_id\": 2, \"username\": \"bob\"}", nothing());
    assert_eq!(
        app.main.typing_users,
        vec![TypingUser { user_id: 2, name: "bob".to_string(), since: 5_000 }]
    );
    let ev = event("typing", "{\"user_id\": 2, \"username\": \"robert\"}", nothing());
    app.process_ws_event(ev, 9_000);
    assert_eq!(
        app.main.typing_users,
        vec![TypingUser { user_id: 2, name: "bob".to_string(), since: 9_000 }]
    );
    app.main.selected_channel = Some(101);
    run(&mut app, "typing", "{\"user_id\": 3, \"username\": \"eve\"}", nothing());
    assert_eq!(app.main.typing_users.len(), 1);
}

#[test]
fn joining_voice_restores_what_was_saved() {
    let mut app = app();
    app.settings.voice_volume_by_user.push(SavedVolume { user: "2".to_string(), volume: HALF });
    app.settings.receiver_denoise_by_user.push("2".to_string());
    app.voice_engine = true;
    app.main.voice.channel_id = Some(101);
    run(&mut app, "voice.participant_joined", "{}", of_person(person(2, Some(101))));
    assert_eq!(app.main.voice.local_volumes.get(&2), Some(&HALF));
    assert_eq!(app.main.voice.stream_volumes.get(&2), Some(&FULL_VOLUME));
    assert!(app.main.voice.receiver_denoise_users.contains(&2));
    assert_eq!(
        app.voice_cmds,
        vec![
            VoiceCmd::SetUserVolume(2, HALF),
            VoiceCmd::SetStreamVolume(2, FULL_VOLUME),
            VoiceCmd::SetRemoteVoiceDenoise { user_id: 2, enabled: true },
        ]
    );
    assert_eq!(app.main.voice.participants, vec![person(2, Some(101))]);
    assert_eq!(app.main.channel_voice.get(&101), Some(&vec![person(2, Some(101))]));
    run(&mut app, "voice.participant_joined", "{}", of_person(person(2, Some(101))));
    assert_eq!(app.main.voice.participants.len(), 1);
}

#[test]
fn leaving_voice_clears_every_trace() {
    let mut app = app();
    app.main.voice.channel_id = Some(101);
    app.main.voice.server_id = Some(10);
    app.main.voice.participants = vec![person(1, Some(101)), person(2, Some(101))];
    app.main.channel_voice.insert(101, vec![person(1, Some(101)), person(2, Some(101))]);
    app.main.voice.locally_muted.insert(2);
    app.main.voice.stream_muted.insert(2);
    app.main.voice.stream_subscriptions.insert(2);
    app.main.voice_video_textures.insert(7);
    app.main.voice_video_textures.insert(-7);
    app.main.voice_video_gpu_textures.insert(7, 70);
    app.main.voice_video_gpu_textures.insert(-7, 71);
    app.main.voice_video_gpu_textures.insert(9, 72);
    app.main.voice_render_fps.insert(7);
    app.main.fullscreen_stream_user = Some(2);
    run(&mut app, "voice.participant_left", "{\"user_id\": 2, \"channel_id\": 101}", nothing());
    assert_eq!(app.main.voice.participants, vec![person(1, Some(101))]);
    assert_eq!(app.main.channel_voice.get(&101), Some(&vec![person(1, Some(101))]));
    assert!(app.main.voice.locally_muted.is_empty());
    assert!(app.main.voice.stream_muted.is_empty());
    assert!(app.main.voice.stream_subscriptions.is_empty());
    assert!(app.main.voice_video_textures.is_empty());
    assert_eq!(app.main.voice_video_gpu_textures.len(), 1);
    assert_eq!(app.main.voice_video_gpu_tex_pending_delete, vec![70, 71]);
    assert!(app.main.voice_render_fps.is_empty());
    assert_eq!(app.main.fullscreen_stream_user, None);
    assert_eq!(app.main.voice.channel_id, Some(101));

    run(&mut app, "voice.participant_left", "{\"user_id\": 1, \"channel_id\": 101}", nothing());
    assert_eq!(app.main.voice.channel_id, None);
    assert_eq!(app.main.voice.server_id, None);
    assert!(app.main.voice.participants.is_empty());
}

#[test]
fn voice_flags_are_updated_and_a_stopped_stream_is_dropped() {
    let mut app = app();
    app.main.voice.participants = vec![person(2, Some(101))];
    app.main.channel_voice.insert(101, vec![person(2, Some(101))]);
    app.main.voice.stream_subscriptions.insert(2);
    app.main.fullscreen_stream_user = Some(2);
    run(
        &mut app,
        "voice.state_update",
        "{\"user_id\": 2, \"channel_id\": 101, \"mic_muted\": true}",
        nothing(),
    );
    assert!(app.main.voice.participants[0].mic_muted);
    assert!(app.main.voice.participants[0].streaming);
    assert!(app.main.voice.stream_subscriptions.contains(&2));
    run(
        &mut app,
        "voice.state_update",
        "{\"user_id\": 2, \"channel_id\": 101, \"streaming\": false}",
        nothing(),
    );
    assert!(!app.main.channel_voice.get(&101).unwrap()[0].streaming);
    assert!(app.main.voice.stream_subscriptions.is_empty());
    assert_eq!(app.main.fullscreen_stream_user, None);
}

#[test]
fn servers_are_added_renamed_and_deleted() {
    let mut app = app();
    run(&mut app, "server.added", "{}", of_server(server(10)));
    run(&mut app, "server.added", "{}", of_server(server(10)));
    run(&mut app, "server.added", "{\"server_id\": 11, \"name\": \"two\"}", nothing());
    assert_eq!(app.main.servers.len(), 2);
    assert_eq!(app.main.servers[1], Server { id: 11, name: "two".to_string(), owner_id: 0 });
    run(&mut app, "server.updated", "{\"id\": 10, \"name\": \"one\"}", nothing());
    assert_eq!(app.main.servers[0], Server { id: 10, name: "one".to_string(), owner_id: 5 });
    app.main.channels.push(channel(100, 10, "text"));
    run(&mut app, "server.deleted", "{\"server_id\": 10}", nothing());
    assert_eq!(app.main.servers.len(), 1);
    assert_eq!(app.main.selected_server, None);
    assert_eq!(app.main.selected_channel, None);
    assert!(app.main.channels.is_empty());
}

#[test]
fn user_update_renames_and_forgets_the_avatar() {
    let mut app = app();
    app.main.server_members.push(member(2));
    app.main.messages.push(message(1, 100, 2));
    app.main.messages.push(message(2, 100, 3));
    app.avatar_textures.insert(2);
    app.avatar_failed.insert(2);
    app.avatar_pending.push_back(2);
    app.avatar_pending.push_back(3);
    run(
        &mut app,
        "user.updated",
        "{\"user_id\": 2, \"username\": \"bobby\", \"avatar_changed\": true}",
        nothing(),
    );
    assert_eq!(app.main.server_members[0].username, "bobby");
    assert_eq!(app.main.messages[0].author_username, "bobby");
    assert_eq!(app.main.messages[1].author_username, "user3");
    assert!(app.avatar_textures.is_empty());
    assert!(app.avatar_failed.is_empty());
    assert_eq!(app.avatar_pending.len(), 1);
}

#[test]
fn readers_are_noted_once_and_not_on_their_own_messages() {
    let mut app = app();
    app.main.messages.push(message(1, 100, 1));
    app.main.messages.push(message(2, 100, 2));
    app.main.unread_channels.insert(100);
    run(&mut app, "messages.read", "{\"reader_id\": 2, \"channel_id\": 100}", nothing());
    run(&mut app, "messages.read", "{\"reader_id\": 2, \"channel_id\": 100}", nothing());
    assert_eq!(app.main.messages[0].seen_by, vec![2]);
    assert!(app.main.messages[1].seen_by.is_empty());
    assert!(app.main.unread_channels.contains(&100));
    run(&mut app, "messages.read", "{\"reader_id\": 1, \"channel_id\": 100}", nothing());
    assert!(!app.main.unread_channels.contains(&100));
}

#[test]
fn events_keep_ids_distinct_over_a_run() {
    let mut app = app();
    let events = vec![
        event("message.created", "{}", of_message(message(1, 100, 2))),
        event("message.created", "{}", of_message(message(2, 100, 2))),
        event("message.created", "{}", of_message(message(1, 100, 2))),
        event("message.deleted", "{\"id\": 2}", nothing()),
        event("message.created", "{}", of_message(message(2, 100, 2))),
        event("nothing.known", "{}", nothing()),
    ];
    app.process_ws_events(events, 1);
    let ids: Vec<i64> = app.main.messages.iter().map(|m| m.id).collect();
    assert_eq!(ids, vec![1, 2]);
}

#[test]
fn start_remembers_the_form_only_where_asked() {
    let plain = AstrixApp::new(settings());
    assert_eq!(plain.auth.username, "");
    assert_eq!(plain.auth.password, "");
    assert_eq!(plain.screen, Screen::Auth);
    assert!(plain.dark_mode);
    assert_eq!(plain.main.voice.input_sensitivity, HALF);
    let mut s = settings();
    s.remember_me = true;
    let filled = AstrixApp::new(s);
    assert_eq!(filled.auth.username, "alice");
    assert_eq!(filled.auth.password, "secret");
    assert!(filled.auth.remember_me);
}

#[test]
fn logout_forgets_the_session() {
    let mut app = app();
    app.access_token = Some("token".to_string());
    app.ws_open = true;
    app.main.messages.push(message(1, 100, 2));
    app.logout();
    assert_eq!(app.screen, Screen::Auth);
    assert_eq!(app.access_token, None);
    assert_eq!(app.user_id, None);
    assert!(!app.ws_open);
    assert!(app.main.messages.is_empty());
    assert_eq!(app.settings.saved_username, "");
    assert_eq!(app.settings.saved_password, "");
    assert_eq!(app.main.voice.input_sensitivity, HALF);
    app.ws_typing(1);
    assert!(app.ws_out.is_empty());

    let mut s = settings();
    s.remember_me = true;
    let mut kept = AstrixApp::new(s);
    kept.logout();
    assert_eq!(kept.settings.saved_username, "alice");
}

#[test]
fn frame_asks_for_a_connection_once() {
    let mut app = app();
    app.main.online_users.insert(9);
    assert_eq!(app.update(Vec::new(), 0), None);
    app.access_token = Some("token".to_string());
    app.main.server_members.push(member(2));
    let req = app.update(Vec::new(), 0).unwrap();
    assert_eq!(req.token, "token");
    assert_eq!(req.server_id, 10);
    assert_eq!(req.channel_id, Some(100));
    assert!(app.main.online_users.is_empty());
    assert!(app.settings.dark_mode);
    assert_eq!(app.avatar_pending.len(), 1);
    assert_eq!(app.update(Vec::new(), 0), None);
    assert_eq!(app.avatar_pending.len(), 1);
}

#[test]
fn stream_address_names_token_server_and_channel() {
    assert_eq!(
        astrix_client::app::ws_url("ws://h", "t", 3, None),
        "ws://h/ws?token=t&server_id=3"
    );
    assert_eq!(
        astrix_client::app::ws_url("ws://h", "t", -3, Some(12)),
        "ws://h/ws?token=t&server_id=-3&channel_id=12"
    );
}

#[test]
fn channel_on_screen_is_told_once() {
    let mut app = app();
    app.ws_open = true;
    app.prepare_main_screen(0);
    app.prepare_main_screen(1);
    assert_eq!(
        app.ws_out,
        vec![WsClientMsg {
            kind: ClientKind::ChannelView,
            channel_id: Some(100),
            last_message_id: None,
        }]
    );
    assert_eq!(app.main.ws_viewing_channel, Some(100));
}

#[test]
fn typing_is_told_at_most_once_a_second() {
    let mut app = app();
    app.ws_open = true;
    app.main.ws_viewing_channel = Some(100);
    app.main.new_message = "h".to_string();
    app.prepare_main_screen(1);
    assert_eq!(app.ws_out.len(), 1);
    assert_eq!(app.ws_out[0].kind, ClientKind::Typing);
    app.main.new_message = "he".to_string();
    app.prepare_main_screen(1_000_000_001);
    assert_eq!(app.ws_out.len(), 1);
    app.main.new_message = "hel".to_string();
    app.prepare_main_screen(1_000_000_002);
    assert_eq!(app.ws_out.len(), 2);
    // The draft did not change.
    app.prepare_main_screen(9_000_000_000);
    assert_eq!(app.ws_out.len(), 2);
}

#[test]
fn those_who_stopped_typing_are_dropped() {
    let mut app = app();
    for (id, since) in vec![(2, 0), (3, 1), (4, 2)] {
        app.main.typing_users.push(TypingUser { user_id: id, name: "n".to_string(), since });
    }
    app.prepare_main_screen(3_000_000_001);
    let left: Vec<i64> = app.main.typing_users.iter().map(|t| t.user_id).collect();
    assert_eq!(left, vec![4]);
}

#[test]
fn nothing_is_sent_without_a_connection() {
    let mut app = app();
    app.ws_typing(1);
    app.ws_view_channel(1, Some(2));
    assert!(app.ws_out.is_empty());
}

#[test]
fn read_receipt_names_the_last_message_where_positive() {
    let mut app = app();
    app.ws_open = true;
    app.ws_view_channel(1, Some(0));
    assert_eq!(app.ws_out[0].last_message_id, None);
    app.main.pending_read_receipt = Some((100, 5));
    app.main.pending_media_ids = vec![1, 2, 3];
    app.media_bytes.insert(2);
    app.follow_up_main_screen();
    assert_eq!(app.ws_out[1].last_message_id, Some(5));
    assert_eq!(app.ws_out[1].kind.wire_name(), "channel.view");
    assert_eq!(ClientKind::Typing.wire_name(), "typing");
    assert_eq!(app.main.pending_read_receipt, None);
    assert!(app.main.pending_media_ids.is_empty());
    let wanted: Vec<i64> = app.media_pending.iter().copied().collect();
    assert_eq!(wanted, vec![1, 3]);
}

#[test]
fn avatars_are_fetched_and_settled_once() {
    let mut app = app();
    app.main.server_members = vec![member(2), member(3), member(2), member(4)];
    app.avatar_failed.insert(4);
    app.queue_avatar_pending();
    let queued: Vec<i64> = app.avatar_pending.iter().copied().collect();
    assert_eq!(queued, vec![2, 3]);
    assert_eq!(app.next_avatar_download(), Some(2));
    assert!(app.settle_avatar(2, Some(10), true, true));
    assert_eq!(app.next_avatar_download(), Some(3));
    assert!(!app.settle_avatar(3, Some(0), true, true));
    assert!(app.avatar_failed.contains(&3));
    assert_eq!(app.next_avatar_download(), None);
    app.queue_avatar_pending();
    assert!(app.avatar_pending.is_empty());
    app.avatar_pending.push_back(2);
    assert_eq!(app.next_avatar_download(), None);
    assert!(app.avatar_pending.is_empty());
}

#[test]
fn media_are_fetched_with_the_token() {
    let mut app = app();
    app.media_pending.push_back(1);
    assert_eq!(app.next_media_download(), None);
    assert!(app.media_pending.is_empty());
    app.access_token = Some("t".to_string());
    app.media_pending.push_back(1);
    assert_eq!(app.next_media_download(), Some((1, "t".to_string())));
    assert!(!app.settle_media(1, true, false, true));
    assert!(app.media_bytes.contains(&1));
    assert!(!app.media_textures.contains(&1));
    assert!(app.settle_media(2, true, true, true));
    assert!(app.media_textures.contains(&2));
    assert!(!app.settle_media(3, false, false, true));
    assert!(!app.media_bytes.contains(&3));
}

#[test]
fn saved_volumes_are_found_by_decimal_id() {
    let list = vec![
        SavedVolume { user: "3".to_string(), volume: 1 },
        SavedVolume { user: "-4".to_string(), volume: 2 },
        SavedVolume { user: "3".to_string(), volume: 5 },
    ];
    assert_eq!(saved_volume(&list, 3), 1);
    assert_eq!(saved_volume(&list, -4), 2);
    assert_eq!(saved_volume(&list, 4), FULL_VOLUME);
    assert_eq!(f32::from_bits(FULL_VOLUME), 1.0);
    assert!(user_listed(&vec!["3".to_string()], 3));
    assert!(!user_listed(&vec!["03".to_string()], 3));
}

fn png() -> Vec<u8> {
    let mut img = image::RgbaImage::new(2, 1);
    img.put_pixel(0, 0, image::Rgba([1, 2, 3, 255]));
    img.put_pixel(1, 0, image::Rgba([4, 5, 6, 7]));
    let mut out = std::io::Cursor::new(Vec::new());
    img.write_to(&mut out, image::ImageFormat::Png).unwrap();
    out.into_inner()
}

#[test]
fn downloaded_avatars_are_decoded() {
    let mut app = app();
    let bytes = png();
    let p = app.process_avatar_downloads(2, Some(&bytes), None, true).unwrap();
    assert_eq!((p.width, p.height), (2, 1));
    assert_eq!(p.rgba, vec![1, 2, 3, 255, 4, 5, 6, 7]);
    assert!(app.avatar_textures.contains(&2));
    assert_eq!(app.process_avatar_downloads(3, Some(&bytes), None, false), None);
    assert_eq!(app.process_avatar_downloads(4, Some(&Vec::new()), None, true), None);
    assert_eq!(app.process_avatar_downloads(5, Some(&vec![1, 2, 3]), None, true), None);
    assert_eq!(app.process_avatar_downloads(6, None, None, true), None);
    let expected: HashSet<i64> = vec![3, 4, 5, 6].into_iter().collect();
    assert_eq!(app.avatar_failed, expected);
}

#[test]
fn downloaded_media_are_kept_and_decoded() {
    let mut app = app();
    let bytes = png();
    let p = app.process_media_downloads(2, Some(&bytes), None, true).unwrap();
    assert_eq!((p.width, p.height), (2, 1));
    assert_eq!(p.rgba, vec![1, 2, 3, 255, 4, 5, 6, 7]);
    assert!(app.media_bytes.contains(&2) && app.media_textures.contains(&2));
    assert_eq!(app.process_media_downloads(3, Some(&vec![9]), None, true), None);
    assert!(app.media_bytes.contains(&3) && !app.media_textures.contains(&3));
    assert_eq!(app.process_media_downloads(4, None, None, true), None);
    assert!(!app.media_bytes.contains(&4));
}

#[test]
fn jpeg_files_are_shown_as_they_were_decoded() {
    let mut app = app();
    let file = vec![0xff, 0xd8, 0xff, 0xe0];
    let decoded = Picture { width: 1, height: 1, rgba: vec![9, 8, 7, 255] };
    assert!(is_jpeg(&file) && !is_jpeg(&png()) && !is_jpeg(&[0xff, 0xd8]));
    let shown = app.process_avatar_downloads(2, Some(&file), Some(decoded.clone()), true);
    assert_eq!(shown, Some(decoded.clone()));
    assert_eq!(app.process_avatar_downloads(3, Some(&file), None, true), None);
    assert!(app.avatar_failed.contains(&3));
    let shown = app.process_media_downloads(4, Some(&file), Some(decoded.clone()), true);
    assert_eq!(shown, Some(decoded.clone()));
    assert_eq!(app.process_media_downloads(5, Some(&file), Some(decoded.clone()), false), None);
    let other = app.process_media_downloads(6, Some(&png()), Some(decoded.clone()), true);
    assert_eq!(other.unwrap().rgba, vec![1, 2, 3, 255, 4, 5, 6, 7]);
    assert_eq!(app.process_avatar_downloads(7, None, Some(decoded), true), None);
}
