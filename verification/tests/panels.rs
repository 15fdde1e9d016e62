use std::collections::{HashMap, HashSet};

use astrix_client::avatar::{avatar_letter, glyph_or_mark, initials, server_glyph};
use astrix_client::bottom_panel::{
    connection_label, deafen_toggle, identity_line, latency_popup_contents, latency_tooltip,
    mic_toggle, preset_button_label, stream_audio_toggle, stream_toggle, BottomPanelAction,
    LatencyStats, VoiceControls,
};
use astrix_client::channel_panel::{
    channels_body, row_emphasised, row_marked, text_channel_row, voice_channel_click,
    voice_channel_row, voice_participant_row, ChannelPanelAction, ChannelPanelVoiceSnapshot,
    ChannelsBody, ChannelsLoadState, MuteStatus,
};
use astrix_client::chat_panel::{
    chat_body, chat_header, display_name_for_member, enter_sends, estimate_message_rows, fmt_size,
    format_message_timestamp, highlight, message_preview_text, message_receipt, paint_attachment,
    receipt_label, resolve_message_author_name, scroll_request_stays, search_body, search_result_action,
    search_result_title, shows_content, typing_text, AttachmentKind, ChatBody, ChatPanelAction,
    ChatSearchResult, SearchBody,
};
use astrix_client::guild_panel::{guild_view, GuildPanelParams};
use astrix_client::headless::ScreenPreset;
use astrix_client::member_panel::{
    member_click, member_sections, secondary_label, MemberPanelAction, MemberSnapshot,
};
use astrix_client::net::{AttachmentMeta, Member, Message, Server, VoiceParticipant};
use astrix_client::state::{TypingUser, FULL_VOLUME};

fn member(user_id: i64, username: &str, display_name: &str) -> Member {
    Member {
        user_id,
        username: username.to_string(),
        display_name: display_name.to_string(),
        is_owner: false,
    }
}

fn file(name: &str, mime: &str, size: i64) -> AttachmentMeta {
    AttachmentMeta {
        media_id: 1,
        filename: name.to_string(),
        mime_type: mime.to_string(),
        size_bytes: size,
    }
}

fn message(author_id: i64, content: &str) -> Message {
    Message {
        id: 11,
        channel_id: 100,
        author_id,
        author_username: "sender".to_string(),
        content: content.to_string(),
        created_at: "2024-03-05T17:08:09Z".to_string(),
        seen_by: Vec::new(),
        attachments: Vec::new(),
    }
}

#[test]
fn blank_display_names_give_way_to_user_names() {
    assert_eq!(display_name_for_member(&member(1, "bob", "Bob")), "Bob");
    assert_eq!(display_name_for_member(&member(1, "bob", " \u{a0}\t")), "bob");
    assert_eq!(display_name_for_member(&member(1, "bob", " B ")), " B ");
}

#[test]
fn authors_are_looked_up_among_the_members() {
    let members = vec![member(2, "bob", ""), member(3, "eve", "Eve")];
    assert_eq!(resolve_message_author_name(&message(3, ""), &members), "Eve");
    assert_eq!(resolve_message_author_name(&message(2, ""), &members), "bob");
    assert_eq!(resolve_message_author_name(&message(4, ""), &members), "sender");
}

#[test]
fn times_are_shown_day_first() {
    assert_eq!(format_message_timestamp("2024-03-05T17:08:09Z"), "05.03.2024 17:08");
    assert_eq!(format_message_timestamp("  2024-03-05 17:08 "), "05.03.2024 17:08");
    assert_eq!(format_message_timestamp(" yesterday "), "yesterday");
    assert_eq!(format_message_timestamp("2024-03-05T17"), "2024-03-05T17");
    assert_eq!(format_message_timestamp("2024/03/05T17:08"), "2024/03/05T17:08");
}

#[test]
fn previews_fall_back_to_file_names() {
    let mut m = message(1, " hi ");
    assert_eq!(message_preview_text(&m), " hi ");
    m.content = "  ".to_string();
    assert_eq!(message_preview_text(&m), "Пустое сообщение");
    m.attachments.push(file("a.png", "image/png", 1));
    m.attachments.push(file("b.zip", "application/zip", 1));
    assert_eq!(message_preview_text(&m), "a.png, b.zip");
}

#[test]
fn rows_count_wrapped_lines() {
    assert_eq!(estimate_message_rows("", 10), 1);
    assert_eq!(estimate_message_rows("0123456789", 10), 1);
    assert_eq!(estimate_message_rows("0123456789a", 10), 2);
    assert_eq!(estimate_message_rows("a\n\nb", 10), 3);
    assert_eq!(estimate_message_rows("a\n", 10), 2);
}

#[test]
fn sizes_are_rounded_to_tenths() {
    assert_eq!(fmt_size(-5), "-5 B");
    assert_eq!(fmt_size(0), "0 B");
    assert_eq!(fmt_size(1023), "1023 B");
    assert_eq!(fmt_size(1024), "1.0 KB");
    assert_eq!(fmt_size(1536), "1.5 KB");
    assert_eq!(fmt_size(1_048_575), "1024.0 KB");
    assert_eq!(fmt_size(1_048_576), "1.0 MB");
    for n in vec![1100i64, 1280, 1434, 50_000, 123_456, 999_999] {
        assert_eq!(fmt_size(n), format!("{:.1} KB", n as f64 / 1024.0));
    }
    for n in vec![1_100_000i64, 1_310_720, 5_557_452, 99_999_999_999, (1 << 53) + 1, i64::MAX] {
        assert_eq!(fmt_size(n), format!("{:.1} MB", n as f64 / (1024.0 * 1024.0)));
    }
}

#[test]
fn those_who_type_are_named_or_counted() {
    let one = TypingUser { user_id: 1, name: "bob".to_string(), since: 0 };
    let two = TypingUser { user_id: 2, name: "eve".to_string(), since: 0 };
    assert_eq!(typing_text(&Vec::new()), None);
    assert_eq!(typing_text(&vec![one.clone()]), Some("bob is typing...".to_string()));
    assert_eq!(
        typing_text(&vec![one.clone(), two.clone(), two]),
        Some("bob and 2 more are typing...".to_string())
    );
}

#[test]
fn receipts_are_for_own_messages() {
    let members = vec![member(2, "bob", "Bob"), member(3, "eve", ""), member(4, "x", "X")];
    let mut m = message(1, "hi");
    assert_eq!(message_receipt(&m, Some(2), &members), None);
    assert_eq!(message_receipt(&m, None, &members), None);
    let unseen = message_receipt(&m, Some(1), &members).unwrap();
    assert!(!unseen.seen);
    assert_eq!(unseen.tooltip, None);
    m.seen_by = vec![3, 2];
    let seen = message_receipt(&m, Some(1), &members).unwrap();
    assert!(seen.seen);
    assert_eq!(seen.tooltip, Some("Seen by Bob, eve".to_string()));
    m.seen_by = vec![99];
    assert_eq!(message_receipt(&m, Some(1), &members).unwrap().tooltip, None);
    assert_eq!(receipt_label(true), "Seen");
    assert_eq!(receipt_label(false), "Sent");
}

#[test]
fn text_that_only_names_a_file_is_hidden() {
    let mut m = message(1, "a.png");
    assert!(shows_content(&m));
    m.attachments.push(file("a.png", "image/png", 1));
    assert!(!shows_content(&m));
    m.content = "look".to_string();
    assert!(shows_content(&m));
    m.content = String::new();
    assert!(!shows_content(&m));
}

#[test]
fn attachments_are_shown_by_type() {
    let image = paint_attachment(&file("a.png", "image/png", 1));
    assert_eq!(image.kind, AttachmentKind::Image);
    assert_eq!(image.label, "a.png");
    let video = paint_attachment(&file("a.mp4", "video/mp4", 1));
    assert_eq!(video.label, "Video: a.mp4");
    assert_eq!(video.size, None);
    let other = paint_attachment(&file("a.zip", "application/zip", 2048));
    assert_eq!(other.kind, AttachmentKind::Other);
    assert_eq!(other.size, Some("(2.0 KB)".to_string()));
}

#[test]
fn search_results_name_author_time_and_channel() {
    let result = ChatSearchResult {
        channel_id: 100,
        channel_name: "general".to_string(),
        message: message(2, "hi"),
    };
    assert_eq!(
        search_result_title(&result, &vec![member(2, "bob", "Bob")]),
        "Bob  05.03.2024 17:08  #general"
    );
    assert_eq!(
        search_result_action(&result),
        ChatPanelAction::OpenSearchResult { channel_id: 100, message_id: 11 }
    );
}

#[test]
fn search_shows_one_thing_at_a_time() {
    assert_eq!(search_body("  ", true, None, 0), SearchBody::Hidden);
    assert_eq!(
        search_body("x", true, Some("e"), 1),
        SearchBody::Loading("Поиск сообщений...".to_string())
    );
    assert_eq!(search_body("x", false, Some("e"), 1), SearchBody::Error("e".to_string()));
    assert_eq!(
        search_body("x", false, None, 0),
        SearchBody::Empty("совпадений не найдено".to_string())
    );
    assert_eq!(search_body("x", false, None, 1), SearchBody::Results);
}

#[test]
fn chat_shows_one_thing_at_a_time() {
    assert_eq!(chat_body("# a", true, Some("e"), 3), ChatBody::Loading);
    assert_eq!(chat_body("# a", false, Some("e"), 3), ChatBody::Error("e".to_string()));
    assert_eq!(chat_body("# a", false, None, 0), ChatBody::Welcome("Welcome to # a".to_string()));
    assert_eq!(chat_body("# a", false, None, 3), ChatBody::Messages);
}

#[test]
fn header_drops_leading_number_signs() {
    let h = chat_header("# # general", Some("about"));
    assert_eq!(h.title, "general");
    assert_eq!(h.hint, "Написать в #general");
    assert_eq!(h.description, Some("about".to_string()));
    assert_eq!(chat_header("#general", Some("")).title, "#general");
    assert_eq!(chat_header("#general", Some("")).description, None);
}

#[test]
fn plain_enter_sends() {
    assert_eq!(enter_sends(true, true, false, false), Some(ChatPanelAction::SendMessage));
    assert_eq!(enter_sends(true, true, true, false), None);
    assert_eq!(enter_sends(true, true, false, true), None);
    assert_eq!(enter_sends(false, true, false, false), None);
    assert_eq!(highlight(3, Some(3), true), (true, true));
    assert_eq!(highlight(3, Some(3), false), (true, false));
    assert_eq!(highlight(3, Some(4), true), (false, false));
}

#[test]
fn scrolling_is_asked_for_until_the_message_is_shown() {
    let shown = vec![message(1, "a")];
    assert!(!scroll_request_stays(&ChatBody::Messages, &shown, Some(11), true));
    assert!(scroll_request_stays(&ChatBody::Messages, &shown, Some(12), true));
    assert!(scroll_request_stays(&ChatBody::Messages, &shown, None, true));
    assert!(scroll_request_stays(&ChatBody::Loading, &shown, Some(11), true));
    assert!(!scroll_request_stays(&ChatBody::Loading, &shown, Some(11), false));
}

#[test]
fn letters_stand_for_people() {
    assert_eq!(avatar_letter("bob"), "B");
    assert_eq!(avatar_letter("юля"), "Ю");
    assert_eq!(avatar_letter("ßeta"), "SS");
    assert_eq!(avatar_letter(""), "?");
}

#[test]
fn letters_stand_for_servers() {
    assert_eq!(initials("  rust  game club "), "rg");
    assert_eq!(server_glyph("rust game club"), "RG");
    assert_eq!(server_glyph("мой сервер"), "МС");
    assert_eq!(server_glyph("solo"), "S");
    assert_eq!(server_glyph("   "), "?");
    assert_eq!(glyph_or_mark("AB".to_string()), "AB");
    assert_eq!(glyph_or_mark(String::new()), "?");
}

fn rail(servers: Vec<Server>, loading: bool, error: Option<&str>) -> GuildPanelParams {
    GuildPanelParams {
        servers,
        selected_server: Some(2),
        servers_loading: loading,
        servers_error: error.map(|e| e.to_string()),
    }
}

#[test]
fn rail_lists_the_servers() {
    let servers = vec![
        Server { id: 1, name: "alpha".to_string(), owner_id: 0 },
        Server { id: 2, name: "big blue".to_string(), owner_id: 0 },
    ];
    let v = guild_view(&rail(servers, true, Some("e")));
    assert!(!v.home_active);
    assert!(!v.spinner);
    assert_eq!(v.retry, None);
    assert_eq!(v.rows.len(), 2);
    assert_eq!(v.rows[1].glyph, "BB");
    assert_eq!(v.rows[1].tooltip, "big blue");
    assert_eq!(v.rows[1].row_id, "guild_srv_2");
    assert!(v.rows[1].active);
    assert!(!v.rows[0].active);
}

#[test]
fn empty_rail_says_why() {
    let mut params = rail(Vec::new(), true, Some("no network"));
    params.selected_server = None;
    let v = guild_view(&params);
    assert!(v.home_active);
    assert!(v.spinner);
    assert_eq!(v.retry, Some("no network".to_string()));
    assert!(v.rows.is_empty());
}

fn snapshot(user_id: i64, online: bool, is_owner: bool) -> MemberSnapshot {
    MemberSnapshot {
        user_id,
        display_name: "D".to_string(),
        username: format!("u{}", user_id),
        is_owner,
        online,
    }
}

#[test]
fn members_are_shared_out_by_presence() {
    let members = vec![
        snapshot(1, true, true),
        snapshot(2, false, false),
        snapshot(3, true, false),
        snapshot(4, false, false),
    ];
    let s = member_sections(&members, 2).unwrap();
    assert_eq!(s.online_title, "ONLINE - 2");
    assert_eq!(s.offline_title, "OFFLINE - 2");
    assert_eq!(s.online, vec![0, 2]);
    assert_eq!(s.offline, vec![1, 3]);
    assert_eq!(member_sections(&members, 9).unwrap().offline_title, "OFFLINE - 0");
    assert_eq!(member_sections(&Vec::new(), 0), None);
    assert_eq!(secondary_label(&members[0]), "Server owner");
    assert_eq!(secondary_label(&members[1]), "u2");
    assert_eq!(member_click(&members[1]), MemberPanelAction::OpenMemberProfile(2));
}

fn person(user_id: i64, username: &str) -> VoiceParticipant {
    VoiceParticipant {
        user_id,
        username: username.to_string(),
        channel_id: Some(5),
        mic_muted: false,
        deafened: false,
        cam_enabled: false,
        streaming: false,
    }
}

fn voice() -> ChannelPanelVoiceSnapshot {
    let mut channel_voice = HashMap::new();
    channel_voice.insert(5, vec![person(1, "me"), person(2, "bob")]);
    ChannelPanelVoiceSnapshot {
        channel_id: Some(5),
        server_id: Some(10),
        mic_muted: false,
        output_muted: false,
        camera_on: false,
        screen_on: false,
        channel_voice,
        speaking: HashMap::new(),
        local_volumes: HashMap::new(),
        locally_muted: HashSet::new(),
        receiver_denoise_users: HashSet::new(),
    }
}

#[test]
fn channel_list_says_how_loading_goes() {
    assert_eq!(
        channels_body(&ChannelsLoadState::Loading),
        ChannelsBody::Loading("Loading channels...".to_string())
    );
    assert_eq!(
        channels_body(&ChannelsLoadState::Error("e".to_string())),
        ChannelsBody::Error("e".to_string())
    );
    assert_eq!(channels_body(&ChannelsLoadState::Idle), ChannelsBody::Channels);
    assert_eq!(channels_body(&ChannelsLoadState::Loaded), ChannelsBody::Channels);
}

#[test]
fn text_rows_mark_what_is_unread() {
    let unread: HashSet<i64> = vec![3, 4].into_iter().collect();
    let active = text_channel_row(3, &"general".to_string(), Some(3), &unread);
    assert_eq!(active.row_id, "text_channel_3");
    assert_eq!(active.icon, "#");
    assert_eq!(active.label, "general");
    assert!(active.active && active.unread);
    assert!(row_emphasised(&active));
    assert!(!row_marked(&active));
    let other = text_channel_row(4, &"x".to_string(), Some(3), &unread);
    assert!(row_marked(&other));
    let quiet = text_channel_row(5, &"y".to_string(), None, &unread);
    assert!(!row_emphasised(&quiet));
}

#[test]
fn voice_rows_count_people() {
    let row = voice_channel_row(5, &"lounge".to_string(), None, &voice());
    assert_eq!(row.row_id, "voice_channel_5");
    assert_eq!(row.icon, "🔊");
    assert!(row.active);
    assert_eq!(row.metadata, Some("2".to_string()));
    let empty = voice_channel_row(6, &"y".to_string(), None, &voice());
    assert!(!empty.active);
    assert_eq!(empty.metadata, None);
}

#[test]
fn clicking_a_voice_channel_joins_it_once() {
    assert_eq!(
        voice_channel_click(6, 10, Some(5)),
        vec![
            ChannelPanelAction::SelectChannel(6),
            ChannelPanelAction::JoinVoice { channel_id: 6, server_id: 10 },
        ]
    );
    assert_eq!(voice_channel_click(5, 10, Some(5)), vec![ChannelPanelAction::SelectChannel(5)]);
}

#[test]
fn participants_have_a_status_and_a_menu() {
    let mut v = voice();
    let bob = person(2, "bob");
    let row = voice_participant_row(&bob, 5, &v, Some(1));
    assert_eq!(row.name, "bob");
    assert_eq!(row.status, MuteStatus::Heard);
    assert_eq!(row.status.label(), None);
    let menu = row.menu.unwrap();
    assert_eq!(menu.mute_label, "Локально заглушить");
    assert_eq!(
        menu.mute_action,
        ChannelPanelAction::SetParticipantMuted { user_id: 2, muted: true }
    );
    assert_eq!(menu.denoise_label, "Включить локальное шумоподавление");
    assert_eq!(menu.volume, FULL_VOLUME);
    v.locally_muted.insert(2);
    v.receiver_denoise_users.insert(2);
    v.local_volumes.insert(2, 7);
    v.speaking.insert(2, true);
    let row = voice_participant_row(&bob, 5, &v, Some(1));
    assert!(row.speaking);
    assert_eq!(row.status.label(), Some("mute local"));
    let menu = row.menu.unwrap();
    assert_eq!(menu.mute_label, "Снять локальный мут");
    assert_eq!(
        menu.denoise_action,
        ChannelPanelAction::SetParticipantDenoise { user_id: 2, enabled: false }
    );
    assert_eq!(menu.volume, 7);
}

#[test]
fn oneself_and_other_channels_have_no_menu() {
    let v = voice();
    let mut me = person(1, "");
    me.deafened = true;
    me.mic_muted = true;
    let row = voice_participant_row(&me, 5, &v, Some(1));
    assert_eq!(row.name, "Гость");
    assert_eq!(row.status.label(), Some("Полный мут"));
    assert!(row.menu.is_none());
    me.deafened = false;
    let row = voice_participant_row(&me, 6, &v, Some(9));
    assert_eq!(row.status.label(), Some("Микрофон выключен"));
    assert!(row.menu.is_none());
}

fn controls() -> VoiceControls {
    VoiceControls {
        mic_muted: false,
        output_muted: false,
        screen_on: false,
        screen_preset: ScreenPreset::P1080F60,
        screen_audio_muted: false,
    }
}

#[test]
fn toggles_ask_for_the_opposite() {
    let mut v = controls();
    assert_eq!(deafen_toggle(&v).action, BottomPanelAction::SetDeafened(true));
    assert_eq!(deafen_toggle(&v).tooltip, "Выключить микрофон и звук");
    assert_eq!(mic_toggle(&v).action, BottomPanelAction::SetMicMuted(true));
    assert_eq!(mic_toggle(&v).tooltip, "Выключить микрофон");
    assert_eq!(stream_toggle(&v).action, BottomPanelAction::OpenStreamPicker);
    assert_eq!(stream_toggle(&v).tooltip, "Начать трансляцию");
    assert_eq!(stream_audio_toggle(&v).action, BottomPanelAction::SetScreenAudioMuted(true));
    assert_eq!(stream_audio_toggle(&v).tooltip, "Выключить звук трансляции");
    v.mic_muted = true;
    assert!(!deafen_toggle(&v).on);
    assert_eq!(mic_toggle(&v).tooltip, "Включить микрофон");
    v.output_muted = true;
    assert!(deafen_toggle(&v).on);
    assert_eq!(deafen_toggle(&v).action, BottomPanelAction::SetDeafened(false));
    assert_eq!(deafen_toggle(&v).tooltip, "Включить микрофон и звук");
    v.screen_on = true;
    v.screen_audio_muted = true;
    assert_eq!(stream_toggle(&v).action, BottomPanelAction::StopStream);
    assert_eq!(stream_toggle(&v).tooltip, "Остановить трансляцию");
    assert_eq!(stream_audio_toggle(&v).tooltip, "Включить звук трансляции");
}

#[test]
fn presets_have_short_names() {
    assert_eq!(preset_button_label(ScreenPreset::P720F30), "720p30");
    assert_eq!(preset_button_label(ScreenPreset::P720F60), "720p60");
    assert_eq!(preset_button_label(ScreenPreset::P720F120), "720p120");
    assert_eq!(preset_button_label(ScreenPreset::P1080F30), "1080p30");
    assert_eq!(preset_button_label(ScreenPreset::P1080F60), "1080p60");
    assert_eq!(preset_button_label(ScreenPreset::P1080F120), "1080p120");
    assert_eq!(preset_button_label(ScreenPreset::P1440F30), "1440p30");
    assert_eq!(preset_button_label(ScreenPreset::P1440F60), "1440p60");
    assert_eq!(preset_button_label(ScreenPreset::P1440F90), "1440p90");
}

#[test]
fn presets_are_read_back_from_their_short_names() {
    for preset in vec![
        ScreenPreset::P720F30,
        ScreenPreset::P720F60,
        ScreenPreset::P720F120,
        ScreenPreset::P1080F30,
        ScreenPreset::P1080F60,
        ScreenPreset::P1080F120,
        ScreenPreset::P1440F30,
        ScreenPreset::P1440F60,
        ScreenPreset::P1440F90,
    ] {
        let name = preset_button_label(preset);
        assert_eq!(astrix_client::headless::parse_headless_preset(Some(name)), preset);
    }
    assert_eq!(LatencyStats::default().source_fps, None);
}

#[test]
fn connection_is_named() {
    assert_eq!(identity_line(Some(-12)), "-12");
    assert_eq!(identity_line(None), "В сети");
    assert_eq!(latency_tooltip(Some("42")), "RTT до сервера: 42 мс");
    assert_eq!(latency_tooltip(None), "Показать задержку соединения");
    assert_eq!(connection_label(Some("A / B")), "A / B");
    assert_eq!(connection_label(None), "Сервер / Голосовой канал");
}

#[test]
fn popup_lists_every_number() {
    let mut s = LatencyStats {
        preset_label: "1080p60".to_string(),
        preset_fps: "60".to_string(),
        preset_mbps: "6.0".to_string(),
        source_fps: None,
        source_cap_fps: Some("60".to_string()),
        webrtc_effective_fps_cap: None,
        startup_transport_cap_fps: None,
        final_schedule_cap_fps: Some("30".to_string()),
        webrtc_requested_bitrate_mbps: None,
        webrtc_target_bitrate_mbps: Some("5.5".to_string()),
        webrtc_fps_hint: None,
        webrtc_available_outgoing_bitrate_mbps: None,
        encoded_pre_rtp_bitrate_mbps: None,
        webrtc_packet_loss_pct: Some("0.25".to_string()),
        webrtc_nack_count: Some(3),
        webrtc_pli_count: None,
        webrtc_quality_limitation_reason: None,
        webrtc_transport_path: None,
        webrtc_transport_rtt_ms: Some("12.0".to_string()),
        stream_fps: None,
        resolution: Some((1920, 1080)),
        outgoing_speed_mbps: None,
        encoding_path: None,
        decoding_path: None,
    };
    let rows = latency_popup_contents(&s);
    let labels: Vec<&str> = rows.iter().map(|r| r.label).collect();
    assert_eq!(
        labels,
        vec![
            "Preset",
            "Source FPS",
            "Caps",
            "BWE target",
            "Encoder bitrate",
            "FPS hint",
            "Available bitrate",
            "Pre-RTP bitrate",
            "Packet loss",
            "NACK",
            "PLI",
            "Quality limit",
            "Transport path",
            "Transport RTT",
            "ФПС трансляции",
            "Разрешение",
            "Исходящая скорость",
            "Кодирование",
            "Декодирование",
        ]
    );
    assert_eq!(rows[0].value, "1080p60 / 60 fps / 6.0 Mbps");
    assert_eq!(rows[1].value, "-");
    assert_eq!(rows[2].value, "src 60 / bwe - / boot - / final 30");
    assert_eq!(rows[4].value, "5.5 Mbps");
    assert_eq!(rows[8].value, "0.25%");
    assert_eq!(rows[9].value, "3");
    assert_eq!(rows[10].value, "-");
    assert_eq!(rows[13].value, "12.0 ms");
    assert_eq!(rows[14].value, "—");
    assert_eq!(rows[15].value, "1920×1080");
    s.resolution = None;
    s.outgoing_speed_mbps = Some("3.20".to_string());
    let rows = latency_popup_contents(&s);
    assert_eq!(rows[15].value, "—");
    assert_eq!(rows[16].value, "3.20 Мбит/с");
}
