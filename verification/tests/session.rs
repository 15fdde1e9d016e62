use astrix_client::console_panel::{
    console_line, current_timestamp, format_timestamp, log, log_error, ConsoleLine, ConsolePanel,
    MAX_CONSOLE_LINES,
};
use astrix_client::crypto::{
    decrypt_message, encrypt_message, encrypt_with_nonce, generate_channel_key, key_of,
    message_text, nonce_of, ChannelKey, CryptoError, KEY_LEN, NONCE_LEN,
};
use astrix_client::deep_links::{
    extract_invite_token, extract_invite_token_from_args, invite_token, register_protocol_handler,
    UrlParts,
};
use astrix_client::headless::{
    env_truthy, headless_start, parse_headless_preset, parse_headless_source, vsync_enabled,
    HeadlessStart, ScreenPreset, StreamSourceTarget,
};

fn line(text: &str) -> ConsoleLine {
    ConsoleLine { timestamp: "t".to_string(), text: text.to_string(), is_stderr: false }
}

#[test]
fn message_comes_back_from_its_ciphertext() {
    let key = generate_channel_key();
    for text in vec!["", "hello", "привет, 🔊", "a\0b"] {
        let (c, nonce) = encrypt_message(&key, text).unwrap();
        assert_eq!(c.len(), text.len() + 16);
        assert_ne!(c, text.as_bytes().to_vec());
        assert_eq!(decrypt_message(&key, &c, &nonce), Ok(text.to_string()));
    }
}

#[test]
fn cipher_gives_the_published_bytes() {
    // The first bytes of the key stream for an all-zero key and nonce are fixed.
    let key = ChannelKey { key: [0u8; KEY_LEN] };
    let nonce = [0u8; NONCE_LEN];
    let text = "\0\0\0\0\0\0\0\0";
    let c = encrypt_with_nonce(&key, text, &nonce).unwrap();
    assert_eq!(c[..8].to_vec(), vec![0x9f, 0x07, 0xe7, 0xbe, 0x55, 0x51, 0x38, 0x7a]);
    assert_eq!(decrypt_message(&key, &c, &nonce), Ok(text.to_string()));
}

#[test]
fn same_nonce_gives_the_same_ciphertext() {
    let key = key_of(&vec![7u8; KEY_LEN]);
    let nonce = nonce_of(&vec![9u8; NONCE_LEN]);
    assert_eq!(nonce, [9u8; NONCE_LEN]);
    let a = encrypt_with_nonce(&key, "text", &nonce).unwrap();
    let b = encrypt_with_nonce(&key, "text", &nonce).unwrap();
    assert_eq!(a, b);
    assert_ne!(a[..4].to_vec(), b"text".to_vec());
}

#[test]
fn what_was_not_encrypted_so_does_not_decrypt() {
    let key = generate_channel_key();
    let other = generate_channel_key();
    let (mut c, nonce) = encrypt_message(&key, "hello").unwrap();
    assert_eq!(decrypt_message(&other, &c, &nonce), Err(CryptoError::Decrypt));
    assert_eq!(decrypt_message(&key, &[1, 2, 3], &nonce), Err(CryptoError::Decrypt));
    c[0] ^= 1;
    assert_eq!(decrypt_message(&key, &c, &nonce), Err(CryptoError::Decrypt));
    assert_eq!(CryptoError::Decrypt.message(), "decryption error");
    assert_eq!(CryptoError::Encrypt.message(), "encryption error");
}

#[test]
fn changed_messages_are_refused() {
    let key = key_of(&(0..32).collect());
    let nonce = nonce_of(&(0..12).collect());
    let c = encrypt_with_nonce(&key, "hello", &nonce).unwrap();
    assert_eq!(c.len(), 21);
    for i in 0..c.len() {
        let mut changed = c.clone();
        changed[i] ^= 1;
        assert_eq!(decrypt_message(&key, &changed, &nonce), Err(CryptoError::Decrypt));
    }
    let mut longer = c.clone();
    longer.push(0);
    assert_eq!(decrypt_message(&key, &longer, &nonce), Err(CryptoError::Decrypt));
    for len in 0..c.len() {
        assert_eq!(decrypt_message(&key, &c[..len], &nonce), Err(CryptoError::Decrypt));
    }
    let mut other_nonce = nonce;
    other_nonce[11] ^= 1;
    assert_eq!(decrypt_message(&key, &c, &other_nonce), Err(CryptoError::Decrypt));
    let mut other_key = key;
    other_key.key[0] ^= 1;
    assert_eq!(decrypt_message(&other_key, &c, &nonce), Err(CryptoError::Decrypt));
    assert_eq!(decrypt_message(&key, &c, &nonce), Ok("hello".to_string()));
}

#[test]
fn decrypted_bytes_must_be_text() {
    assert_eq!(message_text(Some(b"ok".to_vec())), Ok("ok".to_string()));
    assert_eq!(message_text(Some(vec![0xff, 0xfe])), Err(CryptoError::Decrypt));
    assert_eq!(message_text(None), Err(CryptoError::Decrypt));
}

#[test]
fn keys_are_not_repeated() {
    assert_ne!(generate_channel_key(), generate_channel_key());
    let key = generate_channel_key();
    let (_, first) = encrypt_message(&key, "x").unwrap();
    let (_, second) = encrypt_message(&key, "x").unwrap();
    assert_ne!(first, second);
}

#[test]
fn invitations_are_read_from_links() {
    let token = Some("abc".to_string());
    assert_eq!(extract_invite_token("astrix://invite/abc"), token);
    assert_eq!(extract_invite_token("  \"astrix://invite/abc\" "), token);
    assert_eq!(extract_invite_token("astrix://invite/abc/more?token=x"), token);
    assert_eq!(extract_invite_token("astrix://invite?x=1&token=abc"), token);
    assert_eq!(extract_invite_token("astrix://invite/?token=a%62c"), token);
    assert_eq!(extract_invite_token("ASTRIX://invite/abc"), token);
    assert_eq!(extract_invite_token("astrix://invite/"), None);
    assert_eq!(extract_invite_token("astrix://join/abc"), None);
    assert_eq!(extract_invite_token("https://invite/abc"), None);
    assert_eq!(extract_invite_token("astrix"), None);
    assert_eq!(extract_invite_token(""), None);
}

#[test]
fn first_invitation_of_the_command_line_counts() {
    let args: Vec<String> = vec!["astrix://invite/program", "-v", "astrix://invite/a", "astrix://invite/b"]
        .into_iter()
        .map(|s| s.to_string())
        .collect();
    assert_eq!(extract_invite_token_from_args(&args), Some("a".to_string()));
    assert_eq!(extract_invite_token_from_args(&Vec::new()), None);
    assert_eq!(extract_invite_token_from_args(&vec!["p".to_string()]), None);
}

#[test]
fn tokens_come_from_the_path_before_the_query() {
    let mut parts = UrlParts {
        scheme: "astrix".to_string(),
        host: Some("invite".to_string()),
        segments: Some(vec!["p".to_string()]),
        query: vec![
            ("a".to_string(), "1".to_string()),
            ("token".to_string(), "q".to_string()),
            ("token".to_string(), "r".to_string()),
        ],
    };
    assert_eq!(invite_token(&parts), Some("p".to_string()));
    parts.segments = None;
    assert_eq!(invite_token(&parts), Some("q".to_string()));
    parts.host = None;
    assert_eq!(invite_token(&parts), None);
}

#[test]
fn links_are_registered_for_the_program() {
    let values = register_protocol_handler("\"C:\\Astrix\\astrix.exe\"");
    let rows: Vec<(&str, &str, &str)> =
        values.iter().map(|v| (v.key.as_str(), v.name.as_str(), v.data.as_str())).collect();
    assert_eq!(
        rows,
        vec![
            ("Software\\Classes\\astrix", "", "URL:Astrix Protocol"),
            ("Software\\Classes\\astrix", "URL Protocol", ""),
            ("Software\\Classes\\astrix\\DefaultIcon", "", "\"C:\\Astrix\\astrix.exe\",0"),
            (
                "Software\\Classes\\astrix\\shell\\open\\command",
                "",
                "\"C:\\Astrix\\astrix.exe\" \"%1\"",
            ),
        ]
    );
}

#[test]
fn console_takes_the_lines_that_were_sent() {
    let (mut panel, sender) = ConsolePanel::new();
    sender.send(line("one")).unwrap();
    sender.send(line("two")).unwrap();
    assert!(panel.lines().is_empty());
    panel.poll();
    assert_eq!(panel.lines().to_vec(), vec![line("one"), line("two")]);
    panel.poll();
    assert_eq!(panel.lines().len(), 2);
    panel.clear();
    assert!(panel.lines().is_empty());
    assert!(ConsolePanel::default().lines().is_empty());
}

#[test]
fn console_keeps_the_newest_lines() {
    let many: Vec<ConsoleLine> =
        (0..MAX_CONSOLE_LINES + 5).map(|i| line(&format!("{}", i))).collect();
    let (mut at_once, _s) = ConsolePanel::new();
    at_once.absorb(many.clone());
    assert_eq!(at_once.lines().len(), 1000);
    assert_eq!(at_once.lines()[0].text, "5");
    assert_eq!(at_once.lines()[999].text, "1004");
    let (mut in_two, _t) = ConsolePanel::new();
    in_two.absorb(many[..700].to_vec());
    in_two.absorb(many[700..].to_vec());
    assert_eq!(at_once.lines(), in_two.lines());
}

#[test]
fn times_of_day_are_padded() {
    assert_eq!(format_timestamp(0, 0), "00:00:00.000");
    assert_eq!(format_timestamp(86_400 + 3_600 * 23 + 59 * 60 + 58, 7), "23:59:58.007");
    let now = current_timestamp();
    assert_eq!(now.len(), 12);
    assert_eq!(&now[2..3], ":");
    assert_eq!(&now[8..9], ".");
}

#[test]
fn lines_say_where_they_come_from() {
    let l = console_line("m", "00:00:00.000".to_string(), true);
    assert_eq!(l.text, "m");
    assert_eq!(l.timestamp, "00:00:00.000");
    assert!(l.is_stderr);
    assert!(!log("a").is_stderr);
    assert_eq!(log("a").text, "a");
    assert!(log_error("b").is_stderr);
    assert_eq!(log_error("b").timestamp.len(), 12);
}

#[test]
fn yes_is_said_in_three_ways() {
    for s in vec!["1", "true", "TRUE", "On"] {
        assert!(env_truthy(Some(s)));
    }
    for s in vec!["", "0", "yes", " 1"] {
        assert!(!env_truthy(Some(s)));
    }
    assert!(!env_truthy(None));
    assert!(vsync_enabled(Some("1")));
    assert!(!vsync_enabled(Some("true")));
    assert!(!vsync_enabled(None));
}

#[test]
fn presets_are_read_in_two_spellings() {
    assert_eq!(parse_headless_preset(None), ScreenPreset::P1080F60);
    assert_eq!(parse_headless_preset(Some("p720f30")), ScreenPreset::P720F30);
    assert_eq!(parse_headless_preset(Some("720p60")), ScreenPreset::P720F60);
    assert_eq!(parse_headless_preset(Some("720P120")), ScreenPreset::P720F120);
    assert_eq!(parse_headless_preset(Some("P1080F30")), ScreenPreset::P1080F30);
    assert_eq!(parse_headless_preset(Some("1080p120")), ScreenPreset::P1080F120);
    assert_eq!(parse_headless_preset(Some("1440p30")), ScreenPreset::P1440F30);
    assert_eq!(parse_headless_preset(Some("1440p60")), ScreenPreset::P1440F60);
    assert_eq!(parse_headless_preset(Some("P1440F90")), ScreenPreset::P1440F90);
    assert_eq!(parse_headless_preset(Some("4k")), ScreenPreset::P1080F60);
}

#[test]
fn sources_are_windows_or_monitors() {
    assert_eq!(
        parse_headless_source(Some("window:12:34")),
        StreamSourceTarget::Window { window_id: 12, process_id: 34 }
    );
    assert_eq!(
        parse_headless_source(Some("window:x:99999999999")),
        StreamSourceTarget::Window { window_id: 0, process_id: 0 }
    );
    assert_eq!(parse_headless_source(Some("monitor:2")), StreamSourceTarget::Monitor { index: 2 });
    assert_eq!(parse_headless_source(Some("3")), StreamSourceTarget::Monitor { index: 3 });
    assert_eq!(parse_headless_source(Some("a:b:c:d")), StreamSourceTarget::Monitor { index: 0 });
    assert_eq!(parse_headless_source(None), StreamSourceTarget::Monitor { index: 0 });
}

#[test]
fn sharing_without_a_window_wants_address_and_token() {
    assert_eq!(headless_start(None, None, None, None, None, None), HeadlessStart::NotAsked);
    assert_eq!(
        headless_start(Some("1"), None, None, None, None, None),
        HeadlessStart::Missing("[headless] ASTRIX_LIVEKIT_URL is required".to_string())
    );
    assert_eq!(
        headless_start(Some("1"), Some("u"), None, None, None, None),
        HeadlessStart::Missing("[headless] ASTRIX_LIVEKIT_TOKEN is required".to_string())
    );
    assert_eq!(
        headless_start(Some("on"), Some("u"), Some("t"), Some("-7"), Some("1"), Some("720p30")),
        HeadlessStart::Share {
            livekit_url: "u".to_string(),
            livekit_token: "t".to_string(),
            user_id: -7,
            source: StreamSourceTarget::Monitor { index: 1 },
            preset: ScreenPreset::P720F30,
        }
    );
}
