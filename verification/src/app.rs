//! The client's frame: connecting, telling the server what is on screen and who
//! writes, fetching avatars and media, and signing out.
use std::collections::{HashSet, VecDeque};

use vstd::prelude::*;

use crate::net::{ClientKind, Member, WsClientMsg, WsEvent};
use crate::pictures::{self, Picture};
use crate::state::{
    self, AppView, AstrixApp, AuthState, MainState, MainView, Screen, Settings, TypingUser,
};
use crate::text;
use crate::ws_events;

verus! {

broadcast use vstd::std_specs::hash::group_hash_axioms;

/// How long someone counts as writing after the last sign of it, in nanoseconds.
pub const TYPING_SHOWN_NS: u64 = 3_000_000_000;

/// How long to wait before telling the server again that one writes, in
/// nanoseconds.
pub const TYPING_RESEND_NS: u64 = 1_000_000_000;

/// The time since `then`; zero where `then` lies ahead.
pub open spec fn elapsed(now: u64, then: u64) -> int {
    if now >= then {
        now - then
    } else {
        0
    }
}

/// A connection to open.
#[derive(Debug, Clone, PartialEq, Eq)]
pub struct ConnectRequest {
    pub token: String,
    pub server_id: i64,
    pub channel_id: Option<i64>,
}

/// The address of the event stream of a server, seen from a channel where one
/// is given.
pub open spec fn stream_url(
    base: Seq<char>,
    token: Seq<char>,
    server_id: i64,
    channel_id: Option<i64>,
) -> Seq<char> {
    let url = base + "/ws?token="@ + token + "&server_id="@ + text::decimal_int(server_id as int);
    match channel_id {
        Some(c) => url + "&channel_id="@ + text::decimal_int(c as int),
        None => url,
    }
}

/// The address of the event stream of a server.
pub fn ws_url(base: &str, token: &str, server_id: i64, channel_id: Option<i64>) -> (url: String)
    ensures
        url@ == stream_url(base@, token@, server_id, channel_id),
{
    let mut url = String::new();
    url.push_str(base);
    url.push_str("/ws?token=");
    url.push_str(token);
    url.push_str("&server_id=");
    text::push_decimal_int(&mut url, server_id);
    assert(url@ =~= stream_url(base@, token@, server_id, None));
    if let Some(c) = channel_id {
        url.push_str("&channel_id=");
        text::push_decimal_int(&mut url, c);
    }
    url
}

/// `a` with a message to the server queued, where a connection is open.
pub open spec fn sent(a: AppView, msg: WsClientMsg) -> AppView {
    if a.ws_open {
        AppView { ws_out: a.ws_out.push(msg), ..a }
    } else {
        a
    }
}

/// The message that says which channel is on screen, with the last message read
/// in it where that is known.
pub open spec fn view_message(channel_id: i64, last_message_id: Option<i64>) -> WsClientMsg {
    WsClientMsg {
        kind: ClientKind::ChannelView,
        channel_id: Some(channel_id),
        last_message_id: match last_message_id {
            Some(id) => if id > 0 {
                Some(id)
            } else {
                None
            },
            None => None,
        },
    }
}

/// The message that says that one is writing.
pub open spec fn typing_message(channel_id: i64) -> WsClientMsg {
    WsClientMsg { kind: ClientKind::Typing, channel_id: Some(channel_id), last_message_id: None }
}

/// `a` with the channel on screen made known to the server.
pub open spec fn viewing_synced(a: AppView) -> AppView {
    if a.main.selected_channel == a.main.ws_viewing_channel {
        a
    } else {
        let b = AppView {
            main: MainView { ws_viewing_channel: a.main.selected_channel, ..a.main },
            ..a
        };
        match a.main.selected_channel {
            Some(c) => sent(b, view_message(c, None)),
            None => b,
        }
    }
}

/// Those of `s` who were heard less than three seconds ago, in order.
pub open spec fn still_typing(s: Seq<TypingUser>, now: u64) -> Seq<TypingUser>
    decreases s.len(),
{
    if s.len() == 0 {
        s
    } else {
        let before = still_typing(s.drop_last(), now);
        if elapsed(now, s.last().since) < TYPING_SHOWN_NS {
            before.push(s.last())
        } else {
            before
        }
    }
}

/// Whether the server is to be told that one writes: the draft is not empty and
/// has changed, and more than a second has passed since it was last told.
pub open spec fn typing_due(m: MainView, now: u64) -> bool {
    &&& m.new_message.len() > 0
    &&& m.new_message != m.prev_message
    &&& match m.last_typing_sent {
        Some(t) => elapsed(now, t) > TYPING_RESEND_NS,
        None => true,
    }
}

/// `a` with the server told that one writes, where that is due.
pub open spec fn typing_told(a: AppView, now: u64) -> AppView {
    match a.main.selected_channel {
        Some(c) => if typing_due(a.main, now) {
            sent(
                AppView { main: MainView { last_typing_sent: Some(now), ..a.main }, ..a },
                typing_message(c),
            )
        } else {
            a
        },
        None => a,
    }
}

/// The state with which the main screen is drawn.
pub open spec fn screen_prepared(a: AppView, now: u64) -> AppView {
    let b = viewing_synced(a);
    let c = AppView {
        main: MainView { typing_users: still_typing(b.main.typing_users, now), ..b.main },
        ..b
    };
    let d = typing_told(c, now);
    AppView { main: MainView { prev_message: d.main.new_message, ..d.main }, ..d }
}

/// Whether another server was selected than the one that the connection is to,
/// and one is signed in.
pub open spec fn connection_due(a: AppView) -> bool {
    a.main.selected_server != a.main.ws_connected_server && a.main.selected_server is Some
        && a.access_token is Some
}

/// `a` with the dark colours in force, which are the only ones there are.
pub open spec fn darkened(a: AppView) -> AppView {
    AppView { dark_mode: true, settings: Settings { dark_mode: true, ..a.settings }, ..a }
}

/// `a` with a connection to the selected server, where one is due.
pub open spec fn connected(a: AppView) -> AppView {
    if connection_due(a) {
        AppView {
            main: MainView {
                ws_connected_server: a.main.selected_server,
                online_users: Set::empty(),
                ..a.main
            },
            ws_open: true,
            ..a
        }
    } else {
        a
    }
}

/// `a` with the missing avatars of the members queued.
pub open spec fn avatars_queued(a: AppView) -> AppView {
    AppView {
        avatar_pending: avatars_wanted(
            a.main.server_members,
            a.avatar_pending,
            a.avatar_textures,
            a.avatar_failed,
        ),
        ..a
    }
}

/// Whether `r` is what to connect to in the state `a`.
pub open spec fn asks_for_connection(a: AppView, r: Option<ConnectRequest>) -> bool {
    match r {
        Some(req) => {
            &&& connection_due(a)
            &&& a.access_token == Some(req.token)
            &&& a.main.selected_server == Some(req.server_id)
            &&& req.channel_id == a.main.selected_channel
        },
        None => !connection_due(a),
    }
}

/// The users whose avatar is to be fetched: `pending`, and after it each member
/// whose avatar is neither here, nor failed, nor pending.
pub open spec fn avatars_wanted(
    members: Seq<Member>,
    pending: Seq<i64>,
    textures: Set<i64>,
    failed: Set<i64>,
) -> Seq<i64>
    decreases members.len(),
{
    if members.len() == 0 {
        pending
    } else {
        let before = avatars_wanted(members.drop_last(), pending, textures, failed);
        let uid = members.last().user_id;
        if textures.contains(uid) || failed.contains(uid) || before.contains(uid) {
            before
        } else {
            before.push(uid)
        }
    }
}

/// The ids of `ids` of which neither a texture nor the bytes are here.
pub open spec fn absent_media(ids: Seq<i64>, textures: Set<i64>, bytes: Set<i64>) -> Seq<i64>
    decreases ids.len(),
{
    if ids.len() == 0 {
        ids
    } else {
        let before = absent_media(ids.drop_last(), textures, bytes);
        if textures.contains(ids.last()) || bytes.contains(ids.last()) {
            before
        } else {
            before.push(ids.last())
        }
    }
}

/// What the main screen left to be done: a read receipt to send, media to fetch.
pub open spec fn screen_followed_up(a: AppView) -> AppView {
    let b = match a.main.pending_read_receipt {
        Some(r) => sent(
            AppView { main: MainView { pending_read_receipt: None, ..a.main }, ..a },
            view_message(r.0, Some(r.1)),
        ),
        None => a,
    };
    AppView {
        main: MainView { pending_media_ids: Seq::empty(), ..b.main },
        media_pending: b.media_pending + absent_media(
            b.main.pending_media_ids,
            b.media_textures,
            b.media_bytes,
        ),
        ..b
    }
}

/// `b` is `a` signed out: back at the sign-in screen with a blank main screen,
/// and the saved name and password gone unless they are to be remembered.
pub open spec fn signed_out(a: AppView, b: AppView) -> bool {
    &&& b == AppView {
        settings: b.settings,
        ws_open: false,
        access_token: None,
        user_id: None,
        main: state::blank_main(a.settings.input_sensitivity),
        screen: Screen::Auth,
        repaint: true,
        ..a
    }
    &&& b.settings == Settings {
        saved_username: b.settings.saved_username,
        saved_password: b.settings.saved_password,
        ..a.settings
    }
    &&& if a.settings.remember_me {
        b.settings == a.settings
    } else {
        b.settings.saved_username@.len() == 0 && b.settings.saved_password@.len() == 0
    }
}

/// The time since `then`; zero where `then` lies ahead.
fn time_since(now: u64, then: u64) -> (r: u64)
    ensures
        r == elapsed(now, then),
{
    now.saturating_sub(then)
}

impl AstrixApp {
    /// The client at its start: the sign-in screen, filled in where that was to
    /// be remembered.
    pub fn new(settings: Settings) -> (r: AstrixApp)
        ensures
            r.auth.remember_me == settings.remember_me,
            r.auth.username@ == (if settings.remember_me {
                settings.saved_username@
            } else {
                Seq::empty()
            }),
            r.auth.password@ == (if settings.remember_me {
                settings.saved_password@
            } else {
                Seq::empty()
            }),
            r@ == (AppView {
                screen: Screen::Auth,
                auth: r.auth,
                settings,
                dark_mode: true,
                access_token: None,
                user_id: None,
                main: state::blank_main(settings.input_sensitivity),
                media_textures: Set::empty(),
                media_bytes: Set::empty(),
                media_pending: Seq::empty(),
                avatar_textures: Set::empty(),
                avatar_failed: Set::empty(),
                avatar_pending: Seq::empty(),
                voice_engine: false,
                voice_cmds: Seq::empty(),
                ws_open: false,
                ws_out: Seq::empty(),
                repaint: false,
            }),
    {
        let auth = if settings.remember_me {
            AuthState {
                username: settings.saved_username.clone(),
                password: settings.saved_password.clone(),
                remember_me: true,
            }
        } else {
            AuthState { username: String::new(), password: String::new(), remember_me: false }
        };
        let main = MainState::blank(settings.input_sensitivity);
        AstrixApp {
            screen: Screen::Auth,
            auth,
            settings,
            dark_mode: true,
            access_token: None,
            user_id: None,
            main,
            media_textures: HashSet::new(),
            media_bytes: HashSet::new(),
            media_pending: VecDeque::new(),
            avatar_textures: HashSet::new(),
            avatar_failed: HashSet::new(),
            avatar_pending: VecDeque::new(),
            voice_engine: false,
            voice_cmds: Vec::new(),
            ws_open: false,
            ws_out: Vec::new(),
            repaint: false,
        }
    }

    fn ws_send(&mut self, msg: WsClientMsg)
        ensures
            final(self)@ == sent(old(self)@, msg),
    {
        let ghost before = self@;
        if self.ws_open {
            self.ws_out.push(msg);
        }
        assert(self@ =~= sent(before, msg));
    }

    /// Tells the server which channel is on screen, and the last message read in
    /// it where one is given.
    pub fn ws_view_channel(&mut self, channel_id: i64, last_message_id: Option<i64>)
        ensures
            final(self)@ == sent(old(self)@, view_message(channel_id, last_message_id)),
    {
        let last: Option<i64> = match last_message_id {
            Some(id) => if id > 0 {
                Some(id)
            } else {
                None
            },
            None => None,
        };
        self.ws_send(
            WsClientMsg {
                kind: ClientKind::ChannelView,
                channel_id: Some(channel_id),
                last_message_id: last,
            },
        );
    }

    /// Tells the server that one is writing in a channel.
    pub fn ws_typing(&mut self, channel_id: i64)
        ensures
            final(self)@ == sent(old(self)@, typing_message(channel_id)),
    {
        self.ws_send(
            WsClientMsg {
                kind: ClientKind::Typing,
                channel_id: Some(channel_id),
                last_message_id: None,
            },
        );
    }

    /// Asks for a connection to the selected server where there is none yet. Who
    /// is online there is not known until that server says so.
    pub fn take_connect_request(&mut self) -> (r: Option<ConnectRequest>)
        ensures
            asks_for_connection(old(self)@, r),
            final(self)@ == connected(old(self)@),
    {
        let ghost before = self@;
        if self.main.selected_server == self.main.ws_connected_server {
            return None;
        }
        match (&self.access_token, self.main.selected_server) {
            (Some(token), Some(server_id)) => {
                let req = ConnectRequest {
                    token: token.clone(),
                    server_id,
                    channel_id: self.main.selected_channel,
                };
                self.main.ws_connected_server = Some(server_id);
                self.main.online_users.clear();
                self.ws_open = true;
                assert(self@ =~= connected(before));
                Some(req)
            },
            _ => None,
        }
    }

    /// Queues the avatars of the members that are neither here, nor failed, nor
    /// queued.
    pub fn queue_avatar_pending(&mut self)
        ensures
            final(self)@ == avatars_queued(old(self)@),
    {
        let ghost before = self@;
        let ghost members = self.main.server_members@;
        let mut i: usize = 0;
        while i < self.main.server_members.len()
            invariant
                members == before.main.server_members,
                i <= members.len(),
                self@ =~= (AppView {
                    avatar_pending: avatars_wanted(
                        members.take(i as int),
                        before.avatar_pending,
                        before.avatar_textures,
                        before.avatar_failed,
                    ),
                    ..before
                }),
            decreases members.len() - i,
        {
            assert(members.take(i + 1).drop_last() =~= members.take(i as int));
            let uid: i64 = self.main.server_members[i].user_id;
            if !self.avatar_textures.contains(&uid) && !self.avatar_failed.contains(&uid)
                && !queue_contains(&self.avatar_pending, uid) {
                self.avatar_pending.push_back(uid);
            }
            i += 1;
        }
        assert(members.take(i as int) =~= members);
    }

    /// Takes the next avatar to fetch off the queue; `None` where the queue is
    /// empty or that avatar is settled already.
    pub fn next_avatar_download(&mut self) -> (r: Option<i64>)
        ensures
            old(self)@.avatar_pending.len() == 0 ==> r is None && final(self)@ == old(self)@,
            old(self)@.avatar_pending.len() > 0 ==> {
                let uid = old(self)@.avatar_pending[0];
                &&& final(self)@ == (AppView {
                    avatar_pending: old(self)@.avatar_pending.drop_first(),
                    ..old(self)@
                })
                &&& r == (if old(self)@.avatar_textures.contains(uid)
                    || old(self)@.avatar_failed.contains(uid) {
                    None
                } else {
                    Some(uid)
                })
            },
    {
        let ghost before = self@;
        match self.avatar_pending.pop_front() {
            Some(uid) => {
                assert(self@ =~= (AppView {
                    avatar_pending: before.avatar_pending.drop_first(),
                    ..before
                }));
                if self.avatar_textures.contains(&uid) || self.avatar_failed.contains(&uid) {
                    None
                } else {
                    Some(uid)
                }
            },
            None => None,
        }
    }

    /// Settles an avatar: shown where the download gave bytes that decode to a
    /// picture and there is something to draw with, else not tried again.
    /// `fetched` is the number of bytes of a download that succeeded.
    pub fn settle_avatar(
        &mut self,
        uid: i64,
        fetched: Option<usize>,
        decoded: bool,
        can_draw: bool,
    ) -> (shown: bool)
        ensures
            shown == (fetched is Some && fetched->0 > 0 && decoded && can_draw),
            final(self)@ == (if shown {
                AppView { avatar_textures: old(self)@.avatar_textures.insert(uid), ..old(self)@ }
            } else {
                AppView { avatar_failed: old(self)@.avatar_failed.insert(uid), ..old(self)@ }
            }),
    {
        let ghost before = self@;
        let got = match fetched {
            Some(n) => n > 0,
            None => false,
        };
        let shown = got && decoded && can_draw;
        if shown {
            self.avatar_textures.insert(uid);
            assert(self@ =~= (AppView {
                avatar_textures: before.avatar_textures.insert(uid),
                ..before
            }));
        } else {
            self.avatar_failed.insert(uid);
            assert(self@ =~= (AppView {
                avatar_failed: before.avatar_failed.insert(uid),
                ..before
            }));
        }
        shown
    }

    /// Takes the next medium to fetch off the queue, with the token to fetch it
    /// with; `None` where the queue is empty, that medium is here already, or
    /// nobody is signed in.
    pub fn next_media_download(&mut self) -> (r: Option<(i64, String)>)
        ensures
            old(self)@.media_pending.len() == 0 ==> r is None && final(self)@ == old(self)@,
            old(self)@.media_pending.len() > 0 ==> {
                let id = old(self)@.media_pending[0];
                &&& final(self)@ == (AppView {
                    media_pending: old(self)@.media_pending.drop_first(),
                    ..old(self)@
                })
                &&& match r {
                    Some(d) => d.0 == id && old(self).access_token == Some(d.1)
                        && !old(self)@.media_bytes.contains(id)
                        && !old(self)@.media_textures.contains(id),
                    None => old(self).access_token is None || old(self)@.media_bytes.contains(id)
                        || old(self)@.media_textures.contains(id),
                }
            },
    {
        let ghost before = self@;
        match self.media_pending.pop_front() {
            Some(id) => {
                assert(self@ =~= (AppView {
                    media_pending: before.media_pending.drop_first(),
                    ..before
                }));
                if self.media_bytes.contains(&id) || self.media_textures.contains(&id) {
                    None
                } else {
                    match &self.access_token {
                        Some(token) => Some((id, token.clone())),
                        None => None,
                    }
                }
            },
            None => None,
        }
    }

    /// Settles a medium. Bytes that came are kept, and shown as a picture where
    /// they decode to one and there is something to draw with.
    pub fn settle_media(&mut self, id: i64, fetched: bool, decoded: bool, can_draw: bool) -> (shown:
        bool)
        ensures
            shown == (fetched && decoded && can_draw),
            final(self)@ == (AppView {
                media_bytes: if fetched {
                    old(self)@.media_bytes.insert(id)
                } else {
                    old(self)@.media_bytes
                },
                media_textures: if shown {
                    old(self)@.media_textures.insert(id)
                } else {
                    old(self)@.media_textures
                },
                ..old(self)@
            }),
    {
        let ghost before = self@;
        let shown = fetched && decoded && can_draw;
        if fetched {
            self.media_bytes.insert(id);
        }
        if shown {
            self.media_textures.insert(id);
        }
        assert(self@ =~= (AppView {
            media_bytes: if fetched {
                before.media_bytes.insert(id)
            } else {
                before.media_bytes
            },
            media_textures: if shown {
                before.media_textures.insert(id)
            } else {
                before.media_textures
            },
            ..before
        }));
        shown
    }

    /// Goes on after an avatar was fetched, or could not be: the picture to show,
    /// where there is one and something to draw with. Else the avatar is not tried
    /// again. `jpeg` is what a JPEG file was decoded to.
    pub fn process_avatar_downloads(
        &mut self,
        uid: i64,
        fetched: Option<&Vec<u8>>,
        jpeg: Option<Picture>,
        can_draw: bool,
    ) -> (r: Option<Picture>)
        ensures
            match r {
                Some(p) => {
                    &&& can_draw
                    &&& pictures::fetched_picture(fetched, jpeg) == Some(p@)
                    &&& final(self)@ == (AppView {
                        avatar_textures: old(self)@.avatar_textures.insert(uid),
                        ..old(self)@
                    })
                },
                None => {
                    &&& !can_draw || pictures::fetched_picture(fetched, jpeg) is None
                    &&& final(self)@ == (AppView {
                        avatar_failed: old(self)@.avatar_failed.insert(uid),
                        ..old(self)@
                    })
                },
            },
    {
        let size: Option<usize> = match fetched {
            Some(bytes) => Some(bytes.len()),
            None => None,
        };
        let picture = match fetched {
            Some(bytes) => if bytes.len() > 0 {
                pictures::picture_in(bytes.as_slice(), jpeg)
            } else {
                None
            },
            None => None,
        };
        if self.settle_avatar(uid, size, picture.is_some(), can_draw) {
            picture
        } else {
            None
        }
    }

    /// Goes on after a medium was fetched, or could not be: the picture to show,
    /// where the bytes are one and there is something to draw with. The bytes are
    /// here from now on in any case. `jpeg` is what a JPEG file was decoded to.
    pub fn process_media_downloads(
        &mut self,
        id: i64,
        fetched: Option<&Vec<u8>>,
        jpeg: Option<Picture>,
        can_draw: bool,
    ) -> (r: Option<Picture>)
        ensures
            match r {
                Some(p) => {
                    &&& can_draw
                    &&& fetched is Some
                    &&& pictures::picture_of(fetched->0@, jpeg) == Some(p@)
                },
                None => !can_draw || fetched is None || pictures::picture_of(
                    fetched->0@,
                    jpeg,
                ) is None,
            },
            final(self)@ == (AppView {
                media_bytes: if fetched is Some {
                    old(self)@.media_bytes.insert(id)
                } else {
                    old(self)@.media_bytes
                },
                media_textures: if r is Some {
                    old(self)@.media_textures.insert(id)
                } else {
                    old(self)@.media_textures
                },
                ..old(self)@
            }),
    {
        let picture = match fetched {
            Some(bytes) => pictures::picture_in(bytes.as_slice(), jpeg),
            None => None,
        };
        if self.settle_media(id, fetched.is_some(), picture.is_some(), can_draw) {
            picture
        } else {
            None
        }
    }

    fn sync_viewing_channel(&mut self)
        ensures
            final(self)@ == viewing_synced(old(self)@),
    {
        let ghost before = self@;
        if self.main.selected_channel != self.main.ws_viewing_channel {
            self.main.ws_viewing_channel = self.main.selected_channel;
            assert(self@ =~= (AppView {
                main: MainView {
                    ws_viewing_channel: before.main.selected_channel,
                    ..before.main
                },
                ..before
            }));
            if let Some(c) = self.main.selected_channel {
                self.ws_view_channel(c, None);
            }
        }
    }

    fn expire_typing(&mut self, now: u64)
        ensures
            final(self)@ == (AppView {
                main: MainView {
                    typing_users: still_typing(old(self)@.main.typing_users, now),
                    ..old(self)@.main
                },
                ..old(self)@
            }),
    {
        let ghost before = self@;
        let ghost all = self.main.typing_users@;
        let mut i: usize = 0;
        let ghost mut done: int = 0;
        assert(all.skip(0) =~= all);
        assert(still_typing(all.take(0), now) + all.skip(0) =~= all);
        while i < self.main.typing_users.len()
            invariant
                0 <= done <= all.len(),
                i == still_typing(all.take(done), now).len(),
                self@.main.typing_users == still_typing(all.take(done), now) + all.skip(done),
                self@ == (AppView {
                    main: MainView { typing_users: self@.main.typing_users, ..before.main },
                    ..before
                }),
            decreases self@.main.typing_users.len() - i,
        {
            let ghost kept = still_typing(all.take(done), now);
            assert(all.take(done + 1).drop_last() =~= all.take(done));
            assert(self.main.typing_users@[i as int] == all[done]);
            if time_since(now, self.main.typing_users[i].since) < TYPING_SHOWN_NS {
                i += 1;
                assert(self@.main.typing_users =~= kept.push(all[done]) + all.skip(done + 1));
            } else {
                self.main.typing_users.remove(i);
                assert(self@.main.typing_users =~= kept + all.skip(done + 1));
            }
            proof {
                done = done + 1;
            }
        }
        assert(all.take(done) =~= all);
        assert(self@.main.typing_users =~= still_typing(all, now));
    }

    fn tell_typing(&mut self, now: u64)
        ensures
            final(self)@ == typing_told(old(self)@, now),
    {
        let ghost before = self@;
        if !self.main.new_message.as_str().is_empty() && self.main.new_message
            != self.main.prev_message {
            let due = match self.main.last_typing_sent {
                Some(t) => time_since(now, t) > TYPING_RESEND_NS,
                None => true,
            };
            if due {
                if let Some(c) = self.main.selected_channel {
                    self.main.last_typing_sent = Some(now);
                    assert(self@ =~= (AppView {
                        main: MainView { last_typing_sent: Some(now), ..before.main },
                        ..before
                    }));
                    self.ws_typing(c);
                }
            }
        }
    }

    /// What opens a frame: the events that came are handled, a connection is
    /// asked for where one is due, and missing avatars are queued.
    pub fn update(&mut self, events: Vec<WsEvent>, now: u64) -> (r: Option<ConnectRequest>)
        ensures
            exists|b: AppView|
                {
                    &&& #[trigger] ws_events::after_events(old(self)@, b, events@, now)
                    &&& asks_for_connection(darkened(b), r)
                    &&& final(self)@ == avatars_queued(connected(darkened(b)))
                },
    {
        let ghost before = self@;
        self.process_ws_events(events, now);
        let ghost b = self@;
        self.dark_mode = true;
        self.settings.dark_mode = true;
        assert(self@ =~= darkened(b));
        let r = self.take_connect_request();
        self.queue_avatar_pending();
        assert(ws_events::after_events(before, b, events@, now));
        r
    }

    /// What comes before the main screen is drawn: the channel on screen is made
    /// known, those who stopped writing are dropped, and the server is told that
    /// one writes where that is due.
    pub fn prepare_main_screen(&mut self, now: u64)
        ensures
            final(self)@ == screen_prepared(old(self)@, now),
    {
        let ghost before = self@;
        self.sync_viewing_channel();
        self.expire_typing(now);
        self.tell_typing(now);
        self.main.prev_message = self.main.new_message.clone();
        assert(self@ =~= screen_prepared(before, now));
    }

    /// What comes after the main screen was drawn: a read receipt is sent, and
    /// the media that it lacked are queued.
    pub fn follow_up_main_screen(&mut self)
        ensures
            final(self)@ == screen_followed_up(old(self)@),
    {
        let ghost before = self@;
        if let Some(r) = self.main.pending_read_receipt {
            self.main.pending_read_receipt = None;
            assert(self@ =~= (AppView {
                main: MainView { pending_read_receipt: None, ..before.main },
                ..before
            }));
            self.ws_view_channel(r.0, Some(r.1));
        }
        let ghost middle = self@;
        let ghost ids = self.main.pending_media_ids@;
        let mut i: usize = 0;
        assert(self@ =~= (AppView {
            media_pending: middle.media_pending + absent_media(
                ids.take(0),
                middle.media_textures,
                middle.media_bytes,
            ),
            ..middle
        }));
        while i < self.main.pending_media_ids.len()
            invariant
                i <= ids.len(),
                ids == middle.main.pending_media_ids,
                self@ == (AppView {
                    media_pending: middle.media_pending + absent_media(
                        ids.take(i as int),
                        middle.media_textures,
                        middle.media_bytes,
                    ),
                    ..middle
                }),
            decreases ids.len() - i,
        {
            assert(ids.take(i + 1).drop_last() =~= ids.take(i as int));
            let id: i64 = self.main.pending_media_ids[i];
            if !self.media_textures.contains(&id) && !self.media_bytes.contains(&id) {
                self.media_pending.push_back(id);
            }
            i += 1;
            assert(self@ =~= (AppView {
                media_pending: middle.media_pending + absent_media(
                    ids.take(i as int),
                    middle.media_textures,
                    middle.media_bytes,
                ),
                ..middle
            }));
        }
        assert(ids.take(i as int) =~= ids);
        self.main.pending_media_ids.clear();
        assert(self@ =~= screen_followed_up(before));
    }

    /// Signs out.
    pub fn logout(&mut self)
        ensures
            signed_out(old(self)@, final(self)@),
    {
        let ghost before = self@;
        if !self.settings.remember_me {
            self.settings.saved_username = String::new();
            self.settings.saved_password = String::new();
        }
        self.ws_open = false;
        self.access_token = None;
        self.user_id = None;
        self.main = MainState::blank(self.settings.input_sensitivity);
        self.screen = Screen::Auth;
        self.repaint = true;
        assert(self@ =~= (AppView {
            settings: self@.settings,
            ws_open: false,
            access_token: None,
            user_id: None,
            main: state::blank_main(before.settings.input_sensitivity),
            screen: Screen::Auth,
            repaint: true,
            ..before
        }));
    }
}

/// Whether `k` waits in the queue.
fn queue_contains(q: &VecDeque<i64>, k: i64) -> (r: bool)
    ensures
        r == q@.contains(k),
{
    let mut i: usize = 0;
    while i < q.len()
        invariant
            i <= q@.len(),
            forall|j: int| 0 <= j < i ==> q@[j] != k,
        decreases q@.len() - i,
    {
        if q[i] == k {
            assert(q@[i as int] == k);
            return true;
        }
        i += 1;
    }
    false
}

/// Queueing avatars never queues a user twice, and never one whose avatar is
/// here or failed.
pub proof fn avatars_are_queued_once(
    members: Seq<Member>,
    pending: Seq<i64>,
    textures: Set<i64>,
    failed: Set<i64>,
)
    requires
        pending.no_duplicates(),
    ensures
        avatars_wanted(members, pending, textures, failed).no_duplicates(),
        forall|i: int|
            pending.len() <= i < avatars_wanted(members, pending, textures, failed).len() ==> {
                let uid = #[trigger] avatars_wanted(members, pending, textures, failed)[i];
                !textures.contains(uid) && !failed.contains(uid)
            },
    decreases members.len(),
{
    if members.len() > 0 {
        avatars_are_queued_once(members.drop_last(), pending, textures, failed);
    }
}

/// Every member's avatar is here, failed, or queued once the queue was filled.
pub proof fn avatars_all_accounted_for(
    members: Seq<Member>,
    pending: Seq<i64>,
    textures: Set<i64>,
    failed: Set<i64>,
    i: int,
)
    requires
        0 <= i < members.len(),
    ensures
        textures.contains(members[i].user_id) || failed.contains(members[i].user_id)
            || avatars_wanted(members, pending, textures, failed).contains(members[i].user_id),
    decreases members.len(),
{
    let uid = members[i].user_id;
    let before = avatars_wanted(members.drop_last(), pending, textures, failed);
    let all = avatars_wanted(members, pending, textures, failed);
    if i < members.len() - 1 {
        avatars_all_accounted_for(members.drop_last(), pending, textures, failed, i);
        if before.contains(uid) {
            let j = choose|j: int| 0 <= j < before.len() && before[j] == uid;
            assert(all[j] == uid);
        }
    } else if !textures.contains(uid) && !failed.contains(uid) && !before.contains(uid) {
        assert(all[all.len() - 1] == uid);
    }
}

/// Once a connection was asked for it is not asked for again until another
/// server is selected.
pub proof fn connection_is_asked_for_once(a: AppView)
    ensures
        !connection_due(connected(a)),
        connected(connected(a)) == connected(a),
{
}

/// Once the channel on screen was made known it is not told again until another
/// one is selected.
pub proof fn viewing_is_told_once(a: AppView)
    ensures
        viewing_synced(viewing_synced(a)) == viewing_synced(a),
{
}

/// Signed out, nothing is sent any more, and nothing of the session is left.
pub proof fn signing_out_ends_the_session(a: AppView, b: AppView, msg: WsClientMsg)
    requires
        signed_out(a, b),
    ensures
        sent(b, msg) == b,
        b.main == state::blank_main(a.settings.input_sensitivity),
        !connection_due(b),
{
}

/// Within a second of telling the server that one writes, it is not told again.
pub proof fn typing_is_not_repeated(a: AppView, now: u64, later: u64)
    requires
        typing_due(a.main, now),
        a.main.selected_channel is Some,
        elapsed(later, now) <= TYPING_RESEND_NS,
    ensures
        !typing_due(typing_told(a, now).main, later),
{
}

/// The channel that is on screen is made known to the server exactly when it is another
/// than the one known there, with one message that names it and no last message; the
/// server is not told that nothing is on screen.
pub proof fn viewing_is_told(a: AppView)
    ensures
        viewing_synced(a).main.ws_viewing_channel == a.main.selected_channel,
        viewing_synced(a).ws_out == if a.main.selected_channel is Some && a.main.selected_channel
            != a.main.ws_viewing_channel && a.ws_open {
            a.ws_out.push(
                WsClientMsg {
                    kind: ClientKind::ChannelView,
                    channel_id: a.main.selected_channel,
                    last_message_id: None,
                },
            )
        } else {
            a.ws_out
        },
        viewing_synced(a) == (AppView {
            ws_out: viewing_synced(a).ws_out,
            main: MainView { ws_viewing_channel: a.main.selected_channel, ..a.main },
            ..a
        }),
{
}

/// Nothing is sent while no connection is open; else each message goes to the end.
pub proof fn messages_are_sent_in_order(a: AppView, first: WsClientMsg, second: WsClientMsg)
    ensures
        !a.ws_open ==> sent(a, first) == a,
        a.ws_open ==> sent(sent(a, first), second).ws_out == a.ws_out + seq![first, second],
        sent(a, first) == (AppView { ws_out: sent(a, first).ws_out, ..a }),
{
    assert(a.ws_out.push(first).push(second) =~= a.ws_out + seq![first, second]);
}

/// A message on what is viewed names its channel, and the last message that was read
/// where that is one: ids from one on, and no others, are those of messages.
pub proof fn views_name_real_messages(channel_id: i64, last: Option<i64>)
    ensures
        view_message(channel_id, last).kind is ChannelView,
        view_message(channel_id, last).channel_id == Some(channel_id),
        last is Some && last->0 > 0 ==> view_message(channel_id, last).last_message_id == last,
        last is None || last->0 <= 0 ==> view_message(channel_id, last).last_message_id is None,
        typing_message(channel_id).kind is Typing,
        typing_message(channel_id).channel_id == Some(channel_id),
{
}

/// Who was heard writing counts as writing for less than three seconds; the others stay,
/// in their order.
pub proof fn writers_are_dropped_in_time(s: Seq<TypingUser>, now: u64)
    ensures
        still_typing(s, now) == s.filter(|u: TypingUser| now - u.since < 3_000_000_000),
    decreases s.len(),
{
    reveal(Seq::filter);
    if s.len() > 0 {
        writers_are_dropped_in_time(s.drop_last(), now);
    }
}

/// The server is told that one writes exactly when a channel is on screen, the draft has
/// text, it is another than at the last look, and more than a second has passed since it
/// was told; then the time is noted, and the message names the channel.
pub proof fn writing_is_told(a: AppView, now: u64)
    ensures
        ({
            let b = typing_told(a, now);
            let due = a.main.selected_channel is Some && a.main.new_message.len() > 0
                && a.main.new_message != a.main.prev_message && (a.main.last_typing_sent is None
                || now - a.main.last_typing_sent->0 > 1_000_000_000);
            &&& due ==> b.main.last_typing_sent == Some(now)
            &&& !due ==> b == a
            &&& due && a.ws_open ==> b.ws_out == a.ws_out.push(
                WsClientMsg {
                    kind: ClientKind::Typing,
                    channel_id: a.main.selected_channel,
                    last_message_id: None,
                },
            )
            &&& !a.ws_open ==> b.ws_out == a.ws_out
            &&& b == AppView {
                ws_out: b.ws_out,
                main: MainView { last_typing_sent: b.main.last_typing_sent, ..a.main },
                ..a
            }
        }),
{
}

/// Before the main screen is drawn, the draft of now becomes the draft of the last look,
/// the channel on screen is known to the server, and nobody is listed who was not heard
/// for three seconds. Nothing else changes but what is told to the server.
pub proof fn the_screen_is_prepared(a: AppView, now: u64)
    ensures
        ({
            let b = screen_prepared(a, now);
            &&& b.main.prev_message == a.main.new_message
            &&& b.main.ws_viewing_channel == a.main.selected_channel
            &&& b.main.typing_users == a.main.typing_users.filter(
                |u: TypingUser| now - u.since < 3_000_000_000,
            )
            &&& b.main.last_typing_sent == a.main.last_typing_sent || b.main.last_typing_sent
                == Some(now)
            &&& a.ws_out.len() <= b.ws_out.len() <= a.ws_out.len() + 2
            &&& b.ws_out.take(a.ws_out.len() as int) == a.ws_out
            &&& forall|i: int|
                a.ws_out.len() <= i < b.ws_out.len() ==> (#[trigger] b.ws_out[i]).channel_id
                    == a.main.selected_channel
            &&& b == AppView {
                ws_out: b.ws_out,
                main: MainView {
                    prev_message: a.main.new_message,
                    ws_viewing_channel: a.main.selected_channel,
                    typing_users: b.main.typing_users,
                    last_typing_sent: b.main.last_typing_sent,
                    ..a.main
                },
                ..a
            }
        }),
{
    writers_are_dropped_in_time(a.main.typing_users, now);
    let b = screen_prepared(a, now);
    assert(b.ws_out.take(a.ws_out.len() as int) =~= a.ws_out);
}

/// A connection is due exactly when someone is signed in and a server is selected that
/// there is no connection to. It is then to that server, and who is online is not known
/// until the server says so; else nothing changes.
pub proof fn connections_follow_the_selection(a: AppView, r: Option<ConnectRequest>)
    requires
        asks_for_connection(a, r),
    ensures
        ({
            let due = a.access_token is Some && a.main.selected_server is Some
                && a.main.selected_server != a.main.ws_connected_server;
            &&& r is Some <==> due
            &&& due ==> {
                &&& a.main.selected_server == Some(r->0.server_id)
                &&& a.main.selected_channel == r->0.channel_id
                &&& a.access_token == Some(r->0.token)
                &&& connected(a).ws_open
                &&& connected(a).main.ws_connected_server == a.main.selected_server
                &&& forall|u: i64| !#[trigger] connected(a).main.online_users.contains(u)
                &&& connected(a) == AppView {
                    ws_open: true,
                    main: MainView {
                        ws_connected_server: a.main.selected_server,
                        online_users: connected(a).main.online_users,
                        ..a.main
                    },
                    ..a
                }
            }
            &&& !due ==> connected(a) == a
        }),
{
}

/// The address of the event stream begins with the base and the token, names the server,
/// and after that the channel, where there is one.
pub proof fn stream_addresses(base: Seq<char>, token: Seq<char>, server_id: i64, channel: i64)
    ensures
        stream_url(base, token, server_id, None) == base + ("/ws?token="@ + token + (
        "&server_id="@ + text::decimal_int(server_id as int))),
        stream_url(base, token, server_id, Some(channel)) == stream_url(
            base,
            token,
            server_id,
            None,
        ) + ("&channel_id="@ + text::decimal_int(channel as int)),
{
    assert(stream_url(base, token, server_id, None) =~= base + ("/ws?token="@ + token + (
    "&server_id="@ + text::decimal_int(server_id as int))));
    assert(stream_url(base, token, server_id, Some(channel)) =~= stream_url(
        base,
        token,
        server_id,
        None,
    ) + ("&channel_id="@ + text::decimal_int(channel as int)));
}

/// Queueing avatars leaves those that wait where they are, in front, and queues no one
/// but members.
pub proof fn waiting_avatars_keep_their_place(
    members: Seq<Member>,
    pending: Seq<i64>,
    textures: Set<i64>,
    failed: Set<i64>,
)
    ensures
        pending.len() <= avatars_wanted(members, pending, textures, failed).len(),
        avatars_wanted(members, pending, textures, failed).take(pending.len() as int) == pending,
        forall|i: int|
            pending.len() <= i < avatars_wanted(members, pending, textures, failed).len()
                ==> exists|j: int|
                0 <= j < members.len() && (#[trigger] members[j]).user_id
                    == #[trigger] avatars_wanted(members, pending, textures, failed)[i],
    decreases members.len(),
{
    let all = avatars_wanted(members, pending, textures, failed);
    if members.len() > 0 {
        let front = members.drop_last();
        waiting_avatars_keep_their_place(front, pending, textures, failed);
        let before = avatars_wanted(front, pending, textures, failed);
        assert(all.take(pending.len() as int) =~= before.take(pending.len() as int));
        assert forall|i: int| pending.len() <= i < all.len() implies exists|j: int|
            0 <= j < members.len() && (#[trigger] members[j]).user_id == #[trigger] all[i] by {
            if i < before.len() {
                assert(before[i] == all[i]);
                let j = choose|j: int|
                    0 <= j < front.len() && (#[trigger] front[j]).user_id == before[i];
                assert(members[j] == front[j]);
            } else {
                assert(members[members.len() - 1].user_id == all[i]);
            }
        }
    } else {
        assert(all.take(pending.len() as int) =~= pending);
    }
}

proof fn absent_are_absent(ids: Seq<i64>, textures: Set<i64>, bytes: Set<i64>)
    ensures
        absent_media(ids, textures, bytes) == ids.filter(
            |id: i64| !textures.contains(id) && !bytes.contains(id),
        ),
    decreases ids.len(),
{
    reveal(Seq::filter);
    if ids.len() > 0 {
        absent_are_absent(ids.drop_last(), textures, bytes);
    }
}

/// After the main screen was drawn, a read receipt that was due is sent, with its channel
/// and message, and is due no longer; and the media that it lacked are asked for, but for
/// those that are here.
pub proof fn the_screen_is_followed_up(a: AppView)
    ensures
        ({
            let b = screen_followed_up(a);
            &&& b.main.pending_read_receipt is None
            &&& b.main.pending_media_ids.len() == 0
            &&& b.media_pending == a.media_pending + a.main.pending_media_ids.filter(
                |id: i64| !a.media_textures.contains(id) && !a.media_bytes.contains(id),
            )
            &&& b.ws_out == if a.main.pending_read_receipt is Some && a.ws_open {
                let (channel, message) = a.main.pending_read_receipt->0;
                a.ws_out.push(
                    WsClientMsg {
                        kind: ClientKind::ChannelView,
                        channel_id: Some(channel),
                        last_message_id: if message > 0 {
                            Some(message)
                        } else {
                            None
                        },
                    },
                )
            } else {
                a.ws_out
            }
            &&& b == AppView {
                ws_out: b.ws_out,
                media_pending: b.media_pending,
                main: MainView {
                    pending_read_receipt: None,
                    pending_media_ids: b.main.pending_media_ids,
                    ..a.main
                },
                ..a
            }
        }),
{
    absent_are_absent(a.main.pending_media_ids, a.media_textures, a.media_bytes);
}

/// Signed out, one is at the sign-in screen, with no token, no user and no connection, and
/// with nothing listed or selected; the name and the password that were saved stay exactly
/// where they are to be remembered.
pub proof fn signing_out_forgets(a: AppView, b: AppView)
    requires
        signed_out(a, b),
    ensures
        b.screen is Auth,
        b.access_token is None,
        b.user_id is None,
        !b.ws_open,
        b.main.servers.len() == 0 && b.main.channels.len() == 0 && b.main.messages.len() == 0,
        b.main.server_members.len() == 0 && b.main.typing_users.len() == 0,
        b.main.selected_server is None && b.main.selected_channel is None,
        b.main.voice.channel_id is None && b.main.voice.participants.len() == 0,
        b.main.ws_connected_server is None && b.main.ws_viewing_channel is None,
        b.main.new_message.len() == 0 && b.main.pending_read_receipt is None,
        b.main.voice.input_sensitivity == a.settings.input_sensitivity,
        forall|u: i64| !#[trigger] b.main.online_users.contains(u),
        forall|c: i64| !#[trigger] b.main.unread_channels.contains(c),
        a.settings.remember_me ==> b.settings == a.settings,
        !a.settings.remember_me ==> b.settings.saved_username@.len() == 0
            && b.settings.saved_password@.len() == 0,
        b.settings.voice_volume_by_user == a.settings.voice_volume_by_user,
        b.settings.remember_me == a.settings.remember_me,
{
}

/// The dark colours are in force, here and in the settings, and nothing else changes.
pub proof fn colours_are_dark(a: AppView)
    ensures
        darkened(a).dark_mode && darkened(a).settings.dark_mode,
        darkened(a) == (AppView {
            dark_mode: true,
            settings: Settings { dark_mode: true, ..a.settings },
            ..a
        }),
{
}

} // verus!
