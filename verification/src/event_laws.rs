//! What holds of every event that the server pushes, over the fields of the state
//! before it and after it.
use vstd::prelude::*;

use crate::net::{Channel, Member, Message, Payload, Server, VoiceParticipant, WsEvent};
use crate::rows::{self, has_key, index_of, without, Keyed};
use crate::state::{self, AppView, MainView, TypingUser, VoiceCmd, VoiceView};
use crate::text;
use crate::ws_events::{after_event, first_text_channel, kind_named, missing_media};

verus! {

/// Each name of the protocol stands for a kind of its own, but for the two names of a
/// channel's change.
pub proof fn names_of_kinds()
    ensures
        kind_named("message.created"@) is MessageCreated,
        kind_named("message.updated"@) is MessageUpdated,
        kind_named("message.deleted"@) is MessageDeleted,
        kind_named("channel.created"@) is ChannelCreated,
        kind_named("channel.renamed"@) is ChannelUpdated,
        kind_named("channel.updated"@) is ChannelUpdated,
        kind_named("channel.deleted"@) is ChannelDeleted,
        kind_named("member.joined"@) is MemberJoined,
        kind_named("member.left"@) is MemberLeft,
        kind_named("member.updated"@) is MemberUpdated,
        kind_named("member.renamed"@) is MemberRenamed,
        kind_named("presence.init"@) is PresenceInit,
        kind_named("presence.update"@) is PresenceUpdate,
        kind_named("typing"@) is Typing,
        kind_named("voice.participant_joined"@) is VoiceJoined,
        kind_named("voice.participant_left"@) is VoiceLeft,
        kind_named("voice.state_update"@) is VoiceStateUpdate,
        kind_named("server.deleted"@) is ServerDeleted,
        kind_named("server.updated"@) is ServerUpdated,
        kind_named("server.added"@) is ServerAdded,
        kind_named("user.updated"@) is UserUpdated,
        kind_named("messages.read"@) is MessagesRead,
{
    reveal_strlit("message.created");
    reveal_strlit("message.updated");
    reveal_strlit("message.deleted");
    reveal_strlit("channel.created");
    reveal_strlit("channel.renamed");
    reveal_strlit("channel.updated");
    reveal_strlit("channel.deleted");
    reveal_strlit("member.joined");
    reveal_strlit("member.left");
    reveal_strlit("member.updated");
    reveal_strlit("member.renamed");
    reveal_strlit("presence.init");
    reveal_strlit("presence.update");
    reveal_strlit("typing");
    reveal_strlit("voice.participant_joined");
    reveal_strlit("voice.participant_left");
    reveal_strlit("voice.state_update");
    reveal_strlit("server.deleted");
    reveal_strlit("server.updated");
    reveal_strlit("server.added");
    reveal_strlit("user.updated");
    reveal_strlit("messages.read");
    assert("message.created"@.len() == 15);
    assert("message.updated"@.len() == 15);
    assert("message.deleted"@.len() == 15);
    assert("channel.created"@.len() == 15);
    assert("channel.renamed"@.len() == 15);
    assert("channel.updated"@.len() == 15);
    assert("channel.deleted"@.len() == 15);
    assert("member.joined"@.len() == 13);
    assert("member.left"@.len() == 11);
    assert("member.updated"@.len() == 14);
    assert("member.renamed"@.len() == 14);
    assert("presence.init"@.len() == 13);
    assert("presence.update"@.len() == 15);
    assert("typing"@.len() == 6);
    assert("voice.participant_joined"@.len() == 24);
    assert("voice.participant_left"@.len() == 22);
    assert("voice.state_update"@.len() == 18);
    assert("server.deleted"@.len() == 14);
    assert("server.updated"@.len() == 14);
    assert("server.added"@.len() == 12);
    assert("user.updated"@.len() == 12);
    assert("messages.read"@.len() == 13);
    assert("message.created"@[8] != "message.updated"@[8]);
    assert("message.created"@[8] != "message.deleted"@[8]);
    assert("message.created"@[0] != "channel.created"@[0]);
    assert("message.created"@[0] != "channel.renamed"@[0]);
    assert("message.created"@[0] != "channel.updated"@[0]);
    assert("message.created"@[0] != "channel.deleted"@[0]);
    assert("message.created"@[0] != "presence.update"@[0]);
    assert("message.updated"@[8] != "message.deleted"@[8]);
    assert("message.updated"@[0] != "channel.created"@[0]);
    assert("message.updated"@[0] != "channel.renamed"@[0]);
    assert("message.updated"@[0] != "channel.updated"@[0]);
    assert("message.updated"@[0] != "channel.deleted"@[0]);
    assert("message.updated"@[0] != "presence.update"@[0]);
    assert("message.deleted"@[0] != "channel.created"@[0]);
    assert("message.deleted"@[0] != "channel.renamed"@[0]);
    assert("message.deleted"@[0] != "channel.updated"@[0]);
    assert("message.deleted"@[0] != "channel.deleted"@[0]);
    assert("message.deleted"@[0] != "presence.update"@[0]);
    assert("channel.created"@[8] != "channel.renamed"@[8]);
    assert("channel.created"@[8] != "channel.updated"@[8]);
    assert("channel.created"@[8] != "channel.deleted"@[8]);
    assert("channel.created"@[0] != "presence.update"@[0]);
    assert("channel.renamed"@[8] != "channel.updated"@[8]);
    assert("channel.renamed"@[8] != "channel.deleted"@[8]);
    assert("channel.renamed"@[0] != "presence.update"@[0]);
    assert("channel.updated"@[8] != "channel.deleted"@[8]);
    assert("channel.updated"@[0] != "presence.update"@[0]);
    assert("channel.deleted"@[0] != "presence.update"@[0]);
    assert("member.joined"@[0] != "presence.init"@[0]);
    assert("member.joined"@[2] != "messages.read"@[2]);
    assert("member.updated"@[7] != "member.renamed"@[7]);
    assert("member.updated"@[0] != "server.deleted"@[0]);
    assert("member.updated"@[0] != "server.updated"@[0]);
    assert("member.renamed"@[0] != "server.deleted"@[0]);
    assert("member.renamed"@[0] != "server.updated"@[0]);
    assert("presence.init"@[0] != "messages.read"@[0]);
    assert("server.deleted"@[7] != "server.updated"@[7]);
    assert("server.added"@[0] != "user.updated"@[0]);
}

proof fn rows_left<T: Keyed>(s: Seq<T>, k: i64)
    ensures
        without(s, k) == s.filter(|x: T| x.key() != k),
    decreases s.len(),
{
    reveal(Seq::filter);
    if s.len() > 0 {
        rows_left(s.drop_last(), k);
    }
}

/// The `i`-th place is the first at which the id stands.
pub open spec fn first_at(ids: Seq<i64>, id: i64, i: int) -> bool {
    0 <= i < ids.len() && ids[i] == id && forall|j: int| 0 <= j < i ==> #[trigger] ids[j] != id
}

/// Where the id stands first, `b` has `new`; the rest is as in `a`.
pub open spec fn changed_first<T>(a: Seq<T>, b: Seq<T>, ids: Seq<i64>, id: i64, new: spec_fn(T) -> T) -> bool {
    &&& a.len() == b.len() == ids.len()
    &&& forall|i: int| #![trigger b[i]]
        0 <= i < a.len() ==> b[i] == if first_at(ids, id, i) {
            new(a[i])
        } else {
            a[i]
        }
}

proof fn first_row<T: Keyed>(s: Seq<T>, ids: Seq<i64>, k: i64)
    requires
        ids.len() == s.len(),
        forall|i: int| 0 <= i < s.len() ==> #[trigger] ids[i] == s[i].key(),
    ensures
        ids.contains(k) <==> has_key(s, k),
        0 <= index_of(s, k) <= s.len(),
        index_of(s, k) < s.len() <==> has_key(s, k),
        forall|j: int| #[trigger] first_at(ids, k, j) <==> j == index_of(s, k) && has_key(s, k),
{
    rows::index_of_is_first(s, k);
    let f = index_of(s, k);
    if ids.contains(k) {
        let i = choose|i: int| 0 <= i < ids.len() && ids[i] == k;
        assert(s[i].key() == k);
    }
    if has_key(s, k) {
        assert(ids[f] == k);
        assert(first_at(ids, k, f));
    }
    assert forall|j: int| #[trigger] first_at(ids, k, j) implies j == f && has_key(s, k) by {
        assert(s[j].key() == k);
        if f < j {
            assert(ids[f] != k);
        }
    }
}

/// The ids of messages.
pub open spec fn message_ids(s: Seq<Message>) -> Seq<i64> {
    Seq::new(s.len(), |i: int| s[i].id)
}

/// The ids of channels.
pub open spec fn channel_ids(s: Seq<Channel>) -> Seq<i64> {
    Seq::new(s.len(), |i: int| s[i].id)
}

/// The ids of servers.
pub open spec fn server_ids(s: Seq<Server>) -> Seq<i64> {
    Seq::new(s.len(), |i: int| s[i].id)
}

/// The users that members are.
pub open spec fn member_ids(s: Seq<Member>) -> Seq<i64> {
    Seq::new(s.len(), |i: int| s[i].user_id)
}

/// The users that participants are.
pub open spec fn participant_ids(s: Seq<VoiceParticipant>) -> Seq<i64> {
    Seq::new(s.len(), |i: int| s[i].user_id)
}

/// The users that write.
pub open spec fn typing_ids(s: Seq<TypingUser>) -> Seq<i64> {
    Seq::new(s.len(), |i: int| s[i].user_id)
}

/// An event of no known kind changes nothing; one of a known kind has the window drawn
/// again, and without a payload that is all.
pub proof fn events_repaint(a: AppView, b: AppView, ev: WsEvent, now: u64)
    requires
        after_event(a, b, ev, now),
    ensures
        kind_named(ev.kind@) is Unknown ==> b == a,
        !(kind_named(ev.kind@) is Unknown) ==> b.repaint,
        !(kind_named(ev.kind@) is Unknown) && ev.payload is None ==> b == (AppView {
            repaint: true,
            ..a
        }),
{
}

proof fn missing_are_missing(
    attachments: Seq<crate::net::AttachmentMeta>,
    textures: Set<i64>,
    bytes: Set<i64>,
)
    ensures
        missing_media(attachments, textures, bytes) == attachments.map_values(
            |m: crate::net::AttachmentMeta| m.media_id,
        ).filter(|id: i64| !textures.contains(id) && !bytes.contains(id)),
    decreases attachments.len(),
{
    reveal(Seq::filter);
    let id_of = |m: crate::net::AttachmentMeta| m.media_id;
    if attachments.len() > 0 {
        missing_are_missing(attachments.drop_last(), textures, bytes);
        assert(attachments.map_values(id_of).drop_last() =~= attachments.drop_last().map_values(
            id_of,
        ));
    } else {
        assert(attachments.map_values(id_of) =~= Seq::empty());
    }
}

/// A new message goes to the end of the messages, or brings an old one's readers up to
/// date; its channel is unread unless it is on screen or the message is one's own; and
/// those of its media that are neither shown nor here are asked for, in order.
pub proof fn new_messages(a: AppView, b: AppView, ev: WsEvent, now: u64, p: Payload, m: Message)
    requires
        after_event(a, b, ev, now),
        ev.kind@ == "message.created"@,
        ev.payload == Some(p),
        p.decoded.message == Some(m),
    ensures
        message_ids(a.main.messages).contains(m.id) ==> changed_first(
            a.main.messages,
            b.main.messages,
            message_ids(a.main.messages),
            m.id,
            |old: Message| Message { seen_by: m.seen_by, ..old },
        ),
        !message_ids(a.main.messages).contains(m.id) ==> b.main.messages == a.main.messages.push(m),
        forall|c: i64| #[trigger]
            b.main.unread_channels.contains(c) <==> a.main.unread_channels.contains(c) || (c
                == m.channel_id && a.main.selected_channel != Some(c) && a.user_id != Some(
                m.author_id,
            )),
        b.media_pending == a.media_pending + m.attachments@.map_values(
            |x: crate::net::AttachmentMeta| x.media_id,
        ).filter(|id: i64| !a.media_textures.contains(id) && !a.media_bytes.contains(id)),
        b == (AppView {
            repaint: true,
            media_pending: b.media_pending,
            main: MainView {
                messages: b.main.messages,
                unread_channels: b.main.unread_channels,
                ..a.main
            },
            ..a
        }),
{
    names_of_kinds();
    first_row(a.main.messages, message_ids(a.main.messages), m.id);
    missing_are_missing(m.attachments@, a.media_textures, a.media_bytes);
}

/// An edited message gets its new text and attachments where its channel's messages are
/// loaded; nothing else changes.
pub proof fn edited_messages(a: AppView, b: AppView, ev: WsEvent, now: u64, p: Payload, m: Message)
    requires
        after_event(a, b, ev, now),
        ev.kind@ == "message.updated"@,
        ev.payload == Some(p),
        p.decoded.message == Some(m),
    ensures
        a.main.messages_load_for == Some(m.channel_id) ==> changed_first(
            a.main.messages,
            b.main.messages,
            message_ids(a.main.messages),
            m.id,
            |old: Message| Message { content: m.content, attachments: m.attachments, ..old },
        ),
        a.main.messages_load_for != Some(m.channel_id) ==> b.main.messages == a.main.messages,
        b == (AppView {
            repaint: true,
            main: MainView {
                messages: b.main.messages,
                ..a.main
            },
            ..a
        }),
{
    names_of_kinds();
    first_row(a.main.messages, message_ids(a.main.messages), m.id);
}

/// A deleted message is gone, and the others stay in their order.
pub proof fn deleted_messages(a: AppView, b: AppView, ev: WsEvent, now: u64, p: Payload, id: i64)
    requires
        after_event(a, b, ev, now),
        ev.kind@ == "message.deleted"@,
        ev.payload == Some(p),
        p.fields.message_ref == Some(id),
    ensures
        b.main.messages == a.main.messages.filter(|m: Message| m.id != id),
        b == (AppView {
            repaint: true,
            main: MainView {
                messages: b.main.messages,
                ..a.main
            },
            ..a
        }),
{
    names_of_kinds();
    rows_left(a.main.messages, id);
    assert((|x: Message| x.key() != id) =~= (|m: Message| m.id != id));
}

/// A new channel goes to the end of the channels where it is one of the selected server
/// and is not listed yet.
pub proof fn new_channels(a: AppView, b: AppView, ev: WsEvent, now: u64, p: Payload, c: Channel)
    requires
        after_event(a, b, ev, now),
        ev.kind@ == "channel.created"@,
        ev.payload == Some(p),
        p.decoded.channel == Some(c),
    ensures
        b.main.channels == if a.main.selected_server == Some(c.server_id) && !channel_ids(
            a.main.channels,
        ).contains(c.id) {
            a.main.channels.push(c)
        } else {
            a.main.channels
        },
        b == (AppView {
            repaint: true,
            main: MainView {
                channels: b.main.channels,
                ..a.main
            },
            ..a
        }),
{
    names_of_kinds();
    first_row(a.main.channels, channel_ids(a.main.channels), c.id);
}

/// A changed channel, under either name of the event, gets its new name and kind.
pub proof fn changed_channels(
    a: AppView,
    b: AppView,
    ev: WsEvent,
    now: u64,
    p: Payload,
    c: Channel,
)
    requires
        after_event(a, b, ev, now),
        ev.kind@ == "channel.renamed"@ || ev.kind@ == "channel.updated"@,
        ev.payload == Some(p),
        p.decoded.channel == Some(c),
    ensures
        changed_first(
            a.main.channels,
            b.main.channels,
            channel_ids(a.main.channels),
            c.id,
            |old: Channel| Channel { name: c.name, kind: c.kind, ..old },
        ),
        b == (AppView {
            repaint: true,
            main: MainView {
                channels: b.main.channels,
                ..a.main
            },
            ..a
        }),
{
    names_of_kinds();
    first_row(a.main.channels, channel_ids(a.main.channels), c.id);
}

proof fn first_text_is_first(s: Seq<Channel>)
    ensures
        match first_text_channel(s) {
            Some(id) => exists|i: int|
                0 <= i < s.len() && (#[trigger] s[i]).id == id && s[i].kind@ == "text"@ && forall|
                    j: int,
                | 0 <= j < i ==> (#[trigger] s[j]).kind@ != "text"@,
            None => forall|j: int| 0 <= j < s.len() ==> (#[trigger] s[j]).kind@ != "text"@,
        },
    decreases s.len(),
{
    if s.len() > 0 {
        if s[0].kind@ == "text"@ {
            assert(s[0].id == s[0].id);
        } else {
            let rest = s.drop_first();
            first_text_is_first(rest);
            match first_text_channel(rest) {
                Some(id) => {
                    let i = choose|i: int|
                        0 <= i < rest.len() && (#[trigger] rest[i]).id == id && rest[i].kind@
                            == "text"@ && forall|j: int|
                            0 <= j < i ==> (#[trigger] rest[j]).kind@ != "text"@;
                    assert(s[i + 1] == rest[i]);
                    assert forall|j: int| 0 <= j < i + 1 implies (#[trigger] s[j]).kind@
                        != "text"@ by {
                        if j > 0 {
                            assert(s[j] == rest[j - 1]);
                        }
                    }
                },
                None => {
                    assert forall|j: int| 0 <= j < s.len() implies (#[trigger] s[j]).kind@
                        != "text"@ by {
                        if j > 0 {
                            assert(s[j] == rest[j - 1]);
                        }
                    }
                },
            }
        }
    }
}

/// A deleted channel of the selected server is gone. Where it was on screen, the first
/// text channel that is left takes its place, if there is one, and no messages are
/// loaded. One of another server changes nothing.
pub proof fn deleted_channels(a: AppView, b: AppView, ev: WsEvent, now: u64, p: Payload, id: i64)
    requires
        after_event(a, b, ev, now),
        ev.kind@ == "channel.deleted"@,
        ev.payload == Some(p),
        p.fields.channel_ref == Some(id),
        a.main.selected_server is Some,
    ensures
        p.fields.server_id == a.main.selected_server || Some(ev.server_id)
            == a.main.selected_server ==> b.main.channels == a.main.channels.filter(
            |c: Channel| c.id != id,
        ),
        p.fields.server_id == a.main.selected_server || Some(ev.server_id)
            == a.main.selected_server ==> if a.main.selected_channel == Some(id) {
            &&& b.main.messages.len() == 0
            &&& b.main.messages_load_for is None
            &&& match b.main.selected_channel {
                Some(next) => exists|i: int|
                    0 <= i < b.main.channels.len() && (#[trigger] b.main.channels[i]).id == next
                        && b.main.channels[i].kind@ == "text"@ && forall|j: int|
                        0 <= j < i ==> (#[trigger] b.main.channels[j]).kind@ != "text"@,
                None => forall|j: int|
                    0 <= j < b.main.channels.len() ==> (#[trigger] b.main.channels[j]).kind@
                        != "text"@,
            }
        } else {
            &&& b.main.messages == a.main.messages
            &&& b.main.messages_load_for == a.main.messages_load_for
            &&& b.main.selected_channel == a.main.selected_channel
        },
        p.fields.server_id != a.main.selected_server && Some(ev.server_id)
            != a.main.selected_server ==> b.main == a.main,
        b == (AppView {
            repaint: true,
            main: MainView {
                channels: b.main.channels,
                messages: b.main.messages,
                messages_load_for: b.main.messages_load_for,
                selected_channel: b.main.selected_channel,
                ..a.main
            },
            ..a
        }),
{
    names_of_kinds();
    rows_left(a.main.channels, id);
    assert((|x: Channel| x.key() != id) =~= (|c: Channel| c.id != id));
    first_text_is_first(without(a.main.channels, id));
}

/// A new member of the selected server goes to the end of the members, once.
pub proof fn new_members(a: AppView, b: AppView, ev: WsEvent, now: u64, p: Payload, m: Member)
    requires
        after_event(a, b, ev, now),
        ev.kind@ == "member.joined"@,
        ev.payload == Some(p),
        p.decoded.member == Some(m),
    ensures
        b.main.server_members == if a.main.selected_server == Some(ev.server_id) && !member_ids(
            a.main.server_members,
        ).contains(m.user_id) {
            a.main.server_members.push(m)
        } else {
            a.main.server_members
        },
        b == (AppView {
            repaint: true,
            main: MainView {
                server_members: b.main.server_members,
                ..a.main
            },
            ..a
        }),
{
    names_of_kinds();
    first_row(a.main.server_members, member_ids(a.main.server_members), m.user_id);
}

/// Who leaves the selected server is no longer a member; who leaves another stays.
pub proof fn members_gone(a: AppView, b: AppView, ev: WsEvent, now: u64, p: Payload, user_id: i64)
    requires
        after_event(a, b, ev, now),
        ev.kind@ == "member.left"@,
        ev.payload == Some(p),
        p.fields.user_id == Some(user_id),
    ensures
        b.main.server_members == if a.main.selected_server == Some(ev.server_id) {
            a.main.server_members.filter(|m: Member| m.user_id != user_id)
        } else {
            a.main.server_members
        },
        b == (AppView {
            repaint: true,
            main: MainView {
                server_members: b.main.server_members,
                ..a.main
            },
            ..a
        }),
{
    names_of_kinds();
    rows_left(a.main.server_members, user_id);
    assert((|x: Member| x.key() != user_id) =~= (|m: Member| m.user_id != user_id));
}

/// A changed member of the selected server gets the new names and rank, and is added
/// where there was none.
pub proof fn changed_members(a: AppView, b: AppView, ev: WsEvent, now: u64, p: Payload, m: Member)
    requires
        after_event(a, b, ev, now),
        ev.kind@ == "member.updated"@,
        ev.payload == Some(p),
        p.decoded.member == Some(m),
    ensures
        a.main.selected_server != Some(ev.server_id) ==> b.main.server_members
            == a.main.server_members,
        a.main.selected_server == Some(ev.server_id) && !member_ids(
            a.main.server_members,
        ).contains(m.user_id) ==> b.main.server_members == a.main.server_members.push(m),
        a.main.selected_server == Some(ev.server_id) && member_ids(
            a.main.server_members,
        ).contains(m.user_id) ==> changed_first(
            a.main.server_members,
            b.main.server_members,
            member_ids(a.main.server_members),
            m.user_id,
            |old: Member|
                Member {
                    username: m.username,
                    display_name: m.display_name,
                    is_owner: m.is_owner,
                    ..old
                },
        ),
        b == (AppView {
            repaint: true,
            main: MainView {
                server_members: b.main.server_members,
                ..a.main
            },
            ..a
        }),
{
    names_of_kinds();
    first_row(a.main.server_members, member_ids(a.main.server_members), m.user_id);
}

/// A renamed member is shown under the new name; one's own name is the new one where
/// the member is oneself, on the selected server.
pub proof fn renamed_members(a: AppView, b: AppView, ev: WsEvent, now: u64, p: Payload, user_id: i64, name: String)
    requires
        after_event(a, b, ev, now),
        ev.kind@ == "member.renamed"@,
        ev.payload == Some(p),
        p.fields.user_id == Some(user_id),
        p.fields.display_name == Some(name),
    ensures
        changed_first(
            a.main.server_members,
            b.main.server_members,
            member_ids(a.main.server_members),
            user_id,
            |old: Member| Member { display_name: name, ..old },
        ),
        b.main.my_display_name == if a.user_id == Some(user_id) && a.main.selected_server == Some(
            ev.server_id,
        ) {
            name@
        } else {
            a.main.my_display_name
        },
        b == (AppView {
            repaint: true,
            main: MainView {
                server_members: b.main.server_members,
                my_display_name: b.main.my_display_name,
                ..a.main
            },
            ..a
        }),
{
    names_of_kinds();
    first_row(a.main.server_members, member_ids(a.main.server_members), user_id);
}

/// After the first word on presence, exactly the users it names are online.
pub proof fn presence_begins(a: AppView, b: AppView, ev: WsEvent, now: u64, p: Payload, ids: Vec<i64>)
    requires
        after_event(a, b, ev, now),
        ev.kind@ == "presence.init"@,
        ev.payload == Some(p),
        p.fields.online_user_ids == Some(ids),
    ensures
        forall|u: i64| #[trigger] b.main.online_users.contains(u) <==> ids@.contains(u),
        b == (AppView {
            repaint: true,
            main: MainView {
                online_users: b.main.online_users,
                ..a.main
            },
            ..a
        }),
{
    names_of_kinds();
}

/// A user whose presence changes is online or not as the event says, and nobody else's
/// presence changes.
pub proof fn presence_changes(a: AppView, b: AppView, ev: WsEvent, now: u64, p: Payload, user_id: i64, online: bool)
    requires
        after_event(a, b, ev, now),
        ev.kind@ == "presence.update"@,
        ev.payload == Some(p),
        p.fields.user_id == Some(user_id),
        p.fields.online == Some(online),
    ensures
        b.main.online_users.contains(user_id) == online,
        forall|u: i64|
            u != user_id ==> (#[trigger] b.main.online_users.contains(u)
                == a.main.online_users.contains(u)),
        b == (AppView {
            repaint: true,
            main: MainView {
                online_users: b.main.online_users,
                ..a.main
            },
            ..a
        }),
{
    names_of_kinds();
}

/// Someone who writes in the channel on screen is listed once, with the time of the
/// event; who writes elsewhere is not.
pub proof fn writers_are_listed(a: AppView, b: AppView, ev: WsEvent, now: u64, p: Payload, user_id: i64, name: String)
    requires
        after_event(a, b, ev, now),
        ev.kind@ == "typing"@,
        ev.payload == Some(p),
        p.fields.user_id == Some(user_id),
        p.fields.username == Some(name),
    ensures
        a.main.selected_channel != Some(ev.channel_id) ==> b.main.typing_users
            == a.main.typing_users,
        a.main.selected_channel == Some(ev.channel_id) && !typing_ids(
            a.main.typing_users,
        ).contains(user_id) ==> b.main.typing_users == a.main.typing_users.push(
            TypingUser { user_id, name, since: now },
        ),
        a.main.selected_channel == Some(ev.channel_id) && typing_ids(
            a.main.typing_users,
        ).contains(user_id) ==> changed_first(
            a.main.typing_users,
            b.main.typing_users,
            typing_ids(a.main.typing_users),
            user_id,
            |old: TypingUser| TypingUser { since: now, ..old },
        ),
        b == (AppView {
            repaint: true,
            main: MainView {
                typing_users: b.main.typing_users,
                ..a.main
            },
            ..a
        }),
{
    names_of_kinds();
    first_row(a.main.typing_users, typing_ids(a.main.typing_users), user_id);
}

/// Who comes into a voice channel is listed there once. The session gains the person
/// exactly where its channel is the one that was come into and the person was not in it
/// yet; else its list is as it was. No other channel's list changes.
pub proof fn coming_into_voice(a: AppView, b: AppView, ev: WsEvent, now: u64, p: Payload, v: VoiceParticipant)
    requires
        after_event(a, b, ev, now),
        ev.kind@ == "voice.participant_joined"@,
        ev.payload == Some(p),
        p.decoded.participant == Some(v),
    ensures
        a.main.voice.channel_id != v.channel_id ==> b.main.voice.participants
            == a.main.voice.participants,
        participant_ids(a.main.voice.participants).contains(v.user_id) ==> b.main.voice.participants
            == a.main.voice.participants,
        a.main.voice.channel_id == v.channel_id && !participant_ids(
            a.main.voice.participants,
        ).contains(v.user_id) ==> b.main.voice.participants == a.main.voice.participants.push(v),
        b.main.voice.channel_id == a.main.voice.channel_id,
        v.channel_id is None ==> b.main.channel_voice == a.main.channel_voice,
        v.channel_id is Some ==> {
            let c = v.channel_id->0;
            let before = if a.main.channel_voice.contains_key(c) {
                a.main.channel_voice[c]
            } else {
                Seq::empty()
            };
            &&& b.main.channel_voice.contains_key(c)
            &&& b.main.channel_voice[c] == if participant_ids(before).contains(v.user_id) {
                before
            } else {
                before.push(v)
            }
            &&& forall|d: i64|
                d != c ==> #[trigger] b.main.channel_voice.contains_key(d)
                    == a.main.channel_voice.contains_key(d) && (a.main.channel_voice.contains_key(d)
                    ==> b.main.channel_voice[d] == a.main.channel_voice[d])
        },
{
    names_of_kinds();
    first_row(
        a.main.voice.participants,
        participant_ids(a.main.voice.participants),
        v.user_id,
    );
    if let Some(c) = v.channel_id {
        let before = if a.main.channel_voice.contains_key(c) {
            a.main.channel_voice[c]
        } else {
            Seq::empty()
        };
        first_row(before, participant_ids(before), v.user_id);
    }
}

/// The volume of a user: the first that was saved under the user's id, else full.
pub open spec fn is_volume_for(list: Seq<state::SavedVolume>, user_id: i64, volume: u32) -> bool {
    let id = text::decimal_int(user_id as int);
    ||| exists|i: int|
        0 <= i < list.len() && (#[trigger] list[i]).user@ == id && list[i].volume == volume
            && forall|j: int| 0 <= j < i ==> (#[trigger] list[j]).user@ != id
    ||| volume == 0x3f80_0000 && forall|j: int|
        0 <= j < list.len() ==> (#[trigger] list[j]).user@ != id
}

proof fn saved_volume_is_first(list: Seq<state::SavedVolume>, user_id: i64)
    ensures
        is_volume_for(list, user_id, state::volume_of(list, user_id)),
{
    let id = text::decimal_int(user_id as int);
    saved_index_is_first(list, id);
}

proof fn saved_index_is_first(list: Seq<state::SavedVolume>, id: Seq<char>)
    ensures
        0 <= state::saved_index(list, id) <= list.len(),
        state::saved_index(list, id) < list.len() ==> list[state::saved_index(list, id)].user@
            == id,
        forall|j: int| 0 <= j < state::saved_index(list, id) ==> (#[trigger] list[j]).user@ != id,
    decreases list.len(),
{
    if list.len() > 0 && list[0].user@ != id {
        let rest = list.drop_first();
        saved_index_is_first(rest, id);
        assert forall|j: int| 0 <= j < state::saved_index(list, id) implies (
        #[trigger] list[j]).user@ != id by {
            if j > 0 {
                assert(list[j] == rest[j - 1]);
            }
        }
    }
}

/// Who comes into voice is heard as was saved for that person: with the volumes that
/// were saved, full where none was, and denoised exactly where the settings list the
/// person. The voice engine, where there is one, is told all three. Nobody else's
/// settings change.
pub proof fn saved_settings_come_into_force(a: AppView, b: AppView, ev: WsEvent, now: u64, p: Payload, v: VoiceParticipant)
    requires
        after_event(a, b, ev, now),
        ev.kind@ == "voice.participant_joined"@,
        ev.payload == Some(p),
        p.decoded.participant == Some(v),
    ensures
        b.main.voice.local_volumes.contains_key(v.user_id),
        b.main.voice.stream_volumes.contains_key(v.user_id),
        is_volume_for(
            a.settings.voice_volume_by_user@,
            v.user_id,
            b.main.voice.local_volumes[v.user_id],
        ),
        is_volume_for(
            a.settings.stream_volume_by_user@,
            v.user_id,
            b.main.voice.stream_volumes[v.user_id],
        ),
        b.main.voice.receiver_denoise_users.contains(v.user_id) <==> exists|i: int|
            0 <= i < a.settings.receiver_denoise_by_user@.len() && (
            #[trigger] a.settings.receiver_denoise_by_user@[i])@ == text::decimal_int(
                v.user_id as int,
            ),
        b.voice_cmds == if a.voice_engine {
            a.voice_cmds + seq![
                VoiceCmd::SetUserVolume(v.user_id, b.main.voice.local_volumes[v.user_id]),
                VoiceCmd::SetStreamVolume(v.user_id, b.main.voice.stream_volumes[v.user_id]),
                VoiceCmd::SetRemoteVoiceDenoise {
                    user_id: v.user_id,
                    enabled: b.main.voice.receiver_denoise_users.contains(v.user_id),
                },
            ]
        } else {
            a.voice_cmds
        },
        forall|u: i64|
            u != v.user_id ==> {
                &&& #[trigger] b.main.voice.receiver_denoise_users.contains(u)
                    == a.main.voice.receiver_denoise_users.contains(u)
                &&& b.main.voice.local_volumes.contains_key(u)
                    == a.main.voice.local_volumes.contains_key(u)
                &&& a.main.voice.local_volumes.contains_key(u) ==> b.main.voice.local_volumes[u]
                    == a.main.voice.local_volumes[u]
                &&& b.main.voice.stream_volumes.contains_key(u)
                    == a.main.voice.stream_volumes.contains_key(u)
                &&& a.main.voice.stream_volumes.contains_key(u) ==> b.main.voice.stream_volumes[u]
                    == a.main.voice.stream_volumes[u]
            },
        b == (AppView {
            repaint: true,
            voice_cmds: b.voice_cmds,
            main: MainView {
                channel_voice: b.main.channel_voice,
                voice: VoiceView {
                    participants: b.main.voice.participants,
                    local_volumes: b.main.voice.local_volumes,
                    stream_volumes: b.main.voice.stream_volumes,
                    receiver_denoise_users: b.main.voice.receiver_denoise_users,
                    ..a.main.voice
                },
                ..a.main
            },
            ..a
        }),
{
    names_of_kinds();
    saved_volume_is_first(a.settings.voice_volume_by_user@, v.user_id);
    saved_volume_is_first(a.settings.stream_volume_by_user@, v.user_id);
}

/// Who leaves voice is gone from the channel that was left and from the session, and
/// with the person everything of the session that was the person's. Nobody else is
/// touched, and the session goes on, unless it is oneself who left its channel: then it
/// is over.
pub proof fn leaving_voice(a: AppView, b: AppView, ev: WsEvent, now: u64, p: Payload, user_id: i64)
    requires
        after_event(a, b, ev, now),
        ev.kind@ == "voice.participant_left"@,
        ev.payload == Some(p),
        p.fields.user_id == Some(user_id),
    ensures
        match p.fields.channel_id {
            Some(c) => {
                &&& b.main.channel_voice.dom() == a.main.channel_voice.dom()
                &&& a.main.channel_voice.contains_key(c) ==> b.main.channel_voice[c]
                    == a.main.channel_voice[c].filter(|v: VoiceParticipant| v.user_id != user_id)
                &&& forall|d: i64|
                    d != c && a.main.channel_voice.contains_key(d)
                        ==> #[trigger] b.main.channel_voice[d] == a.main.channel_voice[d]
            },
            None => b.main.channel_voice == a.main.channel_voice,
        },
        if a.user_id == Some(user_id) && (p.fields.channel_id is None || p.fields.channel_id
            == a.main.voice.channel_id) {
            &&& b.main.voice.channel_id is None
            &&& b.main.voice.server_id is None
            &&& b.main.voice.participants.len() == 0
        } else {
            &&& b.main.voice.channel_id == a.main.voice.channel_id
            &&& b.main.voice.server_id == a.main.voice.server_id
            &&& b.main.voice.participants == a.main.voice.participants.filter(
                |v: VoiceParticipant| v.user_id != user_id,
            )
        },
        forall|u: i64|
            #![trigger b.main.voice.locally_muted.contains(u)]
            #![trigger b.main.voice.stream_muted.contains(u)]
            #![trigger b.main.voice.stream_subscriptions.contains(u)]
            {
                &&& b.main.voice.locally_muted.contains(u) <==> u != user_id
                    && a.main.voice.locally_muted.contains(u)
                &&& b.main.voice.stream_muted.contains(u) <==> u != user_id
                    && a.main.voice.stream_muted.contains(u)
                &&& b.main.voice.stream_subscriptions.contains(u) <==> u != user_id
                    && a.main.voice.stream_subscriptions.contains(u)
            },
        b.main.fullscreen_stream_user == if a.main.fullscreen_stream_user == Some(user_id) {
            None
        } else {
            a.main.fullscreen_stream_user
        },
        forall|k: i64|
            #![trigger b.main.voice_video_textures.contains(k)]
            #![trigger b.main.voice_video_gpu_textures.contains_key(k)]
            #![trigger b.main.voice_render_fps.contains(k)]
            {
                &&& b.main.voice_video_textures.contains(k) <==> k != p.video_keys.stream && k
                    != p.video_keys.preview && a.main.voice_video_textures.contains(k)
                &&& b.main.voice_video_gpu_textures.contains_key(k) <==> k != p.video_keys.stream
                    && k != p.video_keys.preview && a.main.voice_video_gpu_textures.contains_key(k)
                &&& b.main.voice_video_gpu_textures.contains_key(k)
                    ==> b.main.voice_video_gpu_textures[k] == a.main.voice_video_gpu_textures[k]
                &&& b.main.voice_render_fps.contains(k) <==> k != p.video_keys.stream
                    && a.main.voice_render_fps.contains(k)
            },
        b == (AppView {
            repaint: true,
            main: MainView {
                channel_voice: b.main.channel_voice,
                voice: VoiceView {
                    channel_id: b.main.voice.channel_id,
                    server_id: b.main.voice.server_id,
                    participants: b.main.voice.participants,
                    locally_muted: b.main.voice.locally_muted,
                    stream_muted: b.main.voice.stream_muted,
                    stream_subscriptions: b.main.voice.stream_subscriptions,
                    ..a.main.voice
                },
                voice_video_textures: b.main.voice_video_textures,
                voice_video_gpu_textures: b.main.voice_video_gpu_textures,
                voice_video_gpu_tex_pending_delete: b.main.voice_video_gpu_tex_pending_delete,
                voice_render_fps: b.main.voice_render_fps,
                fullscreen_stream_user: b.main.fullscreen_stream_user,
                ..a.main
            },
            ..a
        }),
{
    names_of_kinds();
    rows_left(a.main.voice.participants, user_id);
    assert((|x: VoiceParticipant| x.key() != user_id) =~= (|v: VoiceParticipant|
        v.user_id != user_id));
    if let Some(c) = p.fields.channel_id {
        if a.main.channel_voice.contains_key(c) {
            rows_left(a.main.channel_voice[c], user_id);
        }
        assert(b.main.channel_voice.dom() =~= a.main.channel_voice.dom());
    }
}

/// No texture of the person who leaves is lost or deleted twice: each one that goes from
/// the table stands once more among those to delete, and no other does.
pub proof fn textures_are_deleted_once(a: AppView, b: AppView, ev: WsEvent, now: u64, p: Payload, user_id: i64)
    requires
        after_event(a, b, ev, now),
        ev.kind@ == "voice.participant_left"@,
        ev.payload == Some(p),
        p.fields.user_id == Some(user_id),
        p.video_keys.stream != p.video_keys.preview,
    ensures
        a.main.voice_video_gpu_tex_pending_delete.len() <= b.main.voice_video_gpu_tex_pending_delete.len(),
        b.main.voice_video_gpu_tex_pending_delete.take(
            a.main.voice_video_gpu_tex_pending_delete.len() as int,
        ) == a.main.voice_video_gpu_tex_pending_delete,
        ({
            let gone = b.main.voice_video_gpu_tex_pending_delete.skip(
                a.main.voice_video_gpu_tex_pending_delete.len() as int,
            );
            let t = a.main.voice_video_gpu_textures;
            let (s, q) = (p.video_keys.stream, p.video_keys.preview);
            &&& gone.len() == (if t.contains_key(s) {
                1int
            } else {
                0
            }) + (if t.contains_key(q) {
                1int
            } else {
                0
            })
            &&& t.contains_key(s) ==> gone[0] == t[s]
            &&& t.contains_key(q) ==> gone[gone.len() - 1] == t[q]
        }),
{
    names_of_kinds();
    let before = a.main.voice_video_gpu_tex_pending_delete;
    let after = b.main.voice_video_gpu_tex_pending_delete;
    assert(after.take(before.len() as int) =~= before);
}

/// An event on someone's flags in voice sets those that it gives, of the person's first
/// entry in the session and in the channel that it names, and no others.
pub proof fn voice_flags_change(a: AppView, b: AppView, ev: WsEvent, now: u64, p: Payload, user_id: i64)
    requires
        after_event(a, b, ev, now),
        ev.kind@ == "voice.state_update"@,
        ev.payload == Some(p),
        p.fields.user_id == Some(user_id),
    ensures
        forall|i: int| #![trigger b.main.voice.participants[i]]
            0 <= i < a.main.voice.participants.len() ==> flags_set(
                a.main.voice.participants[i],
                b.main.voice.participants[i],
                p,
                first_at(participant_ids(a.main.voice.participants), user_id, i),
            ),
        a.main.voice.participants.len() == b.main.voice.participants.len(),
        b.main.channel_voice.dom() == a.main.channel_voice.dom(),
        forall|c: i64| #![trigger b.main.channel_voice[c]]
            a.main.channel_voice.contains_key(c) ==> {
                let (x, y) = (a.main.channel_voice[c], b.main.channel_voice[c]);
                &&& x.len() == y.len()
                &&& p.fields.channel_id != Some(c) ==> x == y
                &&& p.fields.channel_id == Some(c) ==> forall|i: int| #![trigger y[i]]
                    0 <= i < x.len() ==> flags_set(
                        x[i],
                        y[i],
                        p,
                        first_at(participant_ids(x), user_id, i),
                    )
            },
        b == (AppView {
            repaint: true,
            main: MainView {
                channel_voice: b.main.channel_voice,
                voice: VoiceView {
                    participants: b.main.voice.participants,
                    stream_muted: b.main.voice.stream_muted,
                    stream_subscriptions: b.main.voice.stream_subscriptions,
                    ..a.main.voice
                },
                fullscreen_stream_user: b.main.fullscreen_stream_user,
                ..a.main
            },
            ..a
        }),
{
    names_of_kinds();
    first_row(
        a.main.voice.participants,
        participant_ids(a.main.voice.participants),
        user_id,
    );
    if let Some(c) = p.fields.channel_id {
        if a.main.channel_voice.contains_key(c) {
            first_row(
                a.main.channel_voice[c],
                participant_ids(a.main.channel_voice[c]),
                user_id,
            );
        }
        assert(b.main.channel_voice.dom() =~= a.main.channel_voice.dom());
    }
}

/// `y` is `x` with the flags that the payload gives where `here`, else `x`.
pub open spec fn flags_set(x: VoiceParticipant, y: VoiceParticipant, p: Payload, here: bool) -> bool {
    if here {
        &&& y == VoiceParticipant {
            mic_muted: y.mic_muted,
            cam_enabled: y.cam_enabled,
            streaming: y.streaming,
            ..x
        }
        &&& p.fields.mic_muted is Some ==> y.mic_muted == p.fields.mic_muted->0
        &&& p.fields.mic_muted is None ==> y.mic_muted == x.mic_muted
        &&& p.fields.cam_enabled is Some ==> y.cam_enabled == p.fields.cam_enabled->0
        &&& p.fields.cam_enabled is None ==> y.cam_enabled == x.cam_enabled
        &&& p.fields.streaming is Some ==> y.streaming == p.fields.streaming->0
        &&& p.fields.streaming is None ==> y.streaming == x.streaming
    } else {
        y == x
    }
}

/// Where someone of the session is not streaming after an event on the person's flags,
/// the person's stream is neither watched nor muted nor on the full screen; where the
/// person is streaming, nothing of that changes. It never changes for anybody else.
pub proof fn stopped_streams_are_not_watched(a: AppView, b: AppView, ev: WsEvent, now: u64, p: Payload, user_id: i64, i: int)
    requires
        after_event(a, b, ev, now),
        ev.kind@ == "voice.state_update"@,
        ev.payload == Some(p),
        p.fields.user_id == Some(user_id),
        first_at(participant_ids(a.main.voice.participants), user_id, i),
    ensures
        !b.main.voice.participants[i].streaming ==> {
            &&& !b.main.voice.stream_muted.contains(user_id)
            &&& !b.main.voice.stream_subscriptions.contains(user_id)
            &&& b.main.fullscreen_stream_user != Some(user_id)
        },
        b.main.voice.participants[i].streaming ==> {
            &&& b.main.voice.stream_muted == a.main.voice.stream_muted
            &&& b.main.voice.stream_subscriptions == a.main.voice.stream_subscriptions
            &&& b.main.fullscreen_stream_user == a.main.fullscreen_stream_user
        },
        forall|u: i64|
            #![trigger b.main.voice.stream_muted.contains(u)]
            #![trigger b.main.voice.stream_subscriptions.contains(u)]
            u != user_id ==> b.main.voice.stream_muted.contains(u)
                == a.main.voice.stream_muted.contains(u)
                && b.main.voice.stream_subscriptions.contains(u)
                == a.main.voice.stream_subscriptions.contains(u),
        a.main.fullscreen_stream_user != Some(user_id) ==> b.main.fullscreen_stream_user
            == a.main.fullscreen_stream_user,
{
    names_of_kinds();
    first_row(
        a.main.voice.participants,
        participant_ids(a.main.voice.participants),
        user_id,
    );
}

/// The same of someone who is not in the session, but in the channel that the event
/// names; and of someone who is in neither, nothing changes.
pub proof fn stopped_streams_elsewhere(a: AppView, b: AppView, ev: WsEvent, now: u64, p: Payload, user_id: i64)
    requires
        after_event(a, b, ev, now),
        ev.kind@ == "voice.state_update"@,
        ev.payload == Some(p),
        p.fields.user_id == Some(user_id),
        !participant_ids(a.main.voice.participants).contains(user_id),
    ensures
        match p.fields.channel_id {
            Some(c) => {
                let x = a.main.channel_voice[c];
                a.main.channel_voice.contains_key(c) && participant_ids(x).contains(user_id) ==> {
                    forall|i: int| #[trigger]
                        first_at(participant_ids(x), user_id, i) ==> {
                            &&& !b.main.channel_voice[c][i].streaming ==> {
                                &&& !b.main.voice.stream_muted.contains(user_id)
                                &&& !b.main.voice.stream_subscriptions.contains(user_id)
                                &&& b.main.fullscreen_stream_user != Some(user_id)
                            }
                            &&& b.main.channel_voice[c][i].streaming ==> {
                                &&& b.main.voice == a.main.voice
                                &&& b.main.fullscreen_stream_user == a.main.fullscreen_stream_user
                            }
                        }
                }
            },
            None => b.main == a.main,
        },
        p.fields.channel_id is Some && !a.main.channel_voice.contains_key(p.fields.channel_id->0)
            ==> b.main == a.main,
        p.fields.channel_id is Some && a.main.channel_voice.contains_key(p.fields.channel_id->0)
            && !participant_ids(a.main.channel_voice[p.fields.channel_id->0]).contains(user_id)
            ==> b.main.voice == a.main.voice && b.main.fullscreen_stream_user
            == a.main.fullscreen_stream_user,
{
    names_of_kinds();
    first_row(
        a.main.voice.participants,
        participant_ids(a.main.voice.participants),
        user_id,
    );
    if let Some(c) = p.fields.channel_id {
        if a.main.channel_voice.contains_key(c) {
            first_row(
                a.main.channel_voice[c],
                participant_ids(a.main.channel_voice[c]),
                user_id,
            );
        } else {
            let nobody = Seq::<VoiceParticipant>::empty();
            first_row(nobody, participant_ids(nobody), user_id);
        }
    } else {
        let nobody = Seq::<VoiceParticipant>::empty();
        first_row(nobody, participant_ids(nobody), user_id);
    }
    assert(b.main.voice =~= b.main.voice);
}

/// A server that is gone is no longer listed. Where it was the selected one, nothing is
/// selected, and its channels, members and messages are gone; else they stay.
pub proof fn deleted_servers(a: AppView, b: AppView, ev: WsEvent, now: u64, p: Payload, id: i64)
    requires
        after_event(a, b, ev, now),
        ev.kind@ == "server.deleted"@,
        ev.payload == Some(p),
        p.fields.server_id == Some(id),
    ensures
        b.main.servers == a.main.servers.filter(|s: Server| s.id != id),
        if a.main.selected_server == Some(id) {
            &&& b.main.selected_server is None
            &&& b.main.selected_channel is None
            &&& b.main.channels.len() == 0
            &&& b.main.server_members.len() == 0
            &&& b.main.messages.len() == 0
        } else {
            &&& b.main.selected_server == a.main.selected_server
            &&& b.main.selected_channel == a.main.selected_channel
            &&& b.main.channels == a.main.channels
            &&& b.main.server_members == a.main.server_members
            &&& b.main.messages == a.main.messages
        },
        b == (AppView {
            repaint: true,
            main: MainView {
                servers: b.main.servers,
                selected_server: b.main.selected_server,
                selected_channel: b.main.selected_channel,
                channels: b.main.channels,
                server_members: b.main.server_members,
                messages: b.main.messages,
                ..a.main
            },
            ..a
        }),
{
    names_of_kinds();
    rows_left(a.main.servers, id);
    assert((|x: Server| x.key() != id) =~= (|s: Server| s.id != id));
}

/// A changed server gets its new name, and its new owner where the event gives a whole
/// server; where it gives an id and a name only, the owner stays.
pub proof fn changed_servers(a: AppView, b: AppView, ev: WsEvent, now: u64, p: Payload)
    requires
        after_event(a, b, ev, now),
        ev.kind@ == "server.updated"@,
        ev.payload == Some(p),
    ensures
        p.decoded.server is Some ==> {
            let srv = p.decoded.server->0;
            changed_first(
                a.main.servers,
                b.main.servers,
                server_ids(a.main.servers),
                srv.id,
                |old: Server| Server { name: srv.name, owner_id: srv.owner_id, ..old },
            )
        },
        p.decoded.server is None && p.fields.server_ref is Some && p.fields.name is Some
            ==> changed_first(
            a.main.servers,
            b.main.servers,
            server_ids(a.main.servers),
            p.fields.server_ref->0,
            |old: Server| Server { name: p.fields.name->0, ..old },
        ),
        p.decoded.server is None && (p.fields.server_ref is None || p.fields.name is None)
            ==> b.main.servers == a.main.servers,
        b == (AppView {
            repaint: true,
            main: MainView {
                servers: b.main.servers,
                ..a.main
            },
            ..a
        }),
{
    names_of_kinds();
    if let Some(srv) = p.decoded.server {
        first_row(a.main.servers, server_ids(a.main.servers), srv.id);
    }
    if let Some(id) = p.fields.server_ref {
        first_row(a.main.servers, server_ids(a.main.servers), id);
    }
}

/// A server that was joined goes to the end of the servers, once. Where the event gives
/// no whole server, it is made of the id and the name, with no owner where none is given.
pub proof fn added_servers(a: AppView, b: AppView, ev: WsEvent, now: u64, p: Payload)
    requires
        after_event(a, b, ev, now),
        ev.kind@ == "server.added"@,
        ev.payload == Some(p),
    ensures
        p.decoded.server is Some ==> b.main.servers == if server_ids(a.main.servers).contains(
            p.decoded.server->0.id,
        ) {
            a.main.servers
        } else {
            a.main.servers.push(p.decoded.server->0)
        },
        p.decoded.server is None && p.fields.server_ref is Some && p.fields.name is Some ==> {
            let id = p.fields.server_ref->0;
            b.main.servers == if server_ids(a.main.servers).contains(id) {
                a.main.servers
            } else {
                a.main.servers.push(
                    Server {
                        id,
                        name: p.fields.name->0,
                        owner_id: if p.fields.owner_id is Some {
                            p.fields.owner_id->0
                        } else {
                            0
                        },
                    },
                )
            }
        },
        p.decoded.server is None && (p.fields.server_ref is None || p.fields.name is None)
            ==> b.main.servers == a.main.servers,
        b == (AppView {
            repaint: true,
            main: MainView {
                servers: b.main.servers,
                ..a.main
            },
            ..a
        }),
{
    names_of_kinds();
    if let Some(srv) = p.decoded.server {
        first_row(a.main.servers, server_ids(a.main.servers), srv.id);
    }
    if let Some(id) = p.fields.server_ref {
        first_row(a.main.servers, server_ids(a.main.servers), id);
    }
}

proof fn ids_left(s: Seq<i64>, k: i64)
    ensures
        rows::ids_without(s, k) == s.filter(|x: i64| x != k),
    decreases s.len(),
{
    reveal(Seq::filter);
    if s.len() > 0 {
        ids_left(s.drop_last(), k);
    }
}

/// A user's new name is shown among the members and with every message that the user
/// wrote, and with no other; where the avatar changed, and only there, what is known of
/// it is forgotten, so that it is fetched anew.
pub proof fn changed_users(a: AppView, b: AppView, ev: WsEvent, now: u64, p: Payload, user_id: i64)
    requires
        after_event(a, b, ev, now),
        ev.kind@ == "user.updated"@,
        ev.payload == Some(p),
        p.fields.user_ref == Some(user_id),
    ensures
        p.fields.username is Some ==> {
            let name = p.fields.username->0;
            &&& changed_first(
                a.main.server_members,
                b.main.server_members,
                member_ids(a.main.server_members),
                user_id,
                |old: Member| Member { username: name, ..old },
            )
            &&& b.main.messages.len() == a.main.messages.len()
            &&& forall|i: int| #![trigger b.main.messages[i]]
                0 <= i < a.main.messages.len() ==> b.main.messages[i]
                    == if a.main.messages[i].author_id == user_id {
                    Message { author_username: name, ..a.main.messages[i] }
                } else {
                    a.main.messages[i]
                }
        },
        p.fields.username is None ==> b.main == a.main,
        p.fields.avatar_changed == Some(true) ==> {
            &&& b.avatar_textures == a.avatar_textures.remove(user_id)
            &&& b.avatar_failed == a.avatar_failed.remove(user_id)
            &&& b.avatar_pending == a.avatar_pending.filter(|u: i64| u != user_id)
        },
        p.fields.avatar_changed != Some(true) ==> b.avatar_textures == a.avatar_textures
            && b.avatar_failed == a.avatar_failed && b.avatar_pending == a.avatar_pending,
        b == (AppView {
            repaint: true,
            avatar_textures: b.avatar_textures,
            avatar_failed: b.avatar_failed,
            avatar_pending: b.avatar_pending,
            main: MainView {
                server_members: b.main.server_members,
                messages: b.main.messages,
                ..a.main
            },
            ..a
        }),
{
    names_of_kinds();
    first_row(a.main.server_members, member_ids(a.main.server_members), user_id);
    ids_left(a.avatar_pending, user_id);
}

/// Reading a channel marks its messages, where they are loaded, as seen by the reader:
/// all but the reader's own, each once, after those who saw it before. One's own channel
/// is unread no longer; somebody else's reading leaves that as it was.
pub proof fn reading_is_noted(a: AppView, b: AppView, ev: WsEvent, now: u64, p: Payload, reader: i64, channel: i64)
    requires
        after_event(a, b, ev, now),
        ev.kind@ == "messages.read"@,
        ev.payload == Some(p),
        p.fields.reader_id == Some(reader),
        p.fields.channel_id == Some(channel),
    ensures
        forall|c: i64| #[trigger]
            b.main.unread_channels.contains(c) <==> a.main.unread_channels.contains(c) && !(c
                == channel && a.user_id == Some(reader)),
        b.main.messages.len() == a.main.messages.len(),
        forall|i: int| #![trigger b.main.messages[i]]
            0 <= i < a.main.messages.len() ==> {
                let (x, y) = (a.main.messages[i], b.main.messages[i]);
                &&& y == Message { seen_by: y.seen_by, ..x }
                &&& y.seen_by@ == if a.main.messages_load_for == Some(channel) && x.author_id
                    != reader && !x.seen_by@.contains(reader) {
                    x.seen_by@.push(reader)
                } else {
                    x.seen_by@
                }
            },
        b == (AppView {
            repaint: true,
            main: MainView {
                unread_channels: b.main.unread_channels,
                messages: b.main.messages,
                ..a.main
            },
            ..a
        }),
{
    names_of_kinds();
    assert forall|i: int| #![trigger b.main.messages[i]] 0 <= i < a.main.messages.len() implies {
        let (x, y) = (a.main.messages[i], b.main.messages[i]);
        &&& y == Message { seen_by: y.seen_by, ..x }
        &&& y.seen_by@ == if a.main.messages_load_for == Some(channel) && x.author_id != reader
            && !x.seen_by@.contains(reader) {
            x.seen_by@.push(reader)
        } else {
            x.seen_by@
        }
    } by {
        if a.main.messages_load_for == Some(channel) {
            assert(crate::ws_events::message_seen(
                a.main.messages[i],
                b.main.messages[i],
                reader,
            ));
        }
    }
}

} // verus!
