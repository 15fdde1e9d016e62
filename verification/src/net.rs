//! What the server sends: rooms, people, messages, and the push events that
//! change them.
use vstd::prelude::*;

use crate::rows::Keyed;

verus! {

/// A file attached to a message.
#[derive(Debug, Clone, PartialEq, Eq)]
pub struct AttachmentMeta {
    pub media_id: i64,
    pub filename: String,
    pub mime_type: String,
    pub size_bytes: i64,
}

/// A chat message.
#[derive(Debug, Clone, PartialEq, Eq)]
pub struct Message {
    pub id: i64,
    pub channel_id: i64,
    pub author_id: i64,
    pub author_username: String,
    pub content: String,
    pub created_at: String,
    pub seen_by: Vec<i64>,
    pub attachments: Vec<AttachmentMeta>,
}

/// A text or voice channel of a server.
#[derive(Debug, Clone, PartialEq, Eq)]
pub struct Channel {
    pub id: i64,
    pub server_id: i64,
    pub name: String,
    pub kind: String,
}

/// A member of a server.
#[derive(Debug, Clone, PartialEq, Eq)]
pub struct Member {
    pub user_id: i64,
    pub username: String,
    pub display_name: String,
    pub is_owner: bool,
}

/// A server that the user belongs to.
#[derive(Debug, Clone, PartialEq, Eq)]
pub struct Server {
    pub id: i64,
    pub name: String,
    pub owner_id: i64,
}

/// A person in a voice channel.
#[derive(Debug, Clone, PartialEq, Eq)]
pub struct VoiceParticipant {
    pub user_id: i64,
    pub username: String,
    pub channel_id: Option<i64>,
    pub mic_muted: bool,
    pub deafened: bool,
    pub cam_enabled: bool,
    pub streaming: bool,
}

impl VoiceParticipant {
    /// Another participant with the same fields.
    pub fn duplicate(&self) -> (r: VoiceParticipant)
        ensures
            r == *self,
    {
        VoiceParticipant {
            user_id: self.user_id,
            username: self.username.clone(),
            channel_id: self.channel_id,
            mic_muted: self.mic_muted,
            deafened: self.deafened,
            cam_enabled: self.cam_enabled,
            streaming: self.streaming,
        }
    }
}

impl Keyed for Message {
    open spec fn key(&self) -> i64 {
        self.id
    }

    fn read_key(&self) -> i64 {
        self.id
    }
}

impl Keyed for Channel {
    open spec fn key(&self) -> i64 {
        self.id
    }

    fn read_key(&self) -> i64 {
        self.id
    }
}

impl Keyed for Member {
    open spec fn key(&self) -> i64 {
        self.user_id
    }

    fn read_key(&self) -> i64 {
        self.user_id
    }
}

impl Keyed for Server {
    open spec fn key(&self) -> i64 {
        self.id
    }

    fn read_key(&self) -> i64 {
        self.id
    }
}

impl Keyed for VoiceParticipant {
    open spec fn key(&self) -> i64 {
        self.user_id
    }

    fn read_key(&self) -> i64 {
        self.user_id
    }
}

/// A JSON value as `serde_json` holds it.
#[verifier::external_type_specification]
#[verifier::external_body]
pub struct ExJsonValue(serde_json::Value);

/// The fields of a JSON object, empty for any other value. A field is given by
/// what it reads as: an integer in the range of `i64`, a boolean, a string, and
/// an array, the last by what each item reads as an integer.
pub uninterp spec fn object_fields(v: serde_json::Value) -> Map<
    Seq<char>,
    (Option<i64>, Option<bool>, Option<Seq<char>>, Option<Seq<Option<i64>>>),
>;

/// `serde_json::Value::get` with a string key, then `Value::as_i64`: `None`
/// where the value is no object or lacks the key, else what the field reads as
/// an integer.
#[verifier::external_body]
fn field_i64(v: &serde_json::Value, key: &str) -> (r: Option<Option<i64>>)
    ensures
        match r {
            Some(n) => object_fields(*v).contains_key(key@) && object_fields(*v)[key@].0 == n,
            None => !object_fields(*v).contains_key(key@),
        },
{
    v.get(key).map(|field| field.as_i64())
}

/// `serde_json::Value::get` with a string key, then `Value::as_bool`: `None`
/// where the value is no object or lacks the key, else what the field reads as
/// a boolean.
#[verifier::external_body]
fn field_bool(v: &serde_json::Value, key: &str) -> (r: Option<Option<bool>>)
    ensures
        match r {
            Some(b) => object_fields(*v).contains_key(key@) && object_fields(*v)[key@].1 == b,
            None => !object_fields(*v).contains_key(key@),
        },
{
    v.get(key).map(|field| field.as_bool())
}

/// `serde_json::Value::get` with a string key, then `Value::as_str`: `None`
/// where the value is no object or lacks the key, else what the field reads as
/// a string.
#[verifier::external_body]
fn field_str(v: &serde_json::Value, key: &str) -> (r: Option<Option<String>>)
    ensures
        match r {
            Some(s) => object_fields(*v).contains_key(key@) && object_fields(*v)[key@].2
                == opt_text(s),
            None => !object_fields(*v).contains_key(key@),
        },
{
    v.get(key).map(|field| field.as_str().map(|s| s.to_string()))
}

/// `serde_json::Value::get` with a string key, then `Value::as_array`, then
/// `Value::as_i64` of each item: `None` where the value is no object or lacks
/// the key, else what the field reads as an array.
#[verifier::external_body]
fn field_array(v: &serde_json::Value, key: &str) -> (r: Option<Option<Vec<Option<i64>>>>)
    ensures
        match r {
            Some(Some(items)) => object_fields(*v).contains_key(key@) && object_fields(*v)[key@].3
                == Some(items@),
            Some(None) => object_fields(*v).contains_key(key@) && object_fields(*v)[key@].3 is None,
            None => !object_fields(*v).contains_key(key@),
        },
{
    v.get(key).map(
        |field| field.as_array().map(|items| items.iter().map(|item| item.as_i64()).collect()),
    )
}

/// A text that may be absent, by its characters.
pub open spec fn opt_text(s: Option<String>) -> Option<Seq<char>> {
    match s {
        Some(t) => Some(t@),
        None => None,
    }
}

/// The integer under `key`, if the field is there and is one.
pub open spec fn int_at(v: serde_json::Value, key: Seq<char>) -> Option<i64> {
    if object_fields(v).contains_key(key) {
        object_fields(v)[key].0
    } else {
        None
    }
}

/// The integer under `first`, or under `second` where the object has no field
/// `first` at all.
pub open spec fn int_at_either(
    v: serde_json::Value,
    first: Seq<char>,
    second: Seq<char>,
) -> Option<i64> {
    if object_fields(v).contains_key(first) {
        object_fields(v)[first].0
    } else {
        int_at(v, second)
    }
}

/// The boolean under `key`, if the field is there and is one.
pub open spec fn bool_at(v: serde_json::Value, key: Seq<char>) -> Option<bool> {
    if object_fields(v).contains_key(key) {
        object_fields(v)[key].1
    } else {
        None
    }
}

/// The string under `key`, if the field is there and is one.
pub open spec fn text_at(v: serde_json::Value, key: Seq<char>) -> Option<Seq<char>> {
    if object_fields(v).contains_key(key) {
        object_fields(v)[key].2
    } else {
        None
    }
}

/// The integers among `items`, in order.
pub open spec fn present(items: Seq<Option<i64>>) -> Seq<i64>
    decreases items.len(),
{
    if items.len() == 0 {
        Seq::empty()
    } else {
        match items.last() {
            Some(n) => present(items.drop_last()).push(n),
            None => present(items.drop_last()),
        }
    }
}

/// The integers of the array under `key`, if the field is there and is one.
pub open spec fn ints_at(v: serde_json::Value, key: Seq<char>) -> Option<Seq<i64>> {
    if object_fields(v).contains_key(key) {
        match object_fields(v)[key].3 {
            Some(items) => Some(present(items)),
            None => None,
        }
    } else {
        None
    }
}

fn read_i64(v: &serde_json::Value, key: &str) -> (r: Option<i64>)
    ensures
        r == int_at(*v, key@),
{
    match field_i64(v, key) {
        Some(n) => n,
        None => None,
    }
}

fn read_i64_either(v: &serde_json::Value, first: &str, second: &str) -> (r: Option<i64>)
    ensures
        r == int_at_either(*v, first@, second@),
{
    match field_i64(v, first) {
        Some(n) => n,
        None => read_i64(v, second),
    }
}

fn read_bool(v: &serde_json::Value, key: &str) -> (r: Option<bool>)
    ensures
        r == bool_at(*v, key@),
{
    match field_bool(v, key) {
        Some(b) => b,
        None => None,
    }
}

fn read_str(v: &serde_json::Value, key: &str) -> (r: Option<String>)
    ensures
        opt_text(r) == text_at(*v, key@),
{
    match field_str(v, key) {
        Some(s) => s,
        None => None,
    }
}

fn read_ints(v: &serde_json::Value, key: &str) -> (r: Option<Vec<i64>>)
    ensures
        match r {
            Some(ids) => ints_at(*v, key@) == Some(ids@),
            None => ints_at(*v, key@) is None,
        },
{
    match field_array(v, key) {
        Some(Some(items)) => Some(present_ints(&items)),
        _ => None,
    }
}

/// The integers among `items`, in order.
pub fn present_ints(items: &Vec<Option<i64>>) -> (ids: Vec<i64>)
    ensures
        ids@ == present(items@),
{
    let mut ids: Vec<i64> = Vec::new();
    let mut i: usize = 0;
    while i < items.len()
        invariant
            i <= items@.len(),
            ids@ == present(items@.take(i as int)),
        decreases items@.len() - i,
    {
        assert(items@.take(i + 1).drop_last() =~= items@.take(i as int));
        if let Some(n) = items[i] {
            ids.push(n);
        }
        i += 1;
    }
    assert(items@.take(i as int) =~= items@);
    ids
}

/// The whole-object forms that a payload decodes to; `None` where it does not
/// decode to that form.
#[derive(Debug)]
pub struct Decoded {
    pub message: Option<Message>,
    pub channel: Option<Channel>,
    pub member: Option<Member>,
    pub participant: Option<VoiceParticipant>,
    pub server: Option<Server>,
}

/// The single fields that the event handlers read of a payload.
#[derive(Debug)]
pub struct PayloadFields {
    /// `id`, or `message_id` where there is no `id`.
    pub message_ref: Option<i64>,
    /// `id`, or `channel_id` where there is no `id`.
    pub channel_ref: Option<i64>,
    /// `server_id`, or `id` where there is no `server_id`.
    pub server_ref: Option<i64>,
    /// `user_id`, or `id` where there is no `user_id`.
    pub user_ref: Option<i64>,
    pub user_id: Option<i64>,
    pub channel_id: Option<i64>,
    pub server_id: Option<i64>,
    pub owner_id: Option<i64>,
    pub reader_id: Option<i64>,
    pub display_name: Option<String>,
    pub username: Option<String>,
    pub name: Option<String>,
    pub online: Option<bool>,
    pub mic_muted: Option<bool>,
    pub cam_enabled: Option<bool>,
    pub streaming: Option<bool>,
    pub avatar_changed: Option<bool>,
    pub online_user_ids: Option<Vec<i64>>,
}

/// The fields that the event handlers look at are those of `json`.
pub open spec fn fields_of(json: serde_json::Value, r: PayloadFields) -> bool {
    &&& r.message_ref == int_at_either(json, "id"@, "message_id"@)
    &&& r.channel_ref == int_at_either(json, "id"@, "channel_id"@)
    &&& r.server_ref == int_at_either(json, "server_id"@, "id"@)
    &&& r.user_ref == int_at_either(json, "user_id"@, "id"@)
    &&& r.user_id == int_at(json, "user_id"@)
    &&& r.channel_id == int_at(json, "channel_id"@)
    &&& r.server_id == int_at(json, "server_id"@)
    &&& r.owner_id == int_at(json, "owner_id"@)
    &&& r.reader_id == int_at(json, "reader_id"@)
    &&& opt_text(r.display_name) == text_at(json, "display_name"@)
    &&& opt_text(r.username) == text_at(json, "username"@)
    &&& opt_text(r.name) == text_at(json, "name"@)
    &&& r.online == bool_at(json, "online"@)
    &&& r.mic_muted == bool_at(json, "mic_muted"@)
    &&& r.cam_enabled == bool_at(json, "cam_enabled"@)
    &&& r.streaming == bool_at(json, "streaming"@)
    &&& r.avatar_changed == bool_at(json, "avatar_changed"@)
    &&& match r.online_user_ids {
        Some(ids) => ints_at(json, "online_user_ids"@) == Some(ids@),
        None => ints_at(json, "online_user_ids"@) is None,
    }
}

/// Reads the fields of a payload that the event handlers look at.
pub fn read_payload(json: &serde_json::Value) -> (r: PayloadFields)
    ensures
        fields_of(*json, r),
{
    PayloadFields {
        message_ref: read_i64_either(json, "id", "message_id"),
        channel_ref: read_i64_either(json, "id", "channel_id"),
        server_ref: read_i64_either(json, "server_id", "id"),
        user_ref: read_i64_either(json, "user_id", "id"),
        user_id: read_i64(json, "user_id"),
        channel_id: read_i64(json, "channel_id"),
        server_id: read_i64(json, "server_id"),
        owner_id: read_i64(json, "owner_id"),
        reader_id: read_i64(json, "reader_id"),
        display_name: read_str(json, "display_name"),
        username: read_str(json, "username"),
        name: read_str(json, "name"),
        online: read_bool(json, "online"),
        mic_muted: read_bool(json, "mic_muted"),
        cam_enabled: read_bool(json, "cam_enabled"),
        streaming: read_bool(json, "streaming"),
        avatar_changed: read_bool(json, "avatar_changed"),
        online_user_ids: read_ints(json, "online_user_ids"),
    }
}

/// The keys under which the video of a payload's user is kept: that of the
/// stream itself and that of its preview.
#[derive(Debug, Clone, Copy, PartialEq, Eq, Structural)]
pub struct VideoKeys {
    pub stream: i64,
    pub preview: i64,
}

/// A payload as the event handlers take it.
#[derive(Debug)]
pub struct Payload {
    pub fields: PayloadFields,
    pub decoded: Decoded,
    pub video_keys: VideoKeys,
}

/// An event pushed by the server.
#[derive(Debug)]
pub struct WsEvent {
    pub kind: String,
    pub server_id: i64,
    pub channel_id: i64,
    pub payload: Option<Payload>,
}

impl WsEvent {
    /// The event of a JSON payload. Beside it stand the forms that it decodes to
    /// and the keys of its user's video.
    pub fn from_json(
        kind: String,
        server_id: i64,
        channel_id: i64,
        json: Option<&serde_json::Value>,
        decoded: Decoded,
        video_keys: VideoKeys,
    ) -> (r: WsEvent)
        ensures
            r.kind == kind,
            r.server_id == server_id,
            r.channel_id == channel_id,
            match (json, r.payload) {
                (Some(j), Some(p)) => fields_of(*j, p.fields) && p.decoded == decoded
                    && p.video_keys == video_keys,
                (None, None) => true,
                _ => false,
            },
    {
        let payload: Option<Payload> = match json {
            Some(j) => Some(Payload { fields: read_payload(j), decoded, video_keys }),
            None => None,
        };
        WsEvent { kind, server_id, channel_id, payload }
    }
}

/// What a message to the server is about.
#[derive(Debug, Clone, Copy, PartialEq, Eq, Structural)]
pub enum ClientKind {
    ChannelView,
    Typing,
}

impl ClientKind {
    /// The kind's name in the protocol.
    pub fn wire_name(&self) -> (r: &'static str)
        ensures
            r@ == match *self {
                ClientKind::ChannelView => "channel.view"@,
                ClientKind::Typing => "typing"@,
            },
    {
        match self {
            ClientKind::ChannelView => "channel.view",
            ClientKind::Typing => "typing",
        }
    }
}

/// A message to the server, with the id of the last message that was read
/// where one is given.
#[derive(Debug, Clone, Copy, PartialEq, Eq, Structural)]
pub struct WsClientMsg {
    pub kind: ClientKind,
    pub channel_id: Option<i64>,
    pub last_message_id: Option<i64>,
}

} // verus!
