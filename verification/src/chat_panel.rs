//! What the chat shows: names, times, previews, sizes, rows, and what its
//! controls ask for. Drawing it is the caller's.
use vstd::prelude::*;
use vstd::utf8::{decode_utf8, encode_utf8, is_char_boundary};

use crate::net::{AttachmentMeta, Member, Message};
use crate::rows::{self, has_key, index_of};
use crate::state::TypingUser;
use crate::text;

verus! {

/// A message that a search found.
#[derive(Debug, Clone, PartialEq, Eq)]
pub struct ChatSearchResult {
    pub channel_id: i64,
    pub channel_name: String,
    pub message: Message,
}

/// What the chat's controls ask for.
#[derive(Debug, Clone, Copy, PartialEq, Eq, Structural)]
pub enum ChatPanelAction {
    SendMessage,
    AttachRequest,
    ClearAttachment,
    Threads,
    Notifications,
    Pinned,
    ToggleMemberList,
    Search,
    Inbox,
    Help,
    OpenSearchResult { channel_id: i64, message_id: i64 },
    StubGif,
    StubEmoji,
    StubStickers,
    RetryMessages,
}

/// The name under which a member is shown: the user name where the display name
/// is blank.
pub open spec fn shown_name(m: Member) -> Seq<char> {
    if text::trimmed(m.display_name@).len() == 0 {
        m.username@
    } else {
        m.display_name@
    }
}

/// The name under which a member is shown.
pub fn display_name_for_member(member: &Member) -> (r: String)
    ensures
        r@ == shown_name(*member),
{
    let trimmed = text::trim(member.display_name.as_str());
    if trimmed.as_str().is_empty() {
        member.username.clone()
    } else {
        member.display_name.clone()
    }
}

/// The name under which a message's author is shown: that of the member, or the
/// one that came with the message where the author is no member.
pub open spec fn author_name(message: Message, members: Seq<Member>) -> Seq<char> {
    if has_key(members, message.author_id) {
        shown_name(members[index_of(members, message.author_id)])
    } else {
        message.author_username@
    }
}

/// The name under which a message's author is shown.
pub fn resolve_message_author_name(message: &Message, server_members: &Vec<Member>) -> (r: String)
    ensures
        r@ == author_name(*message, server_members@),
{
    match rows::find(server_members, message.author_id) {
        Some(i) => display_name_for_member(&server_members[i]),
        None => message.author_username.clone(),
    }
}

/// Whether the bytes begin like a date and a time, `YYYY-MM-DDThh:mm`, as far as
/// the separators tell.
pub open spec fn dated(b: Seq<u8>) -> bool {
    &&& b.len() >= 16
    &&& b[4] == 0x2d
    &&& b[7] == 0x2d
    &&& b[10] == 0x54 || b[10] == 0x20
    &&& b[13] == 0x3a
}

/// The text of a range of bytes.
pub open spec fn range_text(b: Seq<u8>, from: int, to: int) -> Seq<char> {
    decode_utf8(b.subrange(from, to))
}

/// A time as it is shown: `DD.MM.YYYY hh:mm` where it begins like a date and a
/// time, else as it came, without white space at its ends.
pub open spec fn shown_time(created_at: Seq<char>) -> Seq<char> {
    let t = text::trimmed(created_at);
    let b = encode_utf8(t);
    if dated(b) {
        range_text(b, 8, 10) + "."@ + range_text(b, 5, 7) + "."@ + range_text(b, 0, 4) + " "@
            + range_text(b, 11, 13) + ":"@ + range_text(b, 14, 16)
    } else {
        t
    }
}

/// A time as it is shown. A character must not reach over the sixteenth byte of
/// one that begins like a date and a time.
pub fn format_message_timestamp(created_at: &str) -> (r: String)
    requires
        dated(encode_utf8(text::trimmed(created_at@))) ==> is_char_boundary(
            encode_utf8(text::trimmed(created_at@)),
            16,
        ),
    ensures
        r@ == shown_time(created_at@),
{
    let normalized = text::trim(created_at);
    let s = normalized.as_str();
    let b = s.as_bytes();
    if b.len() >= 16 && b[4] == 0x2d && b[7] == 0x2d && (b[10] == 0x54 || b[10] == 0x20) && b[13]
        == 0x3a {
        proof {
            vstd::utf8::encode_utf8_valid_utf8(s@);
            vstd::utf8::is_char_boundary_start_end_of_seq(b@);
            text::ascii_byte_bounds(b@, 4);
            text::ascii_byte_bounds(b@, 7);
            text::ascii_byte_bounds(b@, 10);
            text::ascii_byte_bounds(b@, 13);
        }
        let year = text::byte_range(s, 0, 4);
        let month = text::byte_range(s, 5, 7);
        let day = text::byte_range(s, 8, 10);
        let hour = text::byte_range(s, 11, 13);
        let minute = text::byte_range(s, 14, 16);
        let mut r = day;
        r.push_str(".");
        r.push_str(month.as_str());
        r.push_str(".");
        r.push_str(year.as_str());
        r.push_str(" ");
        r.push_str(hour.as_str());
        r.push_str(":");
        r.push_str(minute.as_str());
        return r;
    }
    normalized
}

/// The names of attached files.
pub open spec fn file_names(s: Seq<AttachmentMeta>) -> Seq<Seq<char>> {
    s.map_values(|a: AttachmentMeta| a.filename@)
}

/// What stands for a message where there is little room: its text, or the names
/// of its files, or that it is empty.
pub open spec fn preview(m: Message) -> Seq<char> {
    if text::trimmed(m.content@).len() > 0 {
        m.content@
    } else if m.attachments@.len() == 0 {
        "Пустое сообщение"@
    } else {
        text::joined(file_names(m.attachments@), ", "@)
    }
}

/// What stands for a message where there is little room.
pub fn message_preview_text(message: &Message) -> (r: String)
    ensures
        r@ == preview(*message),
{
    let trimmed = text::trim(message.content.as_str());
    if !trimmed.as_str().is_empty() {
        return message.content.clone();
    }
    if message.attachments.len() == 0 {
        return "Пустое сообщение".to_owned();
    }
    let mut names: Vec<String> = Vec::new();
    let mut i: usize = 0;
    while i < message.attachments.len()
        invariant
            i <= message.attachments@.len(),
            names@.len() == i,
            forall|k: int|
                0 <= k < i ==> #[trigger] names@[k]@ == message.attachments@[k].filename@,
        decreases message.attachments@.len() - i,
    {
        names.push(message.attachments[i].filename.clone());
        i += 1;
    }
    assert(text::texts(names@) =~= file_names(message.attachments@));
    text::join(&names, ", ")
}

/// The rows that a line takes, `per_row` characters to a row; an empty line takes
/// one.
pub open spec fn line_rows(len: int, per_row: int) -> int {
    if len == 0 {
        1
    } else {
        (len - 1) / per_row + 1
    }
}

/// The rows that lines take together.
pub open spec fn rows_of(lines: Seq<Seq<char>>, per_row: int) -> int
    decreases lines.len(),
{
    if lines.len() == 0 {
        0
    } else {
        rows_of(lines.drop_last(), per_row) + line_rows(lines.last().len() as int, per_row)
    }
}

/// The number of characters in pieces.
pub open spec fn chars_in(lines: Seq<Seq<char>>) -> int
    decreases lines.len(),
{
    if lines.len() == 0 {
        0
    } else {
        chars_in(lines.drop_last()) + lines.last().len()
    }
}

proof fn pieces_hold_all(s: Seq<char>, sep: char)
    ensures
        chars_in(text::pieces(s, sep)) + text::pieces(s, sep).len() == s.len() + 1,
        text::pieces(s, sep).len() > 0,
    decreases s.len(),
{
    let p = text::pieces(s, sep);
    if s.len() == 0 {
        assert(p.drop_last() =~= Seq::<Seq<char>>::empty());
        assert(chars_in(p.drop_last()) == 0);
    } else {
        let before = text::pieces(s.drop_last(), sep);
        pieces_hold_all(s.drop_last(), sep);
        if s.last() == sep {
            assert(p.drop_last() =~= before);
        } else {
            assert(p.drop_last() =~= before.drop_last());
        }
    }
}

proof fn line_rows_bounded(len: int, per_row: int)
    requires
        len >= 0,
        per_row > 0,
    ensures
        1 <= line_rows(len, per_row) <= len + 1,
{
    if len > 0 {
        assert(0 <= (len - 1) / per_row <= len - 1) by (nonlinear_arith)
            requires
                len > 0,
                per_row > 0,
        ;
    }
}

proof fn rows_bounded(lines: Seq<Seq<char>>, n: int, per_row: int)
    requires
        0 <= n <= lines.len(),
        per_row > 0,
    ensures
        n <= rows_of(lines.take(n), per_row) <= chars_in(lines.take(n)) + n,
        chars_in(lines.take(n)) + n <= chars_in(lines) + lines.len(),
    decreases lines.len() + (lines.len() - n),
{
    if n < lines.len() {
        rows_bounded(lines, n + 1, per_row);
        assert(lines.take(n + 1).drop_last() =~= lines.take(n));
        rows_bounded(lines.take(n), n, per_row);
        assert(lines.take(n).take(n) =~= lines.take(n));
    } else {
        assert(lines.take(n) =~= lines);
        if n > 0 {
            let front = lines.drop_last();
            rows_bounded(front, n - 1, per_row);
            assert(front.take(n - 1) =~= front);
            line_rows_bounded(lines.last().len() as int, per_row);
        }
    }
}

/// The rows that a draft takes, `chars_per_row` characters to a row.
pub fn estimate_message_rows(draft: &str, chars_per_row: usize) -> (r: usize)
    requires
        chars_per_row > 0,
        draft@.len() < usize::MAX,
    ensures
        r == rows_of(text::pieces(draft@, '\n'), chars_per_row as int),
        r >= 1,
{
    let lines = text::split(draft, '\n');
    let ghost all = text::texts(lines@);
    proof {
        pieces_hold_all(draft@, '\n');
    }
    let mut n: usize = 0;
    let mut i: usize = 0;
    while i < lines.len()
        invariant
            i <= lines@.len(),
            chars_per_row > 0,
            all == text::texts(lines@),
            chars_in(all) + all.len() <= usize::MAX,
            n == rows_of(all.take(i as int), chars_per_row as int),
        decreases lines@.len() - i,
    {
        let len: usize = text::chars_of(lines[i].as_str()).len();
        proof {
            rows_bounded(all, i + 1, chars_per_row as int);
            assert(all.take(i + 1).drop_last() =~= all.take(i as int));
            assert(all[i as int].len() == len);
            line_rows_bounded(len as int, chars_per_row as int);
            rows_bounded(all, i as int, chars_per_row as int);
        }
        let line: usize = if len == 0 {
            1
        } else {
            (len - 1) / chars_per_row + 1
        };
        n += line;
        i += 1;
    }
    proof {
        rows_bounded(all, i as int, chars_per_row as int);
        assert(all.take(i as int) =~= all);
    }
    n
}

/// `n / unit` rounded to the nearest whole number, and to an even one where two
/// are equally near.
pub open spec fn rounded(n: int, unit: int) -> int {
    let q = n / unit;
    let r = n % unit;
    if 2 * r < unit || (2 * r == unit && q % 2 == 0) {
        q
    } else {
        q + 1
    }
}

/// The least power of two, from `unit` on, in units of which `n` has at most 53
/// binary digits; no more than is needed for 63-bit numbers.
pub open spec fn double_unit(n: int, unit: int) -> int
    decreases 2048 - unit,
{
    if unit <= 0 || unit >= 1024 || n < 0x20_0000_0000_0000 * unit {
        unit
    } else {
        double_unit(n, 2 * unit)
    }
}

/// The double-precision number nearest to a count.
pub open spec fn nearest_double(n: int) -> int {
    rounded(n, double_unit(n, 1)) * double_unit(n, 1)
}

/// A number of tenths with one decimal.
pub open spec fn tenths_text(t: int) -> Seq<char> {
    text::decimal((t / 10) as nat) + "."@ + seq![text::digit_char((t % 10) as nat)]
}

/// A size in bytes, kilobytes with one decimal, or megabytes with one decimal.
pub open spec fn size_text(bytes: i64) -> Seq<char> {
    if bytes < 1024 {
        text::decimal_int(bytes as int) + " B"@
    } else if bytes < 1_048_576 {
        tenths_text(rounded(bytes * 10, 1024)) + " KB"@
    } else {
        tenths_text(rounded(nearest_double(bytes as int) * 10, 1_048_576)) + " MB"@
    }
}

fn round_half_even(n: u128, unit: u128) -> (r: u128)
    requires
        0 < unit <= 0x10_0000,
        n <= 0x1_0000_0000_0000_0000_0000,
    ensures
        r == rounded(n as int, unit as int),
{
    let q: u128 = n / unit;
    let r: u128 = n % unit;
    assert(q <= n) by (nonlinear_arith)
        requires
            q == n as int / unit as int,
            unit >= 1,
    ;
    if 2 * r < unit || (2 * r == unit && q % 2 == 0) {
        q
    } else {
        q + 1
    }
}

fn double_of(n: u64) -> (r: u128)
    requires
        n <= i64::MAX,
    ensures
        r == nearest_double(n as int),
        r <= 0x8000_0000_0000_0400,
{
    let mut unit: u64 = 1;
    while unit < 1024 && n >= 0x20_0000_0000_0000 * unit
        invariant
            unit == 1 || unit == 2 || unit == 4 || unit == 8 || unit == 16 || unit == 32 || unit
                == 64 || unit == 128 || unit == 256 || unit == 512 || unit == 1024,
            n <= i64::MAX,
            double_unit(n as int, 1) == double_unit(n as int, unit as int),
        decreases 2048 - unit,
    {
        unit = unit * 2;
    }
    let q: u128 = round_half_even(n as u128, unit as u128);
    proof {
        let (nn, u) = (n as int, unit as int);
        vstd::arithmetic::div_mod::lemma_fundamental_div_mod(nn, u);
        assert((nn / u) * u <= nn && (nn / u + 1) * u <= nn + u) by (nonlinear_arith)
            requires
                nn == u * (nn / u) + nn % u,
                nn % u >= 0,
                u > 0,
        ;
        assert(q * u <= nn + u) by (nonlinear_arith)
            requires
                q == nn / u || q == nn / u + 1,
                (nn / u) * u <= nn,
                (nn / u + 1) * u <= nn + u,
                u > 0,
        ;
        assert(0 <= q * u) by (nonlinear_arith)
            requires
                q >= 0,
                u > 0,
        ;
    }
    q * (unit as u128)
}

fn push_tenths(out: &mut String, t: u64)
    ensures
        final(out)@ == old(out)@ + tenths_text(t as int),
{
    text::push_decimal(out, t / 10);
    out.push_str(".");
    text::push_digit(out, t % 10);
    assert(out@ =~= old(out)@ + tenths_text(t as int));
}

/// A size as it is shown.
pub fn fmt_size(bytes: i64) -> (r: String)
    ensures
        r@ == size_text(bytes),
{
    let mut r = String::new();
    if bytes < 1024 {
        text::push_decimal_int(&mut r, bytes);
        r.push_str(" B");
    } else if bytes < 1_048_576 {
        let t: u128 = round_half_even(bytes as u128 * 10, 1024);
        push_tenths(&mut r, t as u64);
        r.push_str(" KB");
    } else {
        let m: u128 = double_of(bytes as u64);
        let t: u128 = round_half_even(m * 10, 1_048_576);
        push_tenths(&mut r, t as u64);
        r.push_str(" MB");
    }
    assert(r@ =~= size_text(bytes));
    r
}

/// Who is writing, in words; nothing where nobody is.
pub open spec fn typing_line(s: Seq<TypingUser>) -> Option<Seq<char>> {
    if s.len() == 0 {
        None
    } else if s.len() == 1 {
        Some(s[0].name@ + " is typing..."@)
    } else {
        Some(
            s[0].name@ + " and "@ + text::decimal((s.len() - 1) as nat) + " more are typing..."@,
        )
    }
}

/// A text that may be absent, by its characters.
pub open spec fn opt_chars(s: Option<String>) -> Option<Seq<char>> {
    match s {
        Some(t) => Some(t@),
        None => None,
    }
}

/// Who is writing, in words.
pub fn typing_text(typing_users: &Vec<TypingUser>) -> (r: Option<String>)
    ensures
        opt_chars(r) == typing_line(typing_users@),
{
    if typing_users.len() == 0 {
        return None;
    }
    let mut s = typing_users[0].name.clone();
    if typing_users.len() == 1 {
        s.push_str(" is typing...");
    } else {
        s.push_str(" and ");
        text::push_decimal(&mut s, (typing_users.len() - 1) as u64);
        s.push_str(" more are typing...");
    }
    Some(s)
}

/// The shown names of the members who have seen a message, in their order.
pub open spec fn seen_names(members: Seq<Member>, seen_by: Seq<i64>) -> Seq<Seq<char>>
    decreases members.len(),
{
    if members.len() == 0 {
        Seq::empty()
    } else {
        let before = seen_names(members.drop_last(), seen_by);
        if seen_by.contains(members.last().user_id) {
            before.push(shown_name(members.last()))
        } else {
            before
        }
    }
}

/// Whether one's own message was seen, and by whom.
#[derive(Debug, Clone, PartialEq, Eq)]
pub struct Receipt {
    pub seen: bool,
    /// Who has seen it, where members have.
    pub tooltip: Option<String>,
}

/// Whether a message was seen, and by whom; only of one's own messages.
pub fn message_receipt(
    message: &Message,
    current_user_id: Option<i64>,
    server_members: &Vec<Member>,
) -> (r: Option<Receipt>)
    ensures
        match r {
            Some(receipt) => {
                let names = seen_names(server_members@, message.seen_by@);
                &&& current_user_id == Some(message.author_id)
                &&& receipt.seen == (message.seen_by@.len() > 0)
                &&& opt_chars(receipt.tooltip) == if receipt.seen && names.len() > 0 {
                    Some("Seen by "@ + text::joined(names, ", "@))
                } else {
                    None
                }
            },
            None => current_user_id != Some(message.author_id),
        },
{
    if current_user_id != Some(message.author_id) {
        return None;
    }
    let seen = message.seen_by.len() > 0;
    let mut names: Vec<String> = Vec::new();
    let mut i: usize = 0;
    assert(text::texts(names@) =~= seen_names(server_members@.take(0), message.seen_by@));
    while i < server_members.len()
        invariant
            i <= server_members@.len(),
            text::texts(names@) == seen_names(server_members@.take(i as int), message.seen_by@),
        decreases server_members@.len() - i,
    {
        assert(server_members@.take(i + 1).drop_last() =~= server_members@.take(i as int));
        let ghost before = text::texts(names@);
        if rows::contains_id(&message.seen_by, server_members[i].user_id) {
            names.push(display_name_for_member(&server_members[i]));
            assert(text::texts(names@) =~= before.push(shown_name(server_members@[i as int])));
        }
        i += 1;
    }
    assert(server_members@.take(i as int) =~= server_members@);
    let tooltip = if seen && names.len() > 0 {
        let list = text::join(&names, ", ");
        let mut s = "Seen by ".to_owned();
        s.push_str(list.as_str());
        Some(s)
    } else {
        None
    };
    Some(Receipt { seen, tooltip })
}

/// The label of a receipt.
pub fn receipt_label(seen: bool) -> (r: &'static str)
    ensures
        r@ == if seen {
            "Seen"@
        } else {
            "Sent"@
        },
{
    if seen {
        "Seen"
    } else {
        "Sent"
    }
}

/// Whether a message's text is shown: it is there, and is not just the name of
/// one of its files.
pub open spec fn text_shown(m: Message) -> bool {
    m.content@.len() > 0 && forall|i: int|
        0 <= i < m.attachments@.len() ==> (#[trigger] m.attachments@[i]).filename@ != m.content@
}

/// Whether a message's text is shown.
pub fn shows_content(message: &Message) -> (r: bool)
    ensures
        r == text_shown(*message),
{
    if message.content.as_str().is_empty() {
        return false;
    }
    let mut i: usize = 0;
    while i < message.attachments.len()
        invariant
            i <= message.attachments@.len(),
            forall|k: int|
                0 <= k < i ==> (#[trigger] message.attachments@[k]).filename@ != message.content@,
        decreases message.attachments@.len() - i,
    {
        if message.attachments[i].filename == message.content {
            return false;
        }
        i += 1;
    }
    true
}

/// How an attachment is shown.
#[derive(Debug, Clone, Copy, PartialEq, Eq, Structural)]
pub enum AttachmentKind {
    Image,
    Video,
    Other,
}

/// How an attachment is shown, by its type.
pub open spec fn kind_of(mime: Seq<char>) -> AttachmentKind {
    if text::has_prefix(mime, "image/"@) {
        AttachmentKind::Image
    } else if text::has_prefix(mime, "video/"@) {
        AttachmentKind::Video
    } else {
        AttachmentKind::Other
    }
}

/// How an attachment is shown, and the labels beside it.
#[derive(Debug, Clone, PartialEq, Eq)]
pub struct AttachmentView {
    pub kind: AttachmentKind,
    pub label: String,
    /// The size in brackets, of what is neither picture nor video.
    pub size: Option<String>,
}

/// How an attachment is shown.
pub fn paint_attachment(attachment: &AttachmentMeta) -> (r: AttachmentView)
    ensures
        r.kind == kind_of(attachment.mime_type@),
        r.label@ == if r.kind == AttachmentKind::Video {
            "Video: "@ + attachment.filename@
        } else {
            attachment.filename@
        },
        opt_chars(r.size) == if r.kind == AttachmentKind::Other {
            Some("("@ + size_text(attachment.size_bytes) + ")"@)
        } else {
            None
        },
{
    let mime = attachment.mime_type.as_str();
    if text::starts_with(mime, "image/") {
        AttachmentView {
            kind: AttachmentKind::Image,
            label: attachment.filename.clone(),
            size: None,
        }
    } else if text::starts_with(mime, "video/") {
        let mut label = "Video: ".to_owned();
        label.push_str(attachment.filename.as_str());
        AttachmentView { kind: AttachmentKind::Video, label, size: None }
    } else {
        let size = fmt_size(attachment.size_bytes);
        let mut s = "(".to_owned();
        s.push_str(size.as_str());
        s.push_str(")");
        AttachmentView {
            kind: AttachmentKind::Other,
            label: attachment.filename.clone(),
            size: Some(s),
        }
    }
}

/// The title of a search result: author, time and channel.
pub fn search_result_title(result: &ChatSearchResult, server_members: &Vec<Member>) -> (r: String)
    requires
        dated(encode_utf8(text::trimmed(result.message.created_at@))) ==> is_char_boundary(
            encode_utf8(text::trimmed(result.message.created_at@)),
            16,
        ),
    ensures
        r@ == author_name(result.message, server_members@) + "  "@ + shown_time(
            result.message.created_at@,
        ) + "  #"@ + result.channel_name@,
{
    let mut r = resolve_message_author_name(&result.message, server_members);
    let time = format_message_timestamp(result.message.created_at.as_str());
    r.push_str("  ");
    r.push_str(time.as_str());
    r.push_str("  #");
    r.push_str(result.channel_name.as_str());
    r
}

/// What a click on a search result asks for.
pub fn search_result_action(result: &ChatSearchResult) -> (r: ChatPanelAction)
    ensures
        r == (ChatPanelAction::OpenSearchResult {
            channel_id: result.channel_id,
            message_id: result.message.id,
        }),
{
    ChatPanelAction::OpenSearchResult {
        channel_id: result.channel_id,
        message_id: result.message.id,
    }
}

/// What the list of search results shows.
#[derive(Debug, Clone, PartialEq, Eq)]
pub enum SearchBody {
    /// No list: nothing is searched for.
    Hidden,
    /// A text beside a spinner.
    Loading(String),
    Error(String),
    /// A text in place of results.
    Empty(String),
    Results,
}

/// What the list of search results shows.
pub fn search_body(query: &str, loading: bool, error: Option<&str>, results: usize) -> (r:
    SearchBody)
    ensures
        match r {
            SearchBody::Hidden => text::trimmed(query@).len() == 0,
            SearchBody::Loading(s) => text::trimmed(query@).len() > 0 && loading && s@
                == "Поиск сообщений..."@,
            SearchBody::Error(s) => text::trimmed(query@).len() > 0 && !loading && (match error {
                Some(e) => s@ == e@,
                None => false,
            }),
            SearchBody::Empty(s) => text::trimmed(query@).len() > 0 && !loading && error is None
                && results == 0 && s@ == "совпадений не найдено"@,
            SearchBody::Results => text::trimmed(query@).len() > 0 && !loading && error is None
                && results > 0,
        },
{
    let trimmed = text::trim(query);
    if trimmed.as_str().is_empty() {
        return SearchBody::Hidden;
    }
    if loading {
        return SearchBody::Loading("Поиск сообщений...".to_owned());
    }
    match error {
        Some(e) => SearchBody::Error(e.to_owned()),
        None => {
            if results == 0 {
                SearchBody::Empty("совпадений не найдено".to_owned())
            } else {
                SearchBody::Results
            }
        },
    }
}

/// What the body of the chat shows.
#[derive(Debug, Clone, PartialEq, Eq)]
pub enum ChatBody {
    Loading,
    /// An error, with a control to try again.
    Error(String),
    /// A greeting in place of messages.
    Welcome(String),
    Messages,
}

/// What the body of the chat shows.
pub fn chat_body(
    channel_name: &str,
    loading: bool,
    load_error: Option<&str>,
    messages: usize,
) -> (r: ChatBody)
    ensures
        match r {
            ChatBody::Loading => loading,
            ChatBody::Error(s) => !loading && (match load_error {
                Some(e) => s@ == e@,
                None => false,
            }),
            ChatBody::Welcome(s) => !loading && load_error is None && messages == 0 && s@
                == "Welcome to "@ + channel_name@,
            ChatBody::Messages => !loading && load_error is None && messages > 0,
        },
{
    if loading {
        return ChatBody::Loading;
    }
    match load_error {
        Some(e) => ChatBody::Error(e.to_owned()),
        None => {
            if messages == 0 {
                let mut s = "Welcome to ".to_owned();
                s.push_str(channel_name);
                ChatBody::Welcome(s)
            } else {
                ChatBody::Messages
            }
        },
    }
}

/// What stands above the messages and in the empty input.
#[derive(Debug, Clone, PartialEq, Eq)]
pub struct ChatHeader {
    pub title: String,
    pub description: Option<String>,
    pub hint: String,
}

/// What stands above the messages and in the empty input. Leading number signs of
/// the name, with the space behind them, are not repeated.
pub fn chat_header(channel_name: &str, description: Option<&str>) -> (r: ChatHeader)
    ensures
        r.title@ == text::without_prefixes(channel_name@, "# "@),
        opt_chars(r.description) == match description {
            Some(d) => if d@.len() > 0 {
                Some(d@)
            } else {
                None
            },
            None => None,
        },
        r.hint@ == "Написать в #"@ + text::without_prefixes(channel_name@, "# "@),
{
    let title = text::trim_start_matches(channel_name, "# ");
    let mut hint = "Написать в #".to_owned();
    hint.push_str(title.as_str());
    let description = match description {
        Some(d) => if d.is_empty() {
            None
        } else {
            Some(d.to_owned())
        },
        None => None,
    };
    ChatHeader { title, description, hint }
}

/// Whether a key sends the draft: Enter in the focused input, without Shift or
/// Control.
pub fn enter_sends(has_focus: bool, enter: bool, shift: bool, ctrl: bool) -> (r: Option<
    ChatPanelAction,
>)
    ensures
        r == if has_focus && enter && !shift && !ctrl {
            Some(ChatPanelAction::SendMessage)
        } else {
            None
        },
{
    if has_focus && enter && !shift && !ctrl {
        Some(ChatPanelAction::SendMessage)
    } else {
        None
    }
}

/// Whether a message is highlighted, and whether the list scrolls to it.
pub fn highlight(message_id: i64, highlighted: Option<i64>, scroll: bool) -> (r: (bool, bool))
    ensures
        r.0 == (highlighted == Some(message_id)),
        r.1 == (r.0 && scroll),
{
    let here = highlighted == Some(message_id);
    (here, here && scroll)
}

/// Whether the request to scroll to the highlighted message stays: until that
/// message is shown.
pub fn scroll_request_stays(
    body: &ChatBody,
    messages: &Vec<Message>,
    highlighted: Option<i64>,
    scroll: bool,
) -> (r: bool)
    ensures
        r == (scroll && !(*body is Messages && highlighted is Some && has_key(
            messages@,
            highlighted->0,
        ))),
{
    if !scroll {
        return false;
    }
    match (body, highlighted) {
        (ChatBody::Messages, Some(id)) => !rows::contains(messages, id),
        _ => true,
    }
}

} // verus!
