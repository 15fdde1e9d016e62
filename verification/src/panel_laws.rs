//! What holds of everything that the panels show.
use vstd::prelude::*;
use vstd::utf8::{decode_utf8, encode_utf8, is_ascii_chars};

use crate::avatar::{glyph_of, letter_of, two_initials, uppercased, word_initials};
use crate::bottom_panel::{preset_text, stat_texts, LatencyStats};
use crate::channel_panel::{
    is_menu_of, mute_status, people_in, ChannelPanelAction, ChannelPanelVoiceSnapshot, MuteStatus,
    ParticipantMenu,
};
use crate::chat_panel::{
    author_name, dated, kind_of, line_rows, nearest_double, preview, range_text, rounded, rows_of,
    seen_names, shown_name, shown_time, size_text, tenths_text, text_shown, typing_line,
    AttachmentKind,
};
use crate::guild_panel::{is_row_of, GuildRow};
use crate::headless::ScreenPreset;
use crate::member_panel::{others, positions, MemberSnapshot};
use crate::net::{Member, Message, Server, VoiceParticipant};
use crate::rows;
use crate::state::TypingUser;
use crate::text;
use crate::text_laws;

verus! {

/// A member is shown under the display name, unless that is blank: then under the user
/// name.
pub proof fn members_are_shown_by_name(m: Member)
    ensures
        (exists|i: int|
            0 <= i < m.display_name@.len() && !text::white_space(#[trigger] m.display_name@[i]))
            ==> shown_name(m) == m.display_name@,
        (forall|i: int|
            0 <= i < m.display_name@.len() ==> text::white_space(#[trigger] m.display_name@[i]))
            ==> shown_name(m) == m.username@,
{
    let s = m.display_name@;
    text_laws::trimming_takes_white_space_only(s);
    let t = text::trimmed(s);
    let (from, to) = choose|from: int, to: int|
        {
            &&& 0 <= from <= to <= s.len()
            &&& #[trigger] s.subrange(from, to) == text::trimmed(s)
            &&& forall|i: int| 0 <= i < from ==> text::white_space(#[trigger] s[i])
            &&& forall|i: int| to <= i < s.len() ==> text::white_space(#[trigger] s[i])
        };
    if t.len() > 0 {
        assert(s[from] == t[0]);
    }
}

/// The author of a message is shown as the first member that the author is, or under the
/// name that came with the message where the author is none.
pub proof fn authors_are_members(message: Message, members: Seq<Member>, i: int)
    ensures
        0 <= i < members.len() && members[i].user_id == message.author_id && (forall|j: int|
            0 <= j < i ==> (#[trigger] members[j]).user_id != message.author_id) ==> author_name(
            message,
            members,
        ) == shown_name(members[i]),
        (forall|j: int|
            0 <= j < members.len() ==> (#[trigger] members[j]).user_id != message.author_id)
            ==> author_name(message, members) == message.author_username@,
{
    rows::index_of_is_first(members, message.author_id);
    let f = rows::index_of(members, message.author_id);
    if 0 <= i < members.len() && members[i].user_id == message.author_id && (forall|j: int|
        0 <= j < i ==> (#[trigger] members[j]).user_id != message.author_id) {
        assert(rows::Keyed::key(&members[i]) == message.author_id);
        assert(rows::Keyed::key(&members[f]) == message.author_id);
        if f < i {
            assert(members[f].user_id != message.author_id);
        } else if i < f {
            assert(rows::Keyed::key(&members[i]) != message.author_id);
        }
    }
}

proof fn ascii_range(t: Seq<char>, from: int, to: int)
    requires
        is_ascii_chars(t),
        0 <= from <= to <= t.len(),
    ensures
        range_text(encode_utf8(t), from, to) == t.subrange(from, to),
{
    let part = t.subrange(from, to);
    vstd::utf8::is_ascii_chars_encode_utf8(t);
    assert(is_ascii_chars(part)) by {
        assert forall|i: int| 0 <= i < part.len() implies (#[trigger] part[i] as u32) < 128 by {
            assert(part[i] == t[from + i]);
        }
    }
    vstd::utf8::is_ascii_chars_encode_utf8(part);
    assert(encode_utf8(part) =~= encode_utf8(t).subrange(from, to)) by {
        assert forall|i: int| 0 <= i < part.len() implies encode_utf8(part)[i] == encode_utf8(
            t,
        ).subrange(from, to)[i] by {
            assert(part[i] == t[from + i]);
            assert(encode_utf8(part)[i] == part[i] as u8);
            assert(encode_utf8(t)[from + i] == t[from + i] as u8);
        }
    }
    vstd::utf8::encode_utf8_decode_utf8(part);
}

/// A time that is written `YYYY-MM-DDThh:mm`, with a `T` or a blank in the middle, is shown
/// as `DD.MM.YYYY hh:mm`, whatever stands behind it; any other plain text is shown as it
/// is.
pub proof fn times_are_shown_day_first(t: Seq<char>)
    requires
        is_ascii_chars(t),
        text::trimmed(t) == t,
    ensures
        t.len() >= 16 && t[4] == '-' && t[7] == '-' && (t[10] == 'T' || t[10] == ' ') && t[13]
            == ':' ==> shown_time(t) == t.subrange(8, 10) + "."@ + t.subrange(5, 7) + "."@
            + t.subrange(0, 4) + " "@ + t.subrange(11, 13) + ":"@ + t.subrange(14, 16),
        !(t.len() >= 16 && t[4] == '-' && t[7] == '-' && (t[10] == 'T' || t[10] == ' ') && t[13]
            == ':') ==> shown_time(t) == t,
{
    vstd::utf8::is_ascii_chars_encode_utf8(t);
    let b = encode_utf8(t);
    if t.len() >= 16 {
        assert(b[4] == t[4] as u8 && b[7] == t[7] as u8 && b[10] == t[10] as u8 && b[13]
            == t[13] as u8);
        assert(('-' as u8) == 0x2d && ('T' as u8) == 0x54 && (' ' as u8) == 0x20 && (':' as u8)
            == 0x3a);
        assert((t[4] as u32) < 128 && (t[7] as u32) < 128 && (t[10] as u32) < 128 && (t[13] as u32)
            < 128);
        ascii_range(t, 8, 10);
        ascii_range(t, 5, 7);
        ascii_range(t, 0, 4);
        ascii_range(t, 11, 13);
        ascii_range(t, 14, 16);
    }
}

/// In little room a message is its text, unless that is blank; then it is the names of its
/// files, and a text of its own where it has none.
pub proof fn previews(m: Message)
    ensures
        text::trimmed(m.content@).len() > 0 ==> preview(m) == m.content@,
        text::trimmed(m.content@).len() == 0 && m.attachments@.len() == 1 ==> preview(m)
            == m.attachments@[0].filename@,
        text::trimmed(m.content@).len() == 0 && m.attachments@.len() == 2 ==> preview(m)
            == m.attachments@[0].filename@ + ", "@ + m.attachments@[1].filename@,
        text::trimmed(m.content@).len() == 0 && m.attachments@.len() == 0 ==> preview(m)
            == "Пустое сообщение"@,
{
    reveal_with_fuel(text::joined, 3);
    let names = crate::chat_panel::file_names(m.attachments@);
    if m.attachments@.len() == 2 {
        assert(names.drop_last() =~= seq![names[0]]);
    }
}

/// A line takes as many rows as its characters fill, and one where it has none; lines one
/// below the other take their rows together.
pub proof fn rows_hold_the_lines(len: int, per_row: int, lines: Seq<Seq<char>>, line: Seq<char>)
    requires
        len >= 0,
        per_row > 0,
    ensures
        line_rows(len, per_row) >= 1,
        len <= per_row * line_rows(len, per_row),
        len > 0 ==> per_row * (line_rows(len, per_row) - 1) < len,
        len == 0 ==> line_rows(len, per_row) == 1,
        rows_of(lines.push(line), per_row) == rows_of(lines, per_row) + line_rows(
            line.len() as int,
            per_row,
        ),
        rows_of(Seq::empty(), per_row) == 0,
{
    assert(lines.push(line).drop_last() =~= lines);
    if len > 0 {
        let q = (len - 1) / per_row;
        assert(len - 1 == per_row * q + (len - 1) % per_row && 0 <= (len - 1) % per_row < per_row
            && q >= 0) by (nonlinear_arith)
            requires
                q == (len - 1) / per_row,
                len > 0,
                per_row > 0,
        ;
        assert(per_row * (q + 1) == per_row * q + per_row) by (nonlinear_arith);
    }
}

/// Rounding gives the nearest whole number, and of two that are equally near the even one.
pub proof fn rounding_is_to_the_nearest(n: int, unit: int)
    requires
        n >= 0,
        unit > 0,
    ensures
        -unit <= 2 * (rounded(n, unit) * unit - n) <= unit,
        2 * (rounded(n, unit) * unit - n) == unit || 2 * (n - rounded(n, unit) * unit) == unit
            ==> rounded(n, unit) % 2 == 0,
{
    let q = n / unit;
    let r = n % unit;
    assert(n == q * unit + r && 0 <= r < unit) by (nonlinear_arith)
        requires
            q == n / unit,
            r == n % unit,
            unit > 0,
    ;
    assert((q + 1) * unit == q * unit + unit) by (nonlinear_arith);
}

/// A size below 1024 is given in bytes, one below 1024 times that in kilobytes, and any
/// other in megabytes; kilobytes are given to the nearest tenth.
pub proof fn sizes_are_in_their_unit(bytes: i64)
    ensures
        bytes < 1024 ==> size_text(bytes) == text::decimal_int(bytes as int) + " B"@,
        1024 <= bytes < 1024 * 1024 ==> exists|tenths: int|
            {
                &&& size_text(bytes) == #[trigger] tenths_text(tenths) + " KB"@
                &&& -1024 <= 2 * (tenths * 1024 - bytes * 10) <= 1024
            },
        1024 * 1024 <= bytes ==> exists|tenths: int|
            {
                &&& size_text(bytes) == #[trigger] tenths_text(tenths) + " MB"@
                &&& bytes < 0x20_0000_0000_0000 ==> -0x10_0000 <= 2 * (tenths * 0x10_0000 - bytes
                    * 10) <= 0x10_0000
            },
{
    if 1024 <= bytes < 1024 * 1024 {
        rounding_is_to_the_nearest(bytes * 10, 1024);
        let t = rounded(bytes * 10, 1024);
        assert(size_text(bytes) == tenths_text(t) + " KB"@);
    }
    if 1024 * 1024 <= bytes {
        let d = nearest_double(bytes as int);
        let t = rounded(d * 10, 1_048_576);
        assert(size_text(bytes) == tenths_text(t) + " MB"@);
        if bytes < 0x20_0000_0000_0000 {
            assert(crate::chat_panel::double_unit(bytes as int, 1) == 1);
            assert(rounded(bytes as int, 1) == bytes);
            let w = rounded(bytes as int, 1);
            assert(d == w * 1);
            assert(w * 1 == w) by (nonlinear_arith);
            assert(d == bytes);
            rounding_is_to_the_nearest(bytes * 10, 1_048_576);
        }
    }
}

/// Tenths are written with the whole number in front of the point and one digit behind it.
pub proof fn tenths_are_written(whole: nat, tenth: nat)
    requires
        tenth < 10,
    ensures
        tenths_text((whole * 10 + tenth) as int) == text::decimal(whole) + "."@ + seq![
            ((48 + tenth) as u8) as char,
        ],
{
}

/// That someone writes is said exactly where someone does, and begins with the name of the
/// first; of several, the others are counted.
pub proof fn writing_is_said(s: Seq<TypingUser>)
    ensures
        typing_line(s) is Some <==> s.len() > 0,
        s.len() > 0 ==> text::has_prefix(typing_line(s)->0, s[0].name@),
        s.len() == 1 ==> typing_line(s)->0 == s[0].name@ + " is typing..."@,
        s.len() > 1 ==> typing_line(s)->0 == s[0].name@ + (" and "@ + text::decimal(
            (s.len() - 1) as nat,
        ) + " more are typing..."@),
{
    if s.len() > 0 {
        let line = typing_line(s)->0;
        assert(line.take(s[0].name@.len() as int) =~= s[0].name@);
    }
    if s.len() > 1 {
        assert(typing_line(s)->0 =~= s[0].name@ + (" and "@ + text::decimal((s.len() - 1) as nat)
            + " more are typing..."@));
    }
}

/// Who has seen a message are the members among those who did, in the order of the members,
/// by the names that they are shown under.
pub proof fn readers_are_named(members: Seq<Member>, seen_by: Seq<i64>)
    ensures
        seen_names(members, seen_by) == members.filter(
            |m: Member| seen_by.contains(m.user_id),
        ).map_values(|m: Member| shown_name(m)),
    decreases members.len(),
{
    reveal(Seq::filter);
    let seen = |m: Member| seen_by.contains(m.user_id);
    let name = |m: Member| shown_name(m);
    if members.len() > 0 {
        let front = members.drop_last();
        readers_are_named(front, seen_by);
        assert(front.filter(seen).push(members.last()).map_values(name) =~= front.filter(
            seen,
        ).map_values(name).push(shown_name(members.last())));
    }
    assert(seen_names(members, seen_by) =~= members.filter(seen).map_values(name));
}

/// The text of a message is shown unless it is empty or is the name of one of its files.
pub proof fn texts_are_shown(m: Message, i: int)
    ensures
        m.content@.len() == 0 ==> !text_shown(m),
        0 <= i < m.attachments@.len() && m.attachments@[i].filename@ == m.content@ ==> !text_shown(
            m,
        ),
        m.content@.len() > 0 && m.attachments@.len() == 0 ==> text_shown(m),
        !text_shown(m) ==> m.content@.len() == 0 || exists|j: int|
            0 <= j < m.attachments@.len() && (#[trigger] m.attachments@[j]).filename@
                == m.content@,
{
}

/// What is shown as a picture or as a video is what says so in front of its type.
pub proof fn attachments_are_told_apart(rest: Seq<char>, mime: Seq<char>)
    ensures
        kind_of("image/"@ + rest) is Image,
        kind_of("video/"@ + rest) is Video,
        kind_of(mime) is Image ==> mime.len() >= 6 && mime.take(6) == "image/"@,
        kind_of(mime) is Video ==> mime.len() >= 6 && mime.take(6) == "video/"@,
        kind_of(mime) is Other ==> mime.len() < 6 || (mime.take(6) != "image/"@ && mime.take(6)
            != "video/"@),
{
    reveal_strlit("image/");
    reveal_strlit("video/");
    let (a, b) = ("image/"@ + rest, "video/"@ + rest);
    assert(a.take(6) =~= "image/"@);
    assert(b.take(6) =~= "video/"@);
    assert("image/"@[0] != "video/"@[0]);
}

/// Someone is heard exactly where nothing speaks against it. That one muted the person
/// oneself is said before all else, and that the person hears nothing before that the
/// microphone is off.
pub proof fn what_is_said_of_sound(p: VoiceParticipant, locally: bool)
    ensures
        mute_status(p, locally) is Heard <==> !locally && !p.deafened && !p.mic_muted,
        locally ==> mute_status(p, locally) is Locally,
        !locally && p.deafened ==> mute_status(p, locally) is Fully,
        !locally && !p.deafened && p.mic_muted ==> mute_status(p, locally) is Microphone,
{
}

/// What the menu of a participant offers is the opposite of what is in force, for that
/// participant; and the volume that it shows is the person's, full where none was set.
pub proof fn menus_offer_the_opposite(
    m: ParticipantMenu,
    user_id: i64,
    muted: bool,
    denoised: bool,
    volumes: Map<i64, u32>,
)
    requires
        is_menu_of(m, user_id, muted, denoised, volumes),
    ensures
        m.mute_action == (ChannelPanelAction::SetParticipantMuted { user_id, muted: !muted }),
        m.denoise_action == (ChannelPanelAction::SetParticipantDenoise {
            user_id,
            enabled: !denoised,
        }),
        volumes.contains_key(user_id) ==> m.volume == volumes[user_id],
        !volumes.contains_key(user_id) ==> m.volume == 0x3f80_0000,
        muted ==> m.mute_label@ == "Снять локальный мут"@,
        !muted ==> m.mute_label@ == "Локально заглушить"@,
        denoised ==> m.denoise_label@ == "Выключить локальное шумоподавление"@,
        !denoised ==> m.denoise_label@ == "Включить локальное шумоподавление"@,
{
}

/// The people in a voice channel are those listed for it, and nobody where nothing is.
pub proof fn people_are_counted(voice: ChannelPanelVoiceSnapshot, id: i64)
    ensures
        voice.channel_voice@.contains_key(id) ==> people_in(voice, id)
            == voice.channel_voice@[id]@.len(),
        !voice.channel_voice@.contains_key(id) ==> people_in(voice, id) == 0,
{
}

/// The members of a section stand in their order, and are online exactly in the section of
/// those who are.
pub proof fn sections_keep_the_order(members: Seq<MemberSnapshot>, online: bool)
    ensures
        forall|i: int| #![trigger positions(members, online)[i]]
            0 <= i < positions(members, online).len() ==> 0 <= positions(members, online)[i]
                < members.len() && members[positions(members, online)[i]].online == online,
        forall|i: int, j: int|
            0 <= i < j < positions(members, online).len() ==> #[trigger] positions(
                members,
                online,
            )[i] < #[trigger] positions(members, online)[j],
    decreases members.len(),
{
    if members.len() > 0 {
        let front = members.drop_last();
        sections_keep_the_order(front, online);
        let (all, before) = (positions(members, online), positions(front, online));
        assert forall|i: int| #![trigger all[i]] 0 <= i < all.len() implies 0 <= all[i]
            < members.len() && members[all[i]].online == online by {
            if i < before.len() {
                assert(all[i] == before[i]);
                assert(members[before[i]] == front[before[i]]);
            }
        }
        assert forall|i: int, j: int| 0 <= i < j < all.len() implies #[trigger] all[i]
            < #[trigger] all[j] by {
            assert(all[i] == before[i]);
            if j < before.len() {
                assert(all[j] == before[j]);
            }
        }
    }
}

/// Those who are online and the others are all there are, where no more are said to be
/// online than there are.
pub proof fn everyone_is_online_or_not(total: int, online: int)
    requires
        0 <= online,
    ensures
        online <= total ==> others(total, online) + online == total,
        online > total ==> others(total, online) == 0,
{
}

/// On the rail the selected server, and no other, is marked; each row carries its own
/// server's id and name.
pub proof fn the_selected_server_is_marked(
    r1: GuildRow,
    s1: Server,
    r2: GuildRow,
    s2: Server,
    selected: Option<i64>,
)
    requires
        is_row_of(r1, s1, selected),
        is_row_of(r2, s2, selected),
    ensures
        r1.server_id == s1.id,
        r1.tooltip@ == s1.name@,
        r1.active <==> selected == Some(s1.id),
        s1.id != s2.id ==> !(r1.active && r2.active),
        r1.row_id@ == "guild_srv_"@ + text::decimal_int(s1.id as int),
        r1.glyph@ == glyph_of(s1.name@),
{
}

/// The letter of a name is its first character in upper case; of an empty one it is a
/// question mark.
pub proof fn letters_stand_for_names(name: Seq<char>, c: char)
    ensures
        letter_of(seq![c] + name) == uppercased(seq![c]),
        letter_of(Seq::empty()) == "?"@,
{
    assert((seq![c] + name).take(1) =~= seq![c]);
}

/// The initials of a text are at most two, and none of them is white space; those of a
/// single word are its first character.
pub proof fn initials_are_of_words(s: Seq<char>)
    ensures
        two_initials(s).len() <= 2,
        forall|i: int|
            0 <= i < two_initials(s).len() ==> !text::white_space(#[trigger] two_initials(s)[i])
                && s.contains(two_initials(s)[i]),
        s.len() > 0 && (forall|i: int|
            0 <= i < s.len() ==> !text::white_space(#[trigger] s[i])) ==> two_initials(s) == seq![
            s[0],
        ],
{
    initials_are_in_the_text(s);
    let all = word_initials(s);
    assert forall|i: int| 0 <= i < two_initials(s).len() implies !text::white_space(
        #[trigger] two_initials(s)[i],
    ) && s.contains(two_initials(s)[i]) by {
        assert(two_initials(s)[i] == all[i]);
    }
    if s.len() > 0 && (forall|i: int| 0 <= i < s.len() ==> !text::white_space(#[trigger] s[i])) {
        one_word(s);
    }
}

proof fn initials_are_in_the_text(s: Seq<char>)
    ensures
        forall|i: int|
            0 <= i < word_initials(s).len() ==> !text::white_space(#[trigger] word_initials(s)[i])
                && s.contains(word_initials(s)[i]),
    decreases s.len(),
{
    if s.len() > 0 {
        let front = s.drop_last();
        initials_are_in_the_text(front);
        let (all, before) = (word_initials(s), word_initials(front));
        assert forall|i: int| 0 <= i < all.len() implies !text::white_space(#[trigger] all[i])
            && s.contains(all[i]) by {
            if i < before.len() {
                assert(all[i] == before[i]);
                let k = choose|k: int| 0 <= k < front.len() && front[k] == before[i];
                assert(s[k] == front[k]);
            } else {
                assert(s[s.len() - 1] == s.last());
            }
        }
    }
}

proof fn one_word(s: Seq<char>)
    requires
        s.len() > 0,
        forall|i: int| 0 <= i < s.len() ==> !text::white_space(#[trigger] s[i]),
    ensures
        word_initials(s) == seq![s[0]],
    decreases s.len(),
{
    let front = s.drop_last();
    if front.len() > 0 {
        assert forall|i: int| 0 <= i < front.len() implies !text::white_space(
            #[trigger] front[i],
        ) by {
            assert(front[i] == s[i]);
        }
        one_word(front);
        assert(!text::white_space(s[s.len() - 2]));
    } else {
        assert(word_initials(front) =~= Seq::empty());
        assert(word_initials(s) =~= seq![s[0]]);
    }
}

/// The short name of a preset says its height and its frame rate.
pub proof fn presets_say_what_they_are(p: ScreenPreset)
    ensures
        p is P720F30 ==> preset_text(p) == "720p"@ + "30"@,
        p is P720F60 ==> preset_text(p) == "720p"@ + "60"@,
        p is P720F120 ==> preset_text(p) == "720p"@ + "120"@,
        p is P1080F30 ==> preset_text(p) == "1080p"@ + "30"@,
        p is P1080F60 ==> preset_text(p) == "1080p"@ + "60"@,
        p is P1080F120 ==> preset_text(p) == "1080p"@ + "120"@,
        p is P1440F30 ==> preset_text(p) == "1440p"@ + "30"@,
        p is P1440F60 ==> preset_text(p) == "1440p"@ + "60"@,
        p is P1440F90 ==> preset_text(p) == "1440p"@ + "90"@,
{
    reveal_strlit("720p");
    reveal_strlit("1080p");
    reveal_strlit("1440p");
    reveal_strlit("30");
    reveal_strlit("60");
    reveal_strlit("90");
    reveal_strlit("120");
    reveal_strlit("720p30");
    reveal_strlit("720p60");
    reveal_strlit("720p120");
    reveal_strlit("1080p30");
    reveal_strlit("1080p60");
    reveal_strlit("1080p120");
    reveal_strlit("1440p30");
    reveal_strlit("1440p60");
    reveal_strlit("1440p90");
    assert("720p30"@ =~= "720p"@ + "30"@);
    assert("720p60"@ =~= "720p"@ + "60"@);
    assert("720p120"@ =~= "720p"@ + "120"@);
    assert("1080p30"@ =~= "1080p"@ + "30"@);
    assert("1080p60"@ =~= "1080p"@ + "60"@);
    assert("1080p120"@ =~= "1080p"@ + "120"@);
    assert("1440p30"@ =~= "1440p"@ + "30"@);
    assert("1440p60"@ =~= "1440p"@ + "60"@);
    assert("1440p90"@ =~= "1440p"@ + "90"@);
}

/// In the popup each number stands behind its own label, with its unit; what is not known
/// is a dash.
pub proof fn numbers_stand_behind_their_labels(s: LatencyStats)
    ensures
        stat_texts(s).len() == 19,
        s.source_fps is Some ==> stat_texts(s)[1] == ("Source FPS"@, s.source_fps->0@),
        s.source_fps is None ==> stat_texts(s)[1] == ("Source FPS"@, "-"@),
        s.webrtc_requested_bitrate_mbps is Some ==> stat_texts(s)[3] == (
            "BWE target"@,
            s.webrtc_requested_bitrate_mbps->0@ + " Mbps"@,
        ),
        s.webrtc_target_bitrate_mbps is Some ==> stat_texts(s)[4] == (
            "Encoder bitrate"@,
            s.webrtc_target_bitrate_mbps->0@ + " Mbps"@,
        ),
        s.webrtc_fps_hint is Some ==> stat_texts(s)[5] == ("FPS hint"@, s.webrtc_fps_hint->0@),
        s.webrtc_available_outgoing_bitrate_mbps is Some ==> stat_texts(s)[6] == (
            "Available bitrate"@,
            s.webrtc_available_outgoing_bitrate_mbps->0@ + " Mbps"@,
        ),
        s.encoded_pre_rtp_bitrate_mbps is Some ==> stat_texts(s)[7] == (
            "Pre-RTP bitrate"@,
            s.encoded_pre_rtp_bitrate_mbps->0@ + " Mbps"@,
        ),
        s.webrtc_packet_loss_pct is Some ==> stat_texts(s)[8] == (
            "Packet loss"@,
            s.webrtc_packet_loss_pct->0@ + "%"@,
        ),
        s.webrtc_nack_count is Some ==> stat_texts(s)[9] == (
            "NACK"@,
            text::decimal(s.webrtc_nack_count->0 as nat),
        ),
        s.webrtc_pli_count is Some ==> stat_texts(s)[10] == (
            "PLI"@,
            text::decimal(s.webrtc_pli_count->0 as nat),
        ),
        s.webrtc_quality_limitation_reason is Some ==> stat_texts(s)[11] == (
            "Quality limit"@,
            s.webrtc_quality_limitation_reason->0@,
        ),
        s.webrtc_transport_path is Some ==> stat_texts(s)[12] == (
            "Transport path"@,
            s.webrtc_transport_path->0@,
        ),
        s.webrtc_transport_rtt_ms is Some ==> stat_texts(s)[13] == (
            "Transport RTT"@,
            s.webrtc_transport_rtt_ms->0@ + " ms"@,
        ),
        s.stream_fps is Some ==> stat_texts(s)[14] == ("ФПС трансляции"@, s.stream_fps->0@),
        match s.resolution {
            Some((w, h)) => stat_texts(s)[15] == (
                "Разрешение"@,
                text::decimal(w as nat) + "×"@ + text::decimal(h as nat),
            ),
            None => stat_texts(s)[15] == ("Разрешение"@, "—"@),
        },
        s.outgoing_speed_mbps is Some ==> stat_texts(s)[16] == (
            "Исходящая скорость"@,
            s.outgoing_speed_mbps->0@ + " Мбит/с"@,
        ),
        s.encoding_path is Some ==> stat_texts(s)[17] == ("Кодирование"@, s.encoding_path->0@),
        s.decoding_path is Some ==> stat_texts(s)[18] == ("Декодирование"@, s.decoding_path->0@),
        s.webrtc_nack_count is None ==> stat_texts(s)[9].1 == "-"@,
        s.webrtc_pli_count is None ==> stat_texts(s)[10].1 == "-"@,
        s.decoding_path is None ==> stat_texts(s)[18].1 == "—"@,
{
    reveal_strlit("");
    assert forall|t: Seq<char>| #[trigger] (t + ""@) == t by {
        assert(t + ""@ =~= t);
    }
}

} // verus!
