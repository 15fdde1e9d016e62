//! What holds of links, of what the environment asks for, of the console, of encryption
//! and of byte streams, for every input.
use vstd::prelude::*;

use crate::console_panel::{clock_text, kept, ConsoleLine};
use crate::crypto::{decrypted, opened};
use crate::deep_links::{first_token, token_in, token_of, token_pair, url_parts, without_quotes};
use crate::h264::{idr_from, idr_header, idr_is_found_exactly, start_code_at};
use crate::headless::{preset_named, source_named, truthy, StreamSourceTarget};
use crate::text::{
    self, ascii_lowered, decimal, decimal_reads_back, pieces, pieces_not_empty, three_digits,
    two_digits,
};

verus! {

/// An invitation is a link of this application to its host for invitations; no other link
/// carries a token. The token is the first segment of the path, and where that is empty or
/// missing the value of the first pair of the query that is named so.
pub proof fn invitations_carry_tokens(
    scheme: Seq<char>,
    host: Option<Seq<char>>,
    segments: Option<Seq<Seq<char>>>,
    query: Seq<(Seq<char>, Seq<char>)>,
    i: int,
)
    ensures
        scheme != "astrix"@ ==> token_in(scheme, host, segments, query) is None,
        host != Some("invite"@) ==> token_in(scheme, host, segments, query) is None,
        scheme == "astrix"@ && host == Some("invite"@) && segments is Some && segments->0.len() > 0
            && segments->0[0].len() > 0 ==> token_in(scheme, host, segments, query) == Some(
            segments->0[0],
        ),
        scheme == "astrix"@ && host == Some("invite"@) && (segments is None || segments->0.len()
            == 0 || segments->0[0].len() == 0) && 0 <= i < query.len() && query[i].0 == "token"@
            && (forall|j: int| 0 <= j < i ==> (#[trigger] query[j]).0 != "token"@) ==> token_in(
            scheme,
            host,
            segments,
            query,
        ) == Some(query[i].1),
        scheme == "astrix"@ && host == Some("invite"@) && (segments is None || segments->0.len()
            == 0 || segments->0[0].len() == 0) && (forall|j: int|
            0 <= j < query.len() ==> (#[trigger] query[j]).0 != "token"@) ==> token_in(
            scheme,
            host,
            segments,
            query,
        ) is None,
{
    if 0 <= i < query.len() && query[i].0 == "token"@ && (forall|j: int|
        0 <= j < i ==> (#[trigger] query[j]).0 != "token"@) {
        first_pair(query, i);
    }
    if forall|j: int| 0 <= j < query.len() ==> (#[trigger] query[j]).0 != "token"@ {
        no_pair(query);
    }
}

proof fn first_pair(q: Seq<(Seq<char>, Seq<char>)>, i: int)
    requires
        0 <= i < q.len(),
        q[i].0 == "token"@,
        forall|j: int| 0 <= j < i ==> (#[trigger] q[j]).0 != "token"@,
    ensures
        token_pair(q) == Some(q[i].1),
    decreases q.len(),
{
    if i > 0 {
        let rest = q.drop_first();
        assert(q[0].0 != "token"@);
        assert forall|j: int| 0 <= j < i - 1 implies (#[trigger] rest[j]).0 != "token"@ by {
            assert(rest[j] == q[j + 1]);
        }
        first_pair(rest, i - 1);
    }
}

proof fn no_pair(q: Seq<(Seq<char>, Seq<char>)>)
    requires
        forall|j: int| 0 <= j < q.len() ==> (#[trigger] q[j]).0 != "token"@,
    ensures
        token_pair(q) is None,
    decreases q.len(),
{
    if q.len() > 0 {
        let rest = q.drop_first();
        assert(q[0].0 != "token"@);
        assert forall|j: int| 0 <= j < rest.len() implies (#[trigger] rest[j]).0 != "token"@ by {
            assert(rest[j] == q[j + 1]);
        }
        no_pair(rest);
    }
}

/// The token of the command line is that of the first argument that carries one; there is
/// none exactly where no argument does.
pub proof fn the_first_token_counts(args: Seq<Seq<char>>)
    ensures
        match first_token(args) {
            Some(t) => exists|i: int|
                0 <= i < args.len() && token_of(#[trigger] args[i]) == Some(t) && forall|j: int|
                    0 <= j < i ==> token_of(#[trigger] args[j]) is None,
            None => forall|j: int| 0 <= j < args.len() ==> token_of(#[trigger] args[j]) is None,
        },
    decreases args.len(),
{
    if args.len() > 0 {
        if token_of(args[0]) is Some {
            assert(token_of(args[0]) == first_token(args));
        } else {
            let rest = args.drop_first();
            the_first_token_counts(rest);
            match first_token(rest) {
                Some(t) => {
                    let i = choose|i: int|
                        0 <= i < rest.len() && token_of(#[trigger] rest[i]) == Some(t) && forall|
                            j: int,
                        | 0 <= j < i ==> token_of(#[trigger] rest[j]) is None;
                    assert(args[i + 1] == rest[i]);
                    assert forall|j: int| 0 <= j < i + 1 implies token_of(
                        #[trigger] args[j],
                    ) is None by {
                        if j > 0 {
                            assert(args[j] == rest[j - 1]);
                        }
                    }
                },
                None => {
                    assert forall|j: int| 0 <= j < args.len() implies token_of(
                        #[trigger] args[j],
                    ) is None by {
                        if j > 0 {
                            assert(args[j] == rest[j - 1]);
                        }
                    }
                },
            }
        }
    }
}

/// Quotation marks round an argument make no difference to what is read as a link.
pub proof fn quoted_links_are_read(link: Seq<char>)
    requires
        link.len() > 0,
        !text::white_space(link[0]),
        !text::white_space(link.last()),
        link[0] != '"',
        link.last() != '"',
    ensures
        token_of(link) == token_of(seq!['"'] + link + seq!['"']),
        url_parts(link) is None ==> token_of(link) is None,
{
    let q = seq!['"'] + link + seq!['"'];
    let mark = Some('"');
    assert(text::start_trimmed(link, None) == link);
    assert(text::end_trimmed(link, None) == link);
    assert(text::start_trimmed(q, None) == q);
    assert(text::end_trimmed(q, None) == q);
    assert(text::start_trimmed(link, mark) == link);
    assert(text::end_trimmed(link, mark) == link);
    let r = q.drop_first();
    assert(r =~= link + seq!['"']);
    assert(r[0] == link[0]);
    assert(text::start_trimmed(r, mark) == r);
    assert(text::start_trimmed(q, mark) == r);
    assert(r.drop_last() =~= link);
    assert(text::end_trimmed(r, mark) == link);
}

/// A path is registered without its quotation marks, and with everything else.
pub proof fn quotation_marks_are_left_out(s: Seq<char>)
    ensures
        without_quotes(s) == s.filter(|c: char| c != '"'),
    decreases s.len(),
{
    reveal(Seq::filter);
    if s.len() > 0 {
        quotation_marks_are_left_out(s.drop_last());
    }
}

proof fn pieces_of_one(s: Seq<char>, sep: char)
    requires
        !s.contains(sep),
    ensures
        pieces(s, sep) == seq![s],
    decreases s.len(),
{
    if s.len() > 0 {
        let front = s.drop_last();
        assert forall|i: int| 0 <= i < front.len() implies front[i] != sep by {
            assert(s[i] == front[i]);
            assert(s.contains(s[i]));
        }
        pieces_of_one(front, sep);
        assert(s.contains(s[s.len() - 1]));
        assert(pieces(s, sep) =~= seq![front.push(s.last())]);
        assert(front.push(s.last()) =~= s);
    } else {
        assert(s =~= Seq::<char>::empty());
        assert(pieces(s, sep) =~= seq![s]);
    }
}

proof fn pieces_behind(a: Seq<char>, b: Seq<char>, sep: char)
    requires
        !a.contains(sep),
    ensures
        pieces(a + seq![sep] + b, sep) == seq![a] + pieces(b, sep),
    decreases b.len(),
{
    let s = a + seq![sep] + b;
    if b.len() == 0 {
        assert(s.drop_last() =~= a);
        pieces_of_one(a, sep);
        assert(pieces(s, sep) =~= seq![a] + pieces(b, sep));
    } else {
        let front = b.drop_last();
        pieces_behind(a, front, sep);
        pieces_not_empty(front, sep);
        assert(s.drop_last() =~= a + seq![sep] + front);
        let before = seq![a] + pieces(front, sep);
        assert(before.last() == pieces(front, sep).last());
        assert(pieces(s, sep) =~= seq![a] + pieces(b, sep));
    }
}

proof fn numerals_hold_digits_only(n: nat, c: char)
    requires
        !('0' <= c <= '9'),
    ensures
        !decimal(n).contains(c),
    decreases n,
{
    let s = decimal(n);
    if n >= 10 {
        numerals_hold_digits_only(n / 10, c);
        assert forall|i: int| 0 <= i < s.len() implies s[i] != c by {
            if i < s.len() - 1 {
                assert(decimal(n / 10)[i] == s[i]);
                assert(decimal(n / 10).contains(s[i]));
            }
        }
    }
}

/// A window is shared by its number and that of its process, and a monitor by its number,
/// with or without the word in front.
pub proof fn sources_read_back(window: u64, process: u32, monitor: usize)
    ensures
        source_named("window"@ + seq![':'] + (decimal(window as nat) + seq![':'] + decimal(
            process as nat,
        ))) == (StreamSourceTarget::Window { window_id: window, process_id: process }),
        source_named("monitor"@ + seq![':'] + decimal(monitor as nat)) == (
        StreamSourceTarget::Monitor { index: monitor }),
        source_named(decimal(monitor as nat)) == (StreamSourceTarget::Monitor { index: monitor }),
        source_named(Seq::empty()) == (StreamSourceTarget::Monitor { index: 0 }),
{
    reveal_strlit("window");
    reveal_strlit("monitor");
    let (w, p, m) = (decimal(window as nat), decimal(process as nat), decimal(monitor as nat));
    numerals_hold_digits_only(window as nat, ':');
    numerals_hold_digits_only(process as nat, ':');
    numerals_hold_digits_only(monitor as nat, ':');
    decimal_reads_back(window as nat, u64::MAX as nat);
    decimal_reads_back(process as nat, u32::MAX as nat);
    decimal_reads_back(monitor as nat, usize::MAX as nat);
    pieces_of_one(p, ':');
    pieces_of_one(m, ':');
    pieces_behind(w, p, ':');
    pieces_behind("window"@, w + seq![':'] + p, ':');
    pieces_behind("monitor"@, m, ':');
    assert(seq!["window"@] + (seq![w] + seq![p]) =~= seq!["window"@, w, p]);
    assert(seq!["monitor"@] + seq![m] =~= seq!["monitor"@, m]);
    let none = Seq::<char>::empty();
    pieces_of_one(none, ':');
}

/// A monitor that a source names, with or without the word in front, is found in the
/// pieces of the text.
pub proof fn numbered_monitors(n: usize)
    ensures
        pieces(decimal(n as nat), ':') == seq![decimal(n as nat)],
        pieces("monitor"@ + seq![':'] + decimal(n as nat), ':') == seq![
            "monitor"@,
            decimal(n as nat),
        ],
{
    reveal_strlit("monitor");
    numerals_hold_digits_only(n as nat, ':');
    pieces_of_one(decimal(n as nat), ':');
    pieces_behind("monitor"@, decimal(n as nat), ':');
    assert(seq!["monitor"@] + seq![decimal(n as nat)] =~= seq!["monitor"@, decimal(n as nat)]);
}

/// The case of letters makes no difference to the name of a preset or to whether a text
/// says yes; a text that names nothing gives 1080 lines at sixty frames a second.
pub proof fn case_makes_no_difference(s: Seq<char>, t: Seq<char>)
    requires
        ascii_lowered(s) == ascii_lowered(t),
    ensures
        preset_named(s) == preset_named(t),
        s.len() > 1 ==> truthy(s) == truthy(t),
        preset_named(Seq::empty()) is P1080F60,
        s.len() > 9 || s.len() < 6 ==> preset_named(s) is P1080F60,
{
    assert(ascii_lowered(s).len() == s.len() && ascii_lowered(t).len() == t.len());
    reveal_strlit("1");
    let none = Seq::<char>::empty();
    reveal_strlit("720P30");
    reveal_strlit("P720F30");
    reveal_strlit("720P60");
    reveal_strlit("P720F60");
    reveal_strlit("720P120");
    reveal_strlit("P720F120");
    reveal_strlit("1080P30");
    reveal_strlit("P1080F30");
    reveal_strlit("1080P120");
    reveal_strlit("P1080F120");
    reveal_strlit("1440P30");
    reveal_strlit("P1440F30");
    reveal_strlit("1440P60");
    reveal_strlit("P1440F60");
    reveal_strlit("1440P90");
    reveal_strlit("P1440F90");
    assert(ascii_lowered(none).len() == 0);
    assert(ascii_lowered("720P30"@).len() == 6 && ascii_lowered("P720F30"@).len() == 7);
    assert(ascii_lowered("720P60"@).len() == 6 && ascii_lowered("P720F60"@).len() == 7);
    assert(ascii_lowered("720P120"@).len() == 7 && ascii_lowered("P720F120"@).len() == 8);
    assert(ascii_lowered("1080P30"@).len() == 7 && ascii_lowered("P1080F30"@).len() == 8);
    assert(ascii_lowered("1080P120"@).len() == 8 && ascii_lowered("P1080F120"@).len() == 9);
    assert(ascii_lowered("1440P30"@).len() == 7 && ascii_lowered("P1440F30"@).len() == 8);
    assert(ascii_lowered("1440P60"@).len() == 7 && ascii_lowered("P1440F60"@).len() == 8);
    assert(ascii_lowered("1440P90"@).len() == 7 && ascii_lowered("P1440F90"@).len() == 8);
}

/// A text says yes where it is `1`, `true` or `on`, and not where it is `0`, `off`, or
/// nothing.
pub proof fn yes_and_no()
    ensures
        truthy("1"@) && truthy("true"@) && truthy("on"@) && truthy("TRUE"@) && truthy("On"@),
        !truthy("0"@) && !truthy("off"@) && !truthy(Seq::empty()) && !truthy("false"@),
{
    reveal_strlit("1");
    reveal_strlit("0");
    reveal_strlit("true");
    reveal_strlit("TRUE");
    reveal_strlit("on");
    reveal_strlit("On");
    reveal_strlit("off");
    reveal_strlit("false");
    assert(ascii_lowered("TRUE"@) =~= ascii_lowered("true"@));
    assert(ascii_lowered("On"@) =~= ascii_lowered("on"@));
    assert("1"@[0] != "0"@[0]);
    assert(ascii_lowered("true"@).len() == 4 && ascii_lowered("on"@).len() == 2);
    assert(ascii_lowered("0"@).len() == 1 && ascii_lowered("off"@).len() == 3 && ascii_lowered(
        "false"@,
    ).len() == 5);
    assert(ascii_lowered(Seq::empty()).len() == 0);
}

/// A stream, in which no unit begins with a zero byte, holds an IDR slice exactly where the
/// three bytes 0, 0 and 1 stand before one whose lower five bits are 5, and one more byte
/// follows.
pub proof fn key_frames_are_recognised(d: Seq<u8>)
    requires
        forall|p: int|
            0 <= p && p + 4 < d.len() && d[p] == 0 && d[p + 1] == 0 && d[p + 2] == 1
                ==> #[trigger] d[p + 3] != 0,
    ensures
        idr_from(d, 0) <==> exists|p: int|
            0 <= p && p + 4 < d.len() && d[p] == 0 && d[p + 1] == 0 && d[p + 2] == 1
                && #[trigger] d[p + 3] % 32 == 5,
{
    assert forall|p: int| #[trigger] start_code_at(d, p) implies d[p + 3] != 0 by {
        assert(0 <= p && p + 4 < d.len() && d[p] == 0 && d[p + 1] == 0 && d[p + 2] == 1);
    }
    idr_is_found_exactly(d);
    if idr_from(d, 0) {
        let p = choose|p: int| #[trigger] start_code_at(d, p) && idr_header(d[p + 3]);
        assert(d[p + 3] % 32 == 5);
    }
    if exists|p: int|
        0 <= p && p + 4 < d.len() && d[p] == 0 && d[p + 1] == 0 && d[p + 2] == 1
            && #[trigger] d[p + 3] % 32 == 5 {
        let p = choose|p: int|
            0 <= p && p + 4 < d.len() && d[p] == 0 && d[p + 1] == 0 && d[p + 2] == 1
                && #[trigger] d[p + 3] % 32 == 5;
        assert(start_code_at(d, p) && idr_header(d[p + 3]));
    }
}

/// Without a start code there is no IDR slice, whatever the bytes are.
pub proof fn no_start_code_no_key_frame(d: Seq<u8>)
    requires
        forall|p: int|
            0 <= p && p + 2 < d.len() ==> !(d[p] == 0 && d[p + 1] == 0 && #[trigger] d[p + 2] == 1),
    ensures
        !idr_from(d, 0),
{
    assert forall|p: int| #[trigger] start_code_at(d, p) implies d[p + 3] != 0 by {
        assert(d[p + 2] == 1);
    }
    idr_is_found_exactly(d);
    if idr_from(d, 0) {
        let p = choose|p: int| #[trigger] start_code_at(d, p) && idr_header(d[p + 3]);
        assert(d[p + 2] == 1);
    }
}

/// The console keeps the newest thousand lines, in order, and all of them where there are
/// no more.
pub proof fn the_newest_lines_are_kept(s: Seq<ConsoleLine>)
    ensures
        kept(s).len() <= 1000,
        s.len() <= 1000 ==> kept(s) == s,
        s.len() > 1000 ==> kept(s).len() == 1000,
        forall|i: int| #![trigger kept(s)[i]]
            0 <= i < kept(s).len() ==> kept(s)[i] == s[s.len() - kept(s).len() + i],
{
}

/// The time of day is written in twelve characters: hours, minutes and seconds of the day,
/// and the thousandths of the second.
pub proof fn times_of_day(secs: u64, millis: u32, h: nat, m: nat, s: nat, day: nat)
    requires
        h < 24,
        m < 60,
        s < 60,
        millis < 1000,
        secs == day * 86400 + h * 3600 + m * 60 + s,
    ensures
        clock_text(secs, millis) == two_digits(h) + ":"@ + two_digits(m) + ":"@ + two_digits(s)
            + "."@ + three_digits(millis as nat),
{
    assert(secs / 3600 == day * 24 + h);
    assert(secs / 60 == day * 1440 + h * 60 + m);
    assert((secs / 3600) % 24 == h);
    assert((secs / 60) % 60 == m);
    assert(secs % 60 == s);
}

/// What a ciphertext decrypts to is the text that the cipher opens it to, where that is one;
/// what the cipher refuses decrypts to nothing.
pub proof fn decryption_is_opening(
    key: Seq<u8>,
    nonce: Seq<u8>,
    c: Seq<u8>,
    message: Seq<char>,
)
    ensures
        opened(key, nonce, c) is None ==> decrypted(key, nonce, c) is None,
        opened(key, nonce, c) == Some(vstd::utf8::encode_utf8(message)) ==> decrypted(
            key,
            nonce,
            c,
        ) == Some(message),
{
    vstd::utf8::encode_utf8_valid_utf8(message);
    vstd::utf8::encode_utf8_decode_utf8(message);
}

} // verus!
