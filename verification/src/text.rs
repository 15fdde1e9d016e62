//! Text helpers shared by the other modules: comparison, trimming, splitting,
//! and decimal numbers.
use vstd::prelude::*;
use vstd::string::StringSliceAdditionalSpecFns;
use vstd::utf8::{decode_utf8, is_char_boundary, valid_utf8};

verus! {

/// `String::push` appends one character.
pub assume_specification[ String::push ](s: &mut String, ch: char)
    ensures
        final(s)@ == old(s)@.push(ch),
;

/// `String::push_str` appends a string slice.
pub assume_specification[ String::push_str ](s: &mut String, string: &str)
    ensures
        final(s)@ == old(s)@ + string@,
;

/// The characters of `s`, in order.
pub fn chars_of(s: &str) -> (out: Vec<char>)
    ensures
        out@ == s@,
{
    let mut out: Vec<char> = Vec::new();
    for c in it: s.chars()
        invariant
            out@ == it.seq().take(it.index() as int),
            it.seq() == s@,
    {
        out.push(c);
        assert(out@ =~= it.seq().take(it.index() + 1));
    }
    assert(out@ =~= s@);
    out
}

/// The string made of `chars[from..to]`.
pub fn string_of(chars: &Vec<char>, from: usize, to: usize) -> (out: String)
    requires
        from <= to <= chars@.len(),
    ensures
        out@ == chars@.subrange(from as int, to as int),
{
    let mut out = String::new();
    let mut i: usize = from;
    while i < to
        invariant
            from <= i <= to <= chars@.len(),
            out@ == chars@.subrange(from as int, i as int),
        decreases to - i,
    {
        out.push(chars[i]);
        i += 1;
        assert(out@ =~= chars@.subrange(from as int, i as int));
    }
    out
}

/// Whether two strings hold the same characters.
pub fn same(a: &str, b: &str) -> (r: bool)
    ensures
        r == (a@ == b@),
{
    let ca = chars_of(a);
    let cb = chars_of(b);
    if ca.len() != cb.len() {
        return false;
    }
    let mut i: usize = 0;
    while i < ca.len()
        invariant
            ca@ == a@,
            cb@ == b@,
            ca@.len() == cb@.len(),
            i <= ca@.len(),
            forall|k: int| 0 <= k < i ==> ca@[k] == cb@[k],
        decreases ca@.len() - i,
    {
        if ca[i] != cb[i] {
            return false;
        }
        i += 1;
    }
    assert(a@ =~= b@);
    true
}

/// `s` with `A`..`Z` replaced by `a`..`z`.
pub open spec fn ascii_lower(c: char) -> char {
    if 'A' <= c && c <= 'Z' {
        ((c as u32 + 32) as u8) as char
    } else {
        c
    }
}

/// `s` with `A`..`Z` replaced by `a`..`z`, character by character.
pub open spec fn ascii_lowered(s: Seq<char>) -> Seq<char> {
    s.map_values(|c: char| ascii_lower(c))
}

/// The lower-case form of an ASCII capital; any other character as it is.
pub fn lower_char(c: char) -> (r: char)
    ensures
        r == ascii_lower(c),
{
    if 'A' <= c && c <= 'Z' {
        ((c as u32 + 32) as u8) as char
    } else {
        c
    }
}

/// `s` with every ASCII capital lowered.
pub fn to_ascii_lowercase(s: &str) -> (r: String)
    ensures
        r@ == ascii_lowered(s@),
{
    let cs = chars_of(s);
    let mut r = String::new();
    let mut i: usize = 0;
    while i < cs.len()
        invariant
            cs@ == s@,
            i <= cs@.len(),
            r@ == ascii_lowered(s@.take(i as int)),
        decreases cs@.len() - i,
    {
        r.push(lower_char(cs[i]));
        i += 1;
        assert(r@ =~= ascii_lowered(s@.take(i as int)));
    }
    assert(s@.take(i as int) =~= s@);
    r
}

/// Whether two strings are equal once every ASCII capital is lowered.
pub fn eq_ignore_ascii_case(a: &str, b: &str) -> (r: bool)
    ensures
        r == (ascii_lowered(a@) == ascii_lowered(b@)),
{
    let la = to_ascii_lowercase(a);
    let lb = to_ascii_lowercase(b);
    la == lb
}

/// The characters with Unicode's White_Space property.
pub open spec fn white_space(c: char) -> bool {
    let u = c as u32;
    ||| 0x9 <= u <= 0xd
    ||| u == 0x20
    ||| u == 0x85
    ||| u == 0xa0
    ||| u == 0x1680
    ||| 0x2000 <= u <= 0x200a
    ||| u == 0x2028
    ||| u == 0x2029
    ||| u == 0x202f
    ||| u == 0x205f
    ||| u == 0x3000
}

/// Whether `c` is white space.
pub fn is_white_space(c: char) -> (r: bool)
    ensures
        r == white_space(c),
{
    let u: u32 = c as u32;
    (0x9 <= u && u <= 0xd) || u == 0x20 || u == 0x85 || u == 0xa0 || u == 0x1680 || (0x2000 <= u
        && u <= 0x200a) || u == 0x2028 || u == 0x2029 || u == 0x202f || u == 0x205f || u == 0x3000
}

/// Whether a trim takes `c` off: white space when no character is named, else
/// the character that is.
pub open spec fn trims(c: char, named: Option<char>) -> bool {
    match named {
        Some(q) => c == q,
        None => white_space(c),
    }
}

/// `s` without the leading characters that a trim takes off.
pub open spec fn start_trimmed(s: Seq<char>, named: Option<char>) -> Seq<char>
    decreases s.len(),
{
    if s.len() > 0 && trims(s[0], named) {
        start_trimmed(s.drop_first(), named)
    } else {
        s
    }
}

/// `s` without the trailing characters that a trim takes off.
pub open spec fn end_trimmed(s: Seq<char>, named: Option<char>) -> Seq<char>
    decreases s.len(),
{
    if s.len() > 0 && trims(s.last(), named) {
        end_trimmed(s.drop_last(), named)
    } else {
        s
    }
}

/// `s` without the white space at either end.
pub open spec fn trimmed(s: Seq<char>) -> Seq<char> {
    end_trimmed(start_trimmed(s, None), None)
}

/// `s` without the characters `q` at either end.
pub open spec fn trimmed_of(s: Seq<char>, q: char) -> Seq<char> {
    end_trimmed(start_trimmed(s, Some(q)), Some(q))
}

fn is_trimmed(c: char, named: Option<char>) -> (r: bool)
    ensures
        r == trims(c, named),
{
    match named {
        Some(q) => c == q,
        None => is_white_space(c),
    }
}

/// The index of the first character that a trim keeps.
fn trim_front(cs: &Vec<char>, named: Option<char>) -> (from: usize)
    ensures
        from <= cs@.len(),
        cs@.skip(from as int) == start_trimmed(cs@, named),
{
    let mut from: usize = 0;
    assert(cs@.skip(0) =~= cs@);
    while from < cs.len() && is_trimmed(cs[from], named)
        invariant
            from <= cs@.len(),
            start_trimmed(cs@, named) == start_trimmed(cs@.skip(from as int), named),
        decreases cs@.len() - from,
    {
        assert(cs@.skip(from as int).drop_first() =~= cs@.skip(from as int + 1));
        from += 1;
    }
    from
}

/// The end of what a trim keeps of `cs[from..]`.
fn trim_back(cs: &Vec<char>, from: usize, named: Option<char>) -> (to: usize)
    requires
        from <= cs@.len(),
    ensures
        from <= to <= cs@.len(),
        cs@.subrange(from as int, to as int) == end_trimmed(cs@.skip(from as int), named),
{
    let ghost rest = cs@.skip(from as int);
    let mut to: usize = cs.len();
    assert(cs@.subrange(from as int, to as int) =~= rest);
    while to > from && is_trimmed(cs[to - 1], named)
        invariant
            from <= to <= cs@.len(),
            end_trimmed(rest, named) == end_trimmed(cs@.subrange(from as int, to as int), named),
        decreases to,
    {
        let ghost kept = cs@.subrange(from as int, to as int);
        assert(kept.drop_last() =~= cs@.subrange(from as int, to - 1));
        to -= 1;
    }
    to
}

/// `s` without the white space at either end.
pub fn trim(s: &str) -> (r: String)
    ensures
        r@ == trimmed(s@),
{
    let cs = chars_of(s);
    let from: usize = trim_front(&cs, None);
    let to: usize = trim_back(&cs, from, None);
    string_of(&cs, from, to)
}

/// `s` without the characters `q` at either end.
pub fn trim_matches(s: &str, q: char) -> (r: String)
    ensures
        r@ == trimmed_of(s@, q),
{
    let cs = chars_of(s);
    let from: usize = trim_front(&cs, Some(q));
    let to: usize = trim_back(&cs, from, Some(q));
    string_of(&cs, from, to)
}

/// `s` without the characters `q` at its end.
pub fn trim_end_matches(s: &str, q: char) -> (r: String)
    ensures
        r@ == end_trimmed(s@, Some(q)),
{
    let cs = chars_of(s);
    let to: usize = trim_back(&cs, 0, Some(q));
    assert(cs@.skip(0) =~= s@);
    string_of(&cs, 0, to)
}

/// Whether `s` begins with `prefix`.
pub open spec fn has_prefix(s: Seq<char>, prefix: Seq<char>) -> bool {
    prefix.len() <= s.len() && s.take(prefix.len() as int) == prefix
}

/// `s` with every leading copy of `prefix` taken off.
pub open spec fn without_prefixes(s: Seq<char>, prefix: Seq<char>) -> Seq<char>
    decreases s.len(),
{
    if prefix.len() > 0 && has_prefix(s, prefix) {
        without_prefixes(s.skip(prefix.len() as int), prefix)
    } else {
        s
    }
}

/// Whether `cs[at..]` begins with `prefix`.
fn prefix_at(cs: &Vec<char>, at: usize, prefix: &Vec<char>) -> (r: bool)
    requires
        at <= cs@.len(),
    ensures
        r == has_prefix(cs@.skip(at as int), prefix@),
{
    if cs.len() - at < prefix.len() {
        return false;
    }
    let mut i: usize = 0;
    while i < prefix.len()
        invariant
            at + prefix.len() <= cs.len(),
            i <= prefix@.len(),
            forall|k: int| 0 <= k < i ==> cs@[at + k] == prefix@[k],
        decreases prefix@.len() - i,
    {
        if cs[at + i] != prefix[i] {
            assert(cs@.skip(at as int).take(prefix@.len() as int)[i as int] != prefix@[i as int]);
            return false;
        }
        i += 1;
    }
    assert(cs@.skip(at as int).take(prefix@.len() as int) =~= prefix@);
    true
}

/// Whether `s` begins with `prefix`.
pub fn starts_with(s: &str, prefix: &str) -> (r: bool)
    ensures
        r == has_prefix(s@, prefix@),
{
    let cs = chars_of(s);
    let ps = chars_of(prefix);
    assert(cs@.skip(0) =~= s@);
    prefix_at(&cs, 0, &ps)
}

/// `s` with every leading copy of `prefix` taken off.
pub fn trim_start_matches(s: &str, prefix: &str) -> (r: String)
    ensures
        r@ == without_prefixes(s@, prefix@),
{
    let cs = chars_of(s);
    let ps = chars_of(prefix);
    let mut at: usize = 0;
    assert(cs@.skip(0) =~= s@);
    while ps.len() > 0 && prefix_at(&cs, at, &ps)
        invariant
            cs@ == s@,
            ps@ == prefix@,
            at <= cs.len(),
            without_prefixes(s@, ps@) == without_prefixes(cs@.skip(at as int), ps@),
        decreases cs@.len() - at,
    {
        assert(cs@.skip(at as int).skip(ps@.len() as int) =~= cs@.skip(at + ps@.len()));
        assert(at + ps.len() <= cs.len());
        at += ps.len();
    }
    assert(cs@.subrange(at as int, cs@.len() as int) =~= cs@.skip(at as int));
    string_of(&cs, at, cs.len())
}

/// The pieces of `s` between the characters `sep`; one more than there are
/// separators.
pub open spec fn pieces(s: Seq<char>, sep: char) -> Seq<Seq<char>>
    decreases s.len(),
{
    if s.len() == 0 {
        seq![Seq::<char>::empty()]
    } else {
        let before = pieces(s.drop_last(), sep);
        if s.last() == sep {
            before.push(Seq::<char>::empty())
        } else {
            before.update(before.len() - 1, before.last().push(s.last()))
        }
    }
}

pub proof fn pieces_not_empty(s: Seq<char>, sep: char)
    ensures
        pieces(s, sep).len() > 0,
    decreases s.len(),
{
    if s.len() > 0 {
        pieces_not_empty(s.drop_last(), sep);
    }
}

/// The strings of a list, by their characters.
pub open spec fn texts(v: Seq<String>) -> Seq<Seq<char>> {
    v.map_values(|s: String| s@)
}

/// The pieces of `s` between the characters `sep`.
pub fn split(s: &str, sep: char) -> (out: Vec<String>)
    ensures
        texts(out@) == pieces(s@, sep),
{
    let cs = chars_of(s);
    let mut out: Vec<String> = Vec::new();
    let mut cur = String::new();
    let mut i: usize = 0;
    assert(texts(out@).push(cur@) =~= pieces(s@.take(0), sep));
    while i < cs.len()
        invariant
            cs@ == s@,
            i <= cs@.len(),
            texts(out@).push(cur@) == pieces(s@.take(i as int), sep),
        decreases cs@.len() - i,
    {
        let c = cs[i];
        assert(s@.take(i + 1).drop_last() =~= s@.take(i as int));
        if c == sep {
            let ghost before = texts(out@).push(cur@);
            out.push(cur);
            cur = String::new();
            assert(texts(out@) =~= before);
        } else {
            cur.push(c);
        }
        i += 1;
        assert(texts(out@).push(cur@) =~= pieces(s@.take(i as int), sep));
    }
    assert(s@.take(i as int) =~= s@);
    let ghost done = texts(out@).push(cur@);
    out.push(cur);
    assert(texts(out@) =~= done);
    out
}

/// `parts` put one after another with `sep` between neighbours.
pub open spec fn joined(parts: Seq<Seq<char>>, sep: Seq<char>) -> Seq<char>
    decreases parts.len(),
{
    if parts.len() == 0 {
        Seq::empty()
    } else if parts.len() == 1 {
        parts[0]
    } else {
        joined(parts.drop_last(), sep) + sep + parts.last()
    }
}

/// `parts` put one after another with `sep` between neighbours.
pub fn join(parts: &Vec<String>, sep: &str) -> (out: String)
    ensures
        out@ == joined(texts(parts@), sep@),
{
    let mut out = String::new();
    let mut i: usize = 0;
    while i < parts.len()
        invariant
            i <= parts@.len(),
            out@ == joined(texts(parts@).take(i as int), sep@),
        decreases parts@.len() - i,
    {
        let ghost all = texts(parts@);
        assert(all.take(i + 1).drop_last() =~= all.take(i as int));
        if i > 0 {
            out.push_str(sep);
        }
        out.push_str(parts[i].as_str());
        i += 1;
        assert(out@ =~= joined(all.take(i as int), sep@));
    }
    assert(texts(parts@).take(i as int) =~= texts(parts@));
    out
}

/// The character of a decimal digit.
pub open spec fn digit_char(d: nat) -> char {
    ((48 + d) as u8) as char
}

/// The decimal numeral of `n`, without leading zeros.
pub open spec fn decimal(n: nat) -> Seq<char>
    decreases n,
{
    if n < 10 {
        seq![digit_char(n)]
    } else {
        decimal(n / 10).push(digit_char(n % 10))
    }
}

/// The decimal numeral of an integer, with a minus sign below zero.
pub open spec fn decimal_int(n: int) -> Seq<char> {
    if n < 0 {
        seq!['-'] + decimal((-n) as nat)
    } else {
        decimal(n as nat)
    }
}

/// `n mod 100` in exactly two digits.
pub open spec fn two_digits(n: nat) -> Seq<char> {
    seq![digit_char((n / 10) % 10), digit_char(n % 10)]
}

/// `n mod 1000` in exactly three digits.
pub open spec fn three_digits(n: nat) -> Seq<char> {
    seq![digit_char((n / 100) % 10), digit_char((n / 10) % 10), digit_char(n % 10)]
}

/// Appends one decimal digit.
pub fn push_digit(out: &mut String, d: u64)
    requires
        d < 10,
    ensures
        final(out)@ == old(out)@.push(digit_char(d as nat)),
{
    out.push((48 + d as u8) as char);
}

/// Appends the decimal numeral of `n`.
pub fn push_decimal(out: &mut String, n: u64)
    ensures
        final(out)@ == old(out)@ + decimal(n as nat),
    decreases n,
{
    if n >= 10 {
        push_decimal(out, n / 10);
    }
    push_digit(out, n % 10);
    assert(out@ =~= old(out)@ + decimal(n as nat));
}

/// Appends the decimal numeral of an `i64`.
pub fn push_decimal_int(out: &mut String, n: i64)
    ensures
        final(out)@ == old(out)@ + decimal_int(n as int),
{
    if n < 0 {
        out.push('-');
        let magnitude: u64 = if n == i64::MIN {
            0x8000_0000_0000_0000
        } else {
            (-n) as u64
        };
        push_decimal(out, magnitude);
        assert(out@ =~= old(out)@ + decimal_int(n as int));
    } else {
        push_decimal(out, n as u64);
    }
}

/// Appends `n mod 100` in two digits.
pub fn push_two_digits(out: &mut String, n: u64)
    ensures
        final(out)@ == old(out)@ + two_digits(n as nat),
{
    push_digit(out, (n / 10) % 10);
    push_digit(out, n % 10);
    assert(out@ =~= old(out)@ + two_digits(n as nat));
}

/// Appends `n mod 1000` in three digits.
pub fn push_three_digits(out: &mut String, n: u64)
    ensures
        final(out)@ == old(out)@ + three_digits(n as nat),
{
    push_digit(out, (n / 100) % 10);
    push_digit(out, (n / 10) % 10);
    push_digit(out, n % 10);
    assert(out@ =~= old(out)@ + three_digits(n as nat));
}

/// The decimal numeral of `n`.
pub fn decimal_text(n: u64) -> (out: String)
    ensures
        out@ == decimal(n as nat),
{
    let mut out = String::new();
    push_decimal(&mut out, n);
    assert(out@ =~= decimal(n as nat));
    out
}

/// The decimal numeral of an `i64`.
pub fn decimal_int_text(n: i64) -> (out: String)
    ensures
        out@ == decimal_int(n as int),
{
    let mut out = String::new();
    push_decimal_int(&mut out, n);
    assert(out@ =~= decimal_int(n as int));
    out
}

/// Whether `c` is an ASCII decimal digit.
pub open spec fn is_digit(c: char) -> bool {
    '0' <= c && c <= '9'
}

/// Whether `s` consists of one or more ASCII digits.
pub open spec fn is_numeral(s: Seq<char>) -> bool {
    s.len() > 0 && forall|i: int| 0 <= i < s.len() ==> is_digit(#[trigger] s[i])
}

/// The number that a sequence of digits stands for.
pub open spec fn numeral_value(s: Seq<char>) -> nat
    decreases s.len(),
{
    if s.len() == 0 {
        0
    } else {
        numeral_value(s.drop_last()) * 10 + (s.last() as u32 - 48) as nat
    }
}

/// `s` without one leading plus sign.
pub open spec fn unsigned_part(s: Seq<char>) -> Seq<char> {
    if s.len() > 0 && s[0] == '+' {
        s.drop_first()
    } else {
        s
    }
}

/// What a decimal numeral, with or without a plus sign, stands for, if it is at
/// most `max`.
pub open spec fn parsed_unsigned(s: Seq<char>, max: nat) -> Option<nat> {
    let digits = unsigned_part(s);
    if is_numeral(digits) && numeral_value(digits) <= max {
        Some(numeral_value(digits))
    } else {
        None
    }
}

/// What a decimal numeral, with or without a sign, stands for, if it fits in
/// 64 bits.
pub open spec fn parsed_i64(s: Seq<char>) -> Option<int> {
    if s.len() > 0 && s[0] == '-' {
        let digits = s.drop_first();
        if is_numeral(digits) && numeral_value(digits) <= 0x8000_0000_0000_0000 {
            Some(-(numeral_value(digits) as int))
        } else {
            None
        }
    } else {
        match parsed_unsigned(s, 0x7fff_ffff_ffff_ffff) {
            Some(n) => Some(n as int),
            None => None,
        }
    }
}

proof fn numeral_value_grows(s: Seq<char>, k: int)
    requires
        is_numeral(s),
        0 <= k <= s.len(),
    ensures
        numeral_value(s.take(k)) <= numeral_value(s),
    decreases s.len() - k,
{
    if k < s.len() {
        assert(is_digit(s[k]));
        assert(s.take(k + 1).drop_last() =~= s.take(k));
        assert(s.take(k + 1).last() == s[k]);
        numeral_value_grows(s, k + 1);
    } else {
        assert(s.take(k) =~= s);
    }
}

/// The value of the digits `cs[from..]`, if they are a numeral of at most `max`.
fn numeral_at(cs: &Vec<char>, from: usize, max: u64) -> (r: Option<u64>)
    requires
        from <= cs@.len(),
    ensures
        match r {
            Some(n) => is_numeral(cs@.skip(from as int)) && numeral_value(cs@.skip(from as int)) == n
                && n <= max,
            None => !(is_numeral(cs@.skip(from as int)) && numeral_value(cs@.skip(from as int))
                <= max),
        },
{
    let ghost digits = cs@.skip(from as int);
    if from == cs.len() {
        return None;
    }
    let mut n: u64 = 0;
    let mut i: usize = from;
    while i < cs.len()
        invariant
            digits == cs@.skip(from as int),
            from <= i <= cs@.len(),
            forall|k: int| 0 <= k < i - from ==> is_digit(#[trigger] digits[k]),
            n == numeral_value(digits.take(i - from)),
            n <= max,
        decreases cs@.len() - i,
    {
        let c = cs[i];
        assert(digits[i - from] == c);
        if !('0' <= c && c <= '9') {
            return None;
        }
        let d: u64 = (c as u32 - 48) as u64;
        proof {
            assert(digits.take(i - from + 1).drop_last() =~= digits.take(i - from));
            if is_numeral(digits) {
                numeral_value_grows(digits, i - from + 1);
            }
        }
        if n > max / 10 || n * 10 > max - d.min(max) || d > max {
            return None;
        }
        n = n * 10 + d;
        i += 1;
    }
    assert(digits.take(digits.len() as int) =~= digits);
    Some(n)
}

/// Reads a decimal numeral, with or without a plus sign, of at most `max`.
pub fn parse_unsigned(s: &str, max: u64) -> (r: Option<u64>)
    ensures
        match r {
            Some(n) => parsed_unsigned(s@, max as nat) == Some(n as nat),
            None => parsed_unsigned(s@, max as nat) is None,
        },
{
    let cs = chars_of(s);
    assert(s@.skip(0) =~= s@);
    if cs.len() > 0 && cs[0] == '+' {
        assert(s@.skip(1) =~= s@.drop_first());
        numeral_at(&cs, 1, max)
    } else {
        numeral_at(&cs, 0, max)
    }
}

/// Reads an `i64` in decimal, with or without a sign.
pub fn parse_i64(s: &str) -> (r: Option<i64>)
    ensures
        match r {
            Some(n) => parsed_i64(s@) == Some(n as int),
            None => parsed_i64(s@) is None,
        },
{
    let cs = chars_of(s);
    if cs.len() > 0 && cs[0] == '-' {
        assert(s@.skip(1) =~= s@.drop_first());
        match numeral_at(&cs, 1, 0x8000_0000_0000_0000) {
            Some(n) => {
                if n == 0x8000_0000_0000_0000 {
                    Some(i64::MIN)
                } else {
                    Some(-(n as i64))
                }
            },
            None => None,
        }
    } else {
        match parse_unsigned(s, 0x7fff_ffff_ffff_ffff) {
            Some(n) => Some(n as i64),
            None => None,
        }
    }
}

/// Reading back a numeral that was written gives the number that was written.
pub proof fn decimal_reads_back(n: nat, max: nat)
    requires
        n <= max,
    ensures
        parsed_unsigned(decimal(n), max) == Some(n),
{
    decimal_is_numeral(n);
    assert(is_digit(decimal(n)[0]));
}

proof fn decimal_is_numeral(n: nat)
    ensures
        is_numeral(decimal(n)),
        numeral_value(decimal(n)) == n,
    decreases n,
{
    if n < 10 {
        assert(decimal(n).drop_last() =~= Seq::<char>::empty());
        assert(numeral_value(Seq::<char>::empty()) == 0);
    } else {
        decimal_is_numeral(n / 10);
        let front = decimal(n / 10);
        let all = decimal(n);
        assert(all.drop_last() =~= front);
        assert forall|i: int| 0 <= i < all.len() implies is_digit(#[trigger] all[i]) by {
            if i < front.len() {
                assert(all[i] == front[i]);
            }
        }
    }
}

/// `char::from_u32` gives the character with the code point, if it is one: at
/// most `10FFFF` and no surrogate.
pub assume_specification[ char::from_u32 ](i: u32) -> (r: Option<char>)
    ensures
        match r {
            Some(c) => c as u32 == i && (i < 0xd800 || 0xe000 <= i <= 0x10ffff),
            None => 0xd800 <= i < 0xe000 || i > 0x10ffff,
        },
;

/// The character that a surrogate pair stands for.
pub open spec fn pair_char(high: u16, low: u16) -> char {
    ((0x10000 + (high - 0xd800) * 0x400 + (low - 0xdc00)) as u32) as char
}

/// What UTF-16 code units stand for, with U+FFFD for each surrogate that is not
/// part of a pair.
pub open spec fn utf16_chars(u: Seq<u16>) -> Seq<char>
    decreases u.len(),
{
    if u.len() == 0 {
        Seq::empty()
    } else if u.len() > 1 && 0xd800 <= u[0] < 0xdc00 && 0xdc00 <= u[1] < 0xe000 {
        seq![pair_char(u[0], u[1])] + utf16_chars(u.skip(2))
    } else if 0xd800 <= u[0] < 0xe000 {
        seq!['\u{fffd}'] + utf16_chars(u.skip(1))
    } else {
        seq![(u[0] as u32) as char] + utf16_chars(u.skip(1))
    }
}

/// The units before the first zero.
pub open spec fn until_nul(u: Seq<u16>) -> Seq<u16>
    decreases u.len(),
{
    if u.len() == 0 || u[0] == 0 {
        Seq::empty()
    } else {
        seq![u[0]] + until_nul(u.skip(1))
    }
}

/// What UTF-16 code units stand for, up to the first zero.
pub fn wide_text(units: &Vec<u16>) -> (out: String)
    ensures
        out@ == utf16_chars(until_nul(units@)),
{
    let mut end: usize = 0;
    assert(units@.take(0) + until_nul(units@.skip(0)) =~= until_nul(units@)) by {
        assert(units@.skip(0) =~= units@);
    }
    while end < units.len() && units[end] != 0
        invariant
            end <= units@.len(),
            units@.take(end as int) + until_nul(units@.skip(end as int)) == until_nul(units@),
        decreases units@.len() - end,
    {
        assert(units@.skip(end as int).skip(1) =~= units@.skip(end + 1));
        assert(units@.take(end as int) + (seq![units@[end as int]] + until_nul(
            units@.skip(end + 1),
        )) =~= units@.take(end + 1) + until_nul(units@.skip(end + 1)));
        end += 1;
    }
    let ghost text = until_nul(units@);
    assert(text =~= units@.take(end as int));
    let mut out = String::new();
    let mut i: usize = 0;
    assert(text.skip(0) =~= text);
    assert(out@ + utf16_chars(text.skip(0)) =~= utf16_chars(text));
    while i < end
        invariant
            i <= end <= units@.len(),
            text == units@.take(end as int),
            out@ + utf16_chars(text.skip(i as int)) == utf16_chars(text),
        decreases end - i,
    {
        let ghost rest = text.skip(i as int);
        let ghost before = out@;
        let u: u16 = units[i];
        assert(rest[0] == u);
        assert(rest.skip(1) =~= text.skip(i + 1));
        if 0xd800 <= u && u < 0xdc00 && i + 1 < end && 0xdc00 <= units[i + 1] && units[i + 1]
            < 0xe000 {
            let low: u16 = units[i + 1];
            assert(rest[1] == low);
            assert(rest.skip(2) =~= text.skip(i + 2));
            let code: u32 = 0x10000 + (u as u32 - 0xd800) * 0x400 + (low as u32 - 0xdc00);
            if let Some(c) = char::from_u32(code) {
                proof {
                    vstd::utf8::char_u32_cast(c, code);
                }
                assert(c == pair_char(u, low));
                out.push(c);
                assert(before + (seq![c] + utf16_chars(text.skip(i + 2))) =~= out@ + utf16_chars(
                    text.skip(i + 2),
                ));
            }
            i += 2;
        } else if 0xd800 <= u && u < 0xe000 {
            out.push('\u{fffd}');
            assert(before + (seq!['\u{fffd}'] + utf16_chars(text.skip(i + 1))) =~= out@
                + utf16_chars(text.skip(i + 1)));
            i += 1;
        } else {
            if let Some(c) = char::from_u32(u as u32) {
                proof {
                    vstd::utf8::char_u32_cast(c, u as u32);
                }
                out.push(c);
                assert(before + (seq![c] + utf16_chars(text.skip(i + 1))) =~= out@ + utf16_chars(
                    text.skip(i + 1),
                ));
            }
            i += 1;
        }
    }
    assert(out@ =~= utf16_chars(text));
    out
}

/// The character of a hexadecimal digit.
pub open spec fn hex_char(d: nat) -> char {
    if d < 10 {
        digit_char(d)
    } else {
        ((87 + d) as u8) as char
    }
}

/// The hexadecimal numeral of `n` in lower case, without leading zeros.
pub open spec fn hexadecimal(n: nat) -> Seq<char>
    decreases n,
{
    if n < 16 {
        seq![hex_char(n)]
    } else {
        hexadecimal(n / 16).push(hex_char(n % 16))
    }
}

/// Appends the hexadecimal numeral of `n`.
pub fn push_hexadecimal(out: &mut String, n: u64)
    ensures
        final(out)@ == old(out)@ + hexadecimal(n as nat),
    decreases n,
{
    if n >= 16 {
        push_hexadecimal(out, n / 16);
    }
    let d: u8 = (n % 16) as u8;
    if d < 10 {
        out.push((48 + d) as char);
    } else {
        out.push((87 + d) as char);
    }
    assert(out@ =~= old(out)@ + hexadecimal(n as nat));
}

/// In UTF-8 an ASCII byte is a character of its own.
pub proof fn ascii_byte_bounds(bytes: Seq<u8>, i: int)
    requires
        valid_utf8(bytes),
        0 <= i < bytes.len(),
        bytes[i] < 0x80,
    ensures
        is_char_boundary(bytes, i),
        is_char_boundary(bytes, i + 1),
{
    let b = bytes[i];
    assert(!vstd::utf8::is_continuation_byte(b) && vstd::utf8::is_leading_byte_width_1(b)) by {
        assert(b & 0xc0 != 0x80 && b & 0x80 == 0) by (bit_vector)
            requires
                b < 0x80,
        ;
    }
    vstd::utf8::is_char_boundary_iff_not_is_continuation_byte(bytes, i);
    vstd::utf8::valid_utf8_split(bytes, i);
    let rest = bytes.subrange(i, bytes.len() as int);
    assert(rest[0] == b);
    assert(valid_utf8(rest));
    assert(vstd::utf8::length_of_first_scalar(rest) == 1);
    let next = vstd::utf8::pop_first_scalar(rest);
    assert(valid_utf8(next));
    if i + 1 < bytes.len() {
        assert(next[0] == bytes[i + 1]);
        assert(vstd::utf8::valid_first_scalar(next));
        let c = next[0];
        vstd::utf8::is_char_boundary_start_end_of_seq(next);
        vstd::utf8::is_char_boundary_iff_not_is_continuation_byte(next, 0);
        vstd::utf8::is_char_boundary_iff_not_is_continuation_byte(bytes, i + 1);
    } else {
        vstd::utf8::is_char_boundary_start_end_of_seq(bytes);
    }
}

/// The text of the bytes from one character boundary to another.
pub fn byte_range(s: &str, from: usize, to: usize) -> (r: String)
    requires
        from <= to <= s.spec_bytes().len(),
        is_char_boundary(s.spec_bytes(), from as int),
        is_char_boundary(s.spec_bytes(), to as int),
    ensures
        r@ == decode_utf8(s.spec_bytes().subrange(from as int, to as int)),
{
    let ghost bytes = s.spec_bytes();
    proof {
        vstd::utf8::encode_utf8_valid_utf8(s@);
    }
    let (head, _tail) = s.split_at(to);
    proof {
        let h = head.spec_bytes();
        vstd::utf8::encode_utf8_valid_utf8(head@);
        if from < to {
            vstd::utf8::is_char_boundary_iff_not_is_continuation_byte(bytes, from as int);
            vstd::utf8::is_char_boundary_iff_not_is_continuation_byte(h, from as int);
        } else {
            vstd::utf8::is_char_boundary_start_end_of_seq(h);
        }
    }
    let (_front, part) = head.split_at(from);
    proof {
        vstd::utf8::encode_utf8_decode_utf8(part@);
        assert(part.spec_bytes() =~= bytes.subrange(from as int, to as int));
    }
    part.to_owned()
}

} // verus!
