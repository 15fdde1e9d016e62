//! What holds of every text that is trimmed, split, joined, written or read.
use vstd::prelude::*;

use crate::text::{
    ascii_lower, ascii_lowered, decimal, decimal_int, decimal_reads_back, digit_char, end_trimmed,
    has_prefix, is_numeral, joined, numeral_value, parsed_i64, parsed_unsigned, pieces,
    pieces_not_empty, start_trimmed, three_digits, trimmed, trimmed_of, two_digits, until_nul,
    utf16_chars, white_space, without_prefixes,
};

verus! {

proof fn front_is_taken_off(s: Seq<char>, named: Option<char>)
    ensures
        ({
            let r = start_trimmed(s, named);
            let n = s.len() - r.len();
            &&& 0 <= n
            &&& s.skip(n) == r
            &&& r.len() > 0 ==> !(match named {
                Some(q) => r[0] == q,
                None => white_space(r[0]),
            })
            &&& forall|i: int|
                0 <= i < n ==> match named {
                    Some(q) => #[trigger] s[i] == q,
                    None => white_space(s[i]),
                }
        }),
    decreases s.len(),
{
    let r = start_trimmed(s, named);
    if s.len() > 0 && (match named {
        Some(q) => s[0] == q,
        None => white_space(s[0]),
    }) {
        let rest = s.drop_first();
        front_is_taken_off(rest, named);
        let n = s.len() - r.len();
        assert(s.skip(n) =~= rest.skip(n - 1));
        assert forall|i: int| 0 <= i < n implies match named {
            Some(q) => #[trigger] s[i] == q,
            None => white_space(s[i]),
        } by {
            if i > 0 {
                assert(s[i] == rest[i - 1]);
            }
        }
    } else {
        assert(s.skip(0) =~= s);
    }
}

proof fn end_is_taken_off(s: Seq<char>, named: Option<char>)
    ensures
        ({
            let r = end_trimmed(s, named);
            &&& r.len() <= s.len()
            &&& s.take(r.len() as int) == r
            &&& r.len() > 0 ==> !(match named {
                Some(q) => r.last() == q,
                None => white_space(r.last()),
            })
            &&& forall|i: int|
                r.len() <= i < s.len() ==> match named {
                    Some(q) => #[trigger] s[i] == q,
                    None => white_space(s[i]),
                }
        }),
    decreases s.len(),
{
    let r = end_trimmed(s, named);
    if s.len() > 0 && (match named {
        Some(q) => s.last() == q,
        None => white_space(s.last()),
    }) {
        let rest = s.drop_last();
        end_is_taken_off(rest, named);
        assert(s.take(r.len() as int) =~= rest.take(r.len() as int));
        assert forall|i: int| r.len() <= i < s.len() implies match named {
            Some(q) => #[trigger] s[i] == q,
            None => white_space(s[i]),
        } by {
            if i < rest.len() {
                assert(s[i] == rest[i]);
            }
        }
    } else {
        assert(s.take(s.len() as int) =~= s);
    }
}

/// A trimmed text is a stretch of the text: what is in front of it and behind it is white
/// space, and it neither begins nor ends with any.
pub proof fn trimming_takes_white_space_only(s: Seq<char>)
    ensures
        exists|from: int, to: int|
            {
                &&& 0 <= from <= to <= s.len()
                &&& #[trigger] s.subrange(from, to) == trimmed(s)
                &&& forall|i: int| 0 <= i < from ==> white_space(#[trigger] s[i])
                &&& forall|i: int| to <= i < s.len() ==> white_space(#[trigger] s[i])
            },
        trimmed(s).len() > 0 ==> !white_space(trimmed(s)[0]) && !white_space(trimmed(s).last()),
{
    front_is_taken_off(s, None);
    let r = start_trimmed(s, None);
    end_is_taken_off(r, None);
    let t = trimmed(s);
    let from = s.len() - r.len();
    let to = from + t.len();
    assert(s.subrange(from, to) =~= t);
    assert forall|i: int| to <= i < s.len() implies white_space(#[trigger] s[i]) by {
        assert(s[i] == r[i - from]);
    }
    if t.len() > 0 {
        assert(t[0] == r[0]);
    }
}

/// The same of a text of which a given character is taken off.
pub proof fn trimming_takes_the_named_only(s: Seq<char>, q: char)
    ensures
        exists|from: int, to: int|
            {
                &&& 0 <= from <= to <= s.len()
                &&& #[trigger] s.subrange(from, to) == trimmed_of(s, q)
                &&& forall|i: int| 0 <= i < from ==> #[trigger] s[i] == q
                &&& forall|i: int| to <= i < s.len() ==> #[trigger] s[i] == q
            },
        trimmed_of(s, q).len() > 0 ==> trimmed_of(s, q)[0] != q && trimmed_of(s, q).last() != q,
{
    front_is_taken_off(s, Some(q));
    let r = start_trimmed(s, Some(q));
    end_is_taken_off(r, Some(q));
    let t = trimmed_of(s, q);
    let from = s.len() - r.len();
    let to = from + t.len();
    assert(s.subrange(from, to) =~= t);
    assert forall|i: int| to <= i < s.len() implies #[trigger] s[i] == q by {
        assert(s[i] == r[i - from]);
    }
    if t.len() > 0 {
        assert(t[0] == r[0]);
    }
}

/// The blank and the ends of lines are white space; letters and digits are not.
pub proof fn common_white_space(c: char)
    ensures
        c == ' ' || c == '\t' || c == '\n' || c == '\r' ==> white_space(c),
        'a' <= c <= 'z' || 'A' <= c <= 'Z' || '0' <= c <= '9' ==> !white_space(c),
        '!' <= c <= '~' ==> !white_space(c),
{
}

/// Putting the pieces of a text together with what they were split at gives the text
/// back, and no piece holds what it was split at.
pub proof fn pieces_are_joined_back(s: Seq<char>, sep: char)
    ensures
        joined(pieces(s, sep), seq![sep]) == s,
        forall|i: int|
            0 <= i < pieces(s, sep).len() ==> !(#[trigger] pieces(s, sep)[i]).contains(sep),
    decreases s.len(),
{
    let all = pieces(s, sep);
    let mid = seq![sep];
    if s.len() == 0 {
        assert(joined(all, mid) =~= s);
    } else {
        let front = s.drop_last();
        let before = pieces(front, sep);
        pieces_are_joined_back(front, sep);
        pieces_not_empty(front, sep);
        let c = s.last();
        if c == sep {
            assert(all.drop_last() =~= before);
            assert(joined(all, mid) =~= joined(before, mid) + mid + Seq::<char>::empty());
            assert(s =~= front + mid);
            assert forall|i: int| 0 <= i < all.len() implies !(#[trigger] all[i]).contains(sep) by {
                if i < before.len() {
                    assert(all[i] == before[i]);
                }
            }
        } else {
            assert(all.drop_last() =~= before.drop_last());
            assert(all.last() == before.last().push(c));
            if before.len() == 1 {
                assert(joined(all, mid) == all[0]);
                assert(joined(before, mid) == before[0]);
                assert(before[0].push(c) =~= s);
            } else {
                assert(joined(all, mid) =~= joined(before.drop_last(), mid) + mid
                    + before.last().push(c));
                assert(joined(before, mid) =~= joined(before.drop_last(), mid) + mid
                    + before.last());
                assert(joined(all, mid) =~= joined(before, mid).push(c));
                assert(s =~= front.push(c));
            }
            assert forall|i: int| 0 <= i < all.len() implies !(#[trigger] all[i]).contains(sep) by {
                if i < before.len() - 1 {
                    assert(all[i] == before[i]);
                } else {
                    let b = before.last();
                    assert(!before[before.len() - 1].contains(sep));
                    if b.push(c).contains(sep) {
                        let k = choose|k: int| 0 <= k < b.push(c).len() && b.push(c)[k] == sep;
                        if k < b.len() {
                            assert(b[k] == sep);
                        }
                    }
                }
            }
        }
    }
}

/// A numeral that was written with its sign is read as the number that was written.
pub proof fn signed_numerals_read_back(n: i64)
    ensures
        parsed_i64(decimal_int(n as int)) == Some(n as int),
{
    if n < 0 {
        let m = (-n) as nat;
        decimal_reads_back(m, 0x8000_0000_0000_0000);
        decimal_has_no_sign(m);
        let s = decimal_int(n as int);
        assert(s.drop_first() =~= decimal(m));
    } else {
        decimal_reads_back(n as nat, 0x7fff_ffff_ffff_ffff);
        decimal_has_no_sign(n as nat);
    }
}

proof fn decimal_has_no_sign(n: nat)
    ensures
        decimal(n).len() > 0,
        '0' <= decimal(n)[0] <= '9',
    decreases n,
{
    if n >= 10 {
        decimal_has_no_sign(n / 10);
    }
}

/// Numbers below a hundred are written in two digits, of the tens and of the ones; those
/// below a thousand in three.
pub proof fn short_numbers(n: nat)
    ensures
        n < 100 ==> two_digits(n).len() == 2 && (two_digits(n)[0] as u32 - 48) * 10 + (
        two_digits(n)[1] as u32 - 48) == n,
        n < 1000 ==> three_digits(n).len() == 3 && (three_digits(n)[0] as u32 - 48) * 100 + (
        three_digits(n)[1] as u32 - 48) * 10 + (three_digits(n)[2] as u32 - 48) == n,
{
}

/// Lowering changes the capitals from `A` to `Z`, each to its own small letter, and nothing
/// else; lowered texts stay as they are.
pub proof fn lowering_letters(c: char, s: Seq<char>)
    ensures
        'A' <= c <= 'Z' ==> ascii_lower(c) as u32 == c as u32 + 32,
        !('A' <= c <= 'Z') ==> ascii_lower(c) == c,
        ascii_lowered(s).len() == s.len(),
        ascii_lowered(ascii_lowered(s)) == ascii_lowered(s),
{
    assert(ascii_lowered(ascii_lowered(s)) =~= ascii_lowered(s));
}

/// What is left of a text without its leading copies of a prefix does not begin with it,
/// and a text that does not begin with it stays as it is; one more copy in front makes no
/// difference.
pub proof fn prefixes_are_taken_off(s: Seq<char>, prefix: Seq<char>)
    requires
        prefix.len() > 0,
    ensures
        !has_prefix(without_prefixes(s, prefix), prefix),
        !has_prefix(s, prefix) ==> without_prefixes(s, prefix) == s,
        without_prefixes(prefix + s, prefix) == without_prefixes(s, prefix),
    decreases s.len(),
{
    assert((prefix + s).take(prefix.len() as int) =~= prefix);
    assert((prefix + s).skip(prefix.len() as int) =~= s);
    if has_prefix(s, prefix) {
        prefixes_are_taken_off(s.skip(prefix.len() as int), prefix);
    }
}

/// A text begins with a prefix exactly where it is the prefix and something behind it.
pub proof fn prefixes(s: Seq<char>, prefix: Seq<char>, rest: Seq<char>)
    ensures
        has_prefix(prefix + rest, prefix),
        has_prefix(s, prefix) ==> s == prefix + s.skip(prefix.len() as int),
{
    assert((prefix + rest).take(prefix.len() as int) =~= prefix);
    if has_prefix(s, prefix) {
        assert(s =~= prefix + s.skip(prefix.len() as int));
    }
}

/// The units up to the first zero are a beginning of the units that holds no zero, and
/// ends with them or before a zero.
pub proof fn units_up_to_zero(u: Seq<u16>)
    ensures
        until_nul(u).len() <= u.len(),
        u.take(until_nul(u).len() as int) == until_nul(u),
        forall|i: int| 0 <= i < until_nul(u).len() ==> #[trigger] u[i] != 0,
        until_nul(u).len() < u.len() ==> u[until_nul(u).len() as int] == 0,
    decreases u.len(),
{
    if u.len() > 0 && u[0] != 0 {
        let rest = u.skip(1);
        units_up_to_zero(rest);
        let r = until_nul(u);
        assert(u.take(r.len() as int) =~= r) by {
            assert forall|i: int| 0 <= i < r.len() implies u[i] == r[i] by {
                if i > 0 {
                    assert(u[i] == rest[i - 1]);
                    assert(rest.take(until_nul(rest).len() as int)[i - 1] == rest[i - 1]);
                }
            }
        }
        assert forall|i: int| 0 <= i < r.len() implies #[trigger] u[i] != 0 by {
            if i > 0 {
                assert(u[i] == rest[i - 1]);
            }
        }
        if r.len() < u.len() {
            assert(u[r.len() as int] == rest[r.len() - 1]);
        }
    } else {
        assert(u.take(0) =~= Seq::<u16>::empty());
    }
}

/// Units that are no surrogates stand each for the character with their number.
pub proof fn plain_units_are_characters(u: Seq<u16>)
    requires
        forall|i: int| 0 <= i < u.len() ==> #[trigger] u[i] < 0xd800 || u[i] >= 0xe000,
    ensures
        utf16_chars(u).len() == u.len(),
        forall|i: int| 0 <= i < u.len() ==> #[trigger] utf16_chars(u)[i] == (u[i] as u32) as char,
    decreases u.len(),
{
    if u.len() > 0 {
        let rest = u.skip(1);
        assert forall|i: int| 0 <= i < rest.len() implies #[trigger] rest[i] < 0xd800 || rest[i]
            >= 0xe000 by {
            assert(rest[i] == u[i + 1]);
        }
        plain_units_are_characters(rest);
        assert forall|i: int| 0 <= i < u.len() implies #[trigger] utf16_chars(u)[i] == (
        u[i] as u32) as char by {
            if i > 0 {
                assert(u[i] == rest[i - 1]);
            }
        }
    }
}

/// A numeral is read where it consists of digits, after one plus sign at most, and is not
/// above the largest number; a digit at its end is worth itself, and ten times less than
/// one that a digit follows.
pub proof fn numerals_are_read(s: Seq<char>, d: char, max: nat)
    requires
        is_numeral(s),
        '0' <= d <= '9',
    ensures
        numeral_value(s.push(d)) == 10 * numeral_value(s) + (d as u32 - 48),
        parsed_unsigned(s, max) == if numeral_value(s) <= max {
            Some(numeral_value(s))
        } else {
            None
        },
        parsed_unsigned(seq!['+'] + s, max) == parsed_unsigned(s, max),
        parsed_unsigned(seq!['-'] + s, max) is None,
        parsed_unsigned(Seq::empty(), max) is None,
{
    assert(s.push(d).drop_last() =~= s);
    assert((seq!['+'] + s).drop_first() =~= s);
    assert('0' <= s[0] <= '9');
    let m = seq!['-'] + s;
    assert(m[0] == '-');
}

} // verus!
