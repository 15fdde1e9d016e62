//! The letters that stand for people and servers without a picture.
use vstd::prelude::*;

use crate::text;

verus! {

/// What `str::to_uppercase` makes of a text.
pub uninterp spec fn uppercased(s: Seq<char>) -> Seq<char>;

/// `str::to_uppercase`.
#[verifier::external_body]
fn to_uppercase(s: &str) -> (r: String)
    ensures
        r@ == uppercased(s@),
{
    s.to_uppercase()
}

/// The letter for a name: its first character in upper case, or a question mark.
pub open spec fn letter_of(name: Seq<char>) -> Seq<char> {
    if name.len() == 0 {
        "?"@
    } else {
        uppercased(name.take(1))
    }
}

/// The letter for a name.
pub fn avatar_letter(display_name: &str) -> (r: String)
    ensures
        r@ == letter_of(display_name@),
{
    let cs = text::chars_of(display_name);
    if cs.len() == 0 {
        return "?".to_owned();
    }
    let first = text::string_of(&cs, 0, 1);
    assert(cs@.subrange(0, 1) =~= cs@.take(1));
    to_uppercase(first.as_str())
}

/// The first characters of the words of a text, in order.
pub open spec fn word_initials(s: Seq<char>) -> Seq<char>
    decreases s.len(),
{
    if s.len() == 0 {
        s
    } else {
        let before = word_initials(s.drop_last());
        let starts = s.len() == 1 || text::white_space(s[s.len() - 2]);
        if !text::white_space(s.last()) && starts {
            before.push(s.last())
        } else {
            before
        }
    }
}

/// The first characters of the first two words of a text.
pub open spec fn two_initials(s: Seq<char>) -> Seq<char> {
    let all = word_initials(s);
    if all.len() <= 2 {
        all
    } else {
        all.take(2)
    }
}

/// The first characters of the first two words of a text.
pub fn initials(s: &str) -> (r: String)
    ensures
        r@ == two_initials(s@),
{
    let cs = text::chars_of(s);
    let mut found: Vec<char> = Vec::new();
    let mut i: usize = 0;
    while i < cs.len()
        invariant
            cs@ == s@,
            i <= cs@.len(),
            found@ == word_initials(s@.take(i as int)),
        decreases cs@.len() - i,
    {
        let ghost t = s@.take(i + 1);
        assert(t.drop_last() =~= s@.take(i as int));
        assert(i > 0 ==> t[t.len() - 2] == cs@[i - 1]);
        let starts = i == 0 || text::is_white_space(cs[i - 1]);
        if !text::is_white_space(cs[i]) && starts {
            found.push(cs[i]);
        }
        i += 1;
    }
    assert(s@.take(i as int) =~= s@);
    let n: usize = if found.len() <= 2 {
        found.len()
    } else {
        2
    };
    let r = text::string_of(&found, 0, n);
    assert(r@ =~= two_initials(s@));
    r
}

/// The letters for a server: those of its name's first two words in upper case,
/// or a question mark.
pub open spec fn glyph_of(name: Seq<char>) -> Seq<char> {
    let g = uppercased(two_initials(name));
    if g.len() == 0 {
        "?"@
    } else {
        g
    }
}

/// The letters for a server, given its initials in upper case.
pub fn glyph_or_mark(upper: String) -> (r: String)
    ensures
        r@ == if upper@.len() == 0 {
            "?"@
        } else {
            upper@
        },
{
    if upper.as_str().is_empty() {
        "?".to_owned()
    } else {
        upper
    }
}

/// The letters for a server.
pub fn server_glyph(name: &str) -> (r: String)
    ensures
        r@ == glyph_of(name@),
{
    let two = initials(name);
    glyph_or_mark(to_uppercase(two.as_str()))
}

} // verus!
