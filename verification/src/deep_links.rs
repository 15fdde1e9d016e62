//! Links of the form `astrix://invite/TOKEN` that open the application, and how
//! it is registered for them.
use vstd::prelude::*;

use crate::text;

verus! {

/// The parts of a URL that an invitation is read from.
#[derive(Debug, Clone, PartialEq, Eq)]
pub struct UrlParts {
    pub scheme: String,
    pub host: Option<String>,
    /// The segments of the path, where it has any.
    pub segments: Option<Vec<String>>,
    /// The keys and values of the query, decoded, in order.
    pub query: Vec<(String, String)>,
}

/// The pairs of a query, by their characters.
pub open spec fn pair_texts(q: Seq<(String, String)>) -> Seq<(Seq<char>, Seq<char>)> {
    q.map_values(|p: (String, String)| (p.0@, p.1@))
}

impl View for UrlParts {
    type V = (
        Seq<char>,
        Option<Seq<char>>,
        Option<Seq<Seq<char>>>,
        Seq<(Seq<char>, Seq<char>)>,
    );

    open spec fn view(&self) -> Self::V {
        (
            self.scheme@,
            match self.host {
                Some(h) => Some(h@),
                None => None,
            },
            match self.segments {
                Some(s) => Some(text::texts(s@)),
                None => None,
            },
            pair_texts(self.query@),
        )
    }
}

/// What `url::Url::parse` makes of a text, if it is a URL: its scheme, its host,
/// the segments of its path, and the pairs of its query.
pub uninterp spec fn url_parts(text: Seq<char>) -> Option<
    (Seq<char>, Option<Seq<char>>, Option<Seq<Seq<char>>>, Seq<(Seq<char>, Seq<char>)>),
>;

/// `url::Url::parse`, and of its result `scheme`, `host_str`, `path_segments` and
/// `query_pairs`, as plain values.
#[verifier::external_body]
fn parse_url(text: &str) -> (r: Option<UrlParts>)
    ensures
        match r {
            Some(parts) => url_parts(text@) == Some(parts@),
            None => url_parts(text@) is None,
        },
{
    let url = url::Url::parse(text).ok()?;
    Some(
        UrlParts {
            scheme: url.scheme().to_string(),
            host: url.host_str().map(|h| h.to_string()),
            segments: url.path_segments().map(|s| s.map(|p| p.to_string()).collect()),
            query: url.query_pairs().map(|(k, v)| (k.into_owned(), v.into_owned())).collect(),
        },
    )
}

/// The value of the first pair with the key `token`.
pub open spec fn token_pair(q: Seq<(Seq<char>, Seq<char>)>) -> Option<Seq<char>>
    decreases q.len(),
{
    if q.len() == 0 {
        None
    } else if q[0].0 == "token"@ {
        Some(q[0].1)
    } else {
        token_pair(q.drop_first())
    }
}

/// The token of an invitation: the first segment of the path where that is not
/// empty, else the query's `token`.
pub open spec fn token_in(
    scheme: Seq<char>,
    host: Option<Seq<char>>,
    segments: Option<Seq<Seq<char>>>,
    query: Seq<(Seq<char>, Seq<char>)>,
) -> Option<Seq<char>> {
    if scheme != "astrix"@ || host != Some("invite"@) {
        None
    } else {
        match segments {
            Some(s) => if s.len() > 0 && s[0].len() > 0 {
                Some(s[0])
            } else {
                token_pair(query)
            },
            None => token_pair(query),
        }
    }
}

/// The token that an argument carries: white space and then quotation marks are
/// taken off its ends, and what is left is read as a URL.
pub open spec fn token_of(arg: Seq<char>) -> Option<Seq<char>> {
    match url_parts(text::trimmed_of(text::trimmed(arg), '"')) {
        Some((scheme, host, segments, query)) => token_in(scheme, host, segments, query),
        None => None,
    }
}

/// The first token that one of the arguments carries.
pub open spec fn first_token(args: Seq<Seq<char>>) -> Option<Seq<char>>
    decreases args.len(),
{
    if args.len() == 0 {
        None
    } else if token_of(args[0]) is Some {
        token_of(args[0])
    } else {
        first_token(args.drop_first())
    }
}

/// A text that may be absent, by its characters.
pub open spec fn opt_chars(s: Option<String>) -> Option<Seq<char>> {
    match s {
        Some(t) => Some(t@),
        None => None,
    }
}

/// The token of an invitation.
pub fn invite_token(parts: &UrlParts) -> (r: Option<String>)
    ensures
        opt_chars(r) == token_in(parts@.0, parts@.1, parts@.2, parts@.3),
{
    let for_us = match &parts.host {
        Some(h) => text::same(h.as_str(), "invite"),
        None => false,
    };
    if !text::same(parts.scheme.as_str(), "astrix") || !for_us {
        return None;
    }
    if let Some(segments) = &parts.segments {
        if segments.len() > 0 && !segments[0].as_str().is_empty() {
            assert(text::texts(segments@)[0] == segments@[0]@);
            return Some(segments[0].clone());
        }
        assert(segments@.len() > 0 ==> text::texts(segments@)[0] == segments@[0]@);
    }
    let ghost pairs = pair_texts(parts.query@);
    let mut i: usize = 0;
    assert(pairs.skip(0) =~= pairs);
    while i < parts.query.len()
        invariant
            i <= parts.query@.len(),
            pairs == pair_texts(parts.query@),
            token_pair(pairs) == token_pair(pairs.skip(i as int)),
            token_in(parts@.0, parts@.1, parts@.2, parts@.3) == token_pair(pairs),
        decreases parts.query@.len() - i,
    {
        assert(pairs.skip(i as int)[0] == pairs[i as int]);
        assert(pairs.skip(i as int).drop_first() =~= pairs.skip(i + 1));
        if text::same(parts.query[i].0.as_str(), "token") {
            return Some(parts.query[i].1.clone());
        }
        i += 1;
    }
    None
}

/// The token that an argument carries.
pub fn extract_invite_token(raw: &str) -> (r: Option<String>)
    ensures
        opt_chars(r) == token_of(raw@),
{
    let trimmed = text::trim(raw);
    let arg = text::trim_matches(trimmed.as_str(), '"');
    match parse_url(arg.as_str()) {
        Some(parts) => invite_token(&parts),
        None => None,
    }
}

/// The first token that the command line carries. Its first word names the
/// program.
pub fn extract_invite_token_from_args(args: &Vec<String>) -> (r: Option<String>)
    ensures
        opt_chars(r) == if args@.len() == 0 {
            None
        } else {
            first_token(text::texts(args@).skip(1))
        },
{
    let ghost all = text::texts(args@);
    let mut i: usize = 1;
    while i < args.len()
        invariant
            1 <= i,
            args@.len() > 0 ==> i <= args@.len(),
            all == text::texts(args@),
            args@.len() > 0 ==> first_token(all.skip(1)) == first_token(all.skip(i as int)),
        decreases args@.len() - i,
    {
        let token = extract_invite_token(args[i].as_str());
        assert(all.skip(i as int)[0] == args@[i as int]@);
        if token.is_some() {
            return token;
        }
        assert(all.skip(i as int).drop_first() =~= all.skip(i + 1));
        i += 1;
    }
    None
}

/// A value of the registry.
#[derive(Debug, Clone, PartialEq, Eq)]
pub struct RegistryValue {
    pub key: String,
    pub name: String,
    pub data: String,
}

/// The values of a list, by their characters.
pub open spec fn value_texts(v: Seq<RegistryValue>) -> Seq<(Seq<char>, Seq<char>, Seq<char>)> {
    v.map_values(|r: RegistryValue| (r.key@, r.name@, r.data@))
}

/// `s` without quotation marks.
pub open spec fn without_quotes(s: Seq<char>) -> Seq<char>
    decreases s.len(),
{
    if s.len() == 0 {
        s
    } else if s.last() == '"' {
        without_quotes(s.drop_last())
    } else {
        without_quotes(s.drop_last()).push(s.last())
    }
}

fn unquoted(s: &str) -> (r: String)
    ensures
        r@ == without_quotes(s@),
{
    let cs = text::chars_of(s);
    let mut r = String::new();
    let mut i: usize = 0;
    while i < cs.len()
        invariant
            i <= cs@.len(),
            r@ == without_quotes(cs@.take(i as int)),
        decreases cs@.len() - i,
    {
        assert(cs@.take(i + 1).drop_last() =~= cs@.take(i as int));
        if cs[i] != '"' {
            r.push(cs[i]);
        }
        i += 1;
    }
    assert(cs@.take(i as int) =~= cs@);
    r
}

fn registry_value(key: &str, name: &str, data: String) -> (r: RegistryValue)
    ensures
        r.key@ == key@,
        r.name@ == name@,
        r.data == data,
{
    RegistryValue { key: key.to_owned(), name: name.to_owned(), data }
}

/// The values, under the current user's root, that make the program the handler
/// of its links.
pub fn register_protocol_handler(exe_path: &str) -> (r: Vec<RegistryValue>)
    ensures
        ({
            let exe = without_quotes(exe_path@);
            value_texts(r@) == seq![
                ("Software\\Classes\\astrix"@, ""@, "URL:Astrix Protocol"@),
                ("Software\\Classes\\astrix"@, "URL Protocol"@, ""@),
                ("Software\\Classes\\astrix\\DefaultIcon"@, ""@, "\""@ + exe + "\",0"@),
                (
                    "Software\\Classes\\astrix\\shell\\open\\command"@,
                    ""@,
                    "\""@ + exe + "\" \"%1\""@,
                ),
            ]
        }),
{
    let exe = unquoted(exe_path);
    let mut icon = "\"".to_owned();
    icon.push_str(exe.as_str());
    icon.push_str("\",0");
    let mut command = "\"".to_owned();
    command.push_str(exe.as_str());
    command.push_str("\" \"%1\"");
    let mut r: Vec<RegistryValue> = Vec::new();
    r.push(registry_value("Software\\Classes\\astrix", "", "URL:Astrix Protocol".to_owned()));
    r.push(registry_value("Software\\Classes\\astrix", "URL Protocol", "".to_owned()));
    r.push(registry_value("Software\\Classes\\astrix\\DefaultIcon", "", icon));
    r.push(registry_value("Software\\Classes\\astrix\\shell\\open\\command", "", command));
    assert(value_texts(r@) =~= seq![
        ("Software\\Classes\\astrix"@, ""@, "URL:Astrix Protocol"@),
        ("Software\\Classes\\astrix"@, "URL Protocol"@, ""@),
        ("Software\\Classes\\astrix\\DefaultIcon"@, ""@, "\""@ + exe@ + "\",0"@),
        (
            "Software\\Classes\\astrix\\shell\\open\\command"@,
            ""@,
            "\""@ + exe@ + "\" \"%1\""@,
        ),
    ]);
    r
}

} // verus!
