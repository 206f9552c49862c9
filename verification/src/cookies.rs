//! The session cookie: how the client's `Cookie` headers are read for the
//! session token, and the `Set-Cookie` values that start and end a session.
use vstd::prelude::*;
use vstd::string::*;
use crate::token::{decimal_digits, spec_parse_token, parse_token, law_token_text_roundtrip,
    is_digit, all_digits};

verus! {

/// A byte that `HeaderValue::to_str` accepts: visible ASCII or a tab.
pub open spec fn is_visible_ascii(b: u8) -> bool {
    (32 <= b && b < 127) || b == 9
}

/// The text of a header value, when every byte is visible ASCII
/// (`HeaderValue::to_str`); none otherwise.
pub open spec fn header_text(bytes: Seq<u8>) -> Option<Seq<char>> {
    if forall|i: int| 0 <= i < bytes.len() ==> #[trigger] is_visible_ascii(bytes[i]) {
        Some(Seq::new(bytes.len(), |i: int| bytes[i] as char))
    } else {
        None
    }
}

/// Unicode `White_Space`, as `char::is_whitespace` and `str::trim` use it.
pub open spec fn is_whitespace(c: char) -> bool {
    ||| ('\u{9}' <= c && c <= '\u{d}')
    ||| c == ' '
    ||| c == '\u{85}'
    ||| c == '\u{a0}'
    ||| c == '\u{1680}'
    ||| ('\u{2000}' <= c && c <= '\u{200a}')
    ||| c == '\u{2028}'
    ||| c == '\u{2029}'
    ||| c == '\u{202f}'
    ||| c == '\u{205f}'
    ||| c == '\u{3000}'
}

pub open spec fn trim_start(s: Seq<char>) -> Seq<char>
    decreases s.len(),
{
    if s.len() > 0 && is_whitespace(s[0]) {
        trim_start(s.drop_first())
    } else {
        s
    }
}

pub open spec fn trim_end(s: Seq<char>) -> Seq<char>
    decreases s.len(),
{
    if s.len() > 0 && is_whitespace(s.last()) {
        trim_end(s.drop_last())
    } else {
        s
    }
}

/// `str::trim`: leading and trailing white space removed.
pub open spec fn trim(s: Seq<char>) -> Seq<char> {
    trim_end(trim_start(s))
}

/// Position of the first `c` in `s`.
pub open spec fn find_char(s: Seq<char>, c: char) -> Option<nat>
    decreases s.len(),
{
    if s.len() == 0 {
        None
    } else if s[0] == c {
        Some(0)
    } else {
        match find_char(s.drop_first(), c) {
            Some(i) => Some(i + 1),
            None => None,
        }
    }
}

/// What stands before the first `c` in `s` (all of `s` if there is none).
pub open spec fn before_char(s: Seq<char>, c: char) -> Seq<char> {
    match find_char(s, c) {
        Some(i) => s.take(i as int),
        None => s,
    }
}

/// Name and value of a cookie as `Cookie::parse` reads them: the part before
/// the first `;` must hold an `=`; the name is what stands before the first
/// `=`, the value what follows it, both trimmed; an empty name is refused.
/// Attributes after the first `;` never make parsing fail.
pub open spec fn cookie_pair(text: Seq<char>) -> Option<(Seq<char>, Seq<char>)> {
    let pair = before_char(text, ';');
    match find_char(pair, '=') {
        Some(i) => {
            let name = trim(pair.take(i as int));
            let value = trim(pair.skip(i + 1int));
            if name.len() == 0 {
                None
            } else {
                Some((name, value))
            }
        },
        None => None,
    }
}

/// The name of the session cookie.
pub open spec fn session_cookie_name() -> Seq<char> {
    "session_token"@
}

/// The value of the first `Cookie` header, in order, that reads as text and
/// parses as a cookie named `session_token`.
pub open spec fn session_cookie_value(headers: Seq<Seq<u8>>) -> Option<Seq<char>>
    decreases headers.len(),
{
    if headers.len() == 0 {
        None
    } else {
        let rest = session_cookie_value(headers.drop_first());
        match header_text(headers[0]) {
            Some(text) => match cookie_pair(text) {
                Some(pair) => if pair.0 == session_cookie_name() {
                    Some(pair.1)
                } else {
                    rest
                },
                None => rest,
            },
            None => rest,
        }
    }
}

/// The session token that a request carries: the value of its session
/// cookie read as a decimal `u128`.
pub open spec fn spec_session_token(headers: Seq<Seq<u8>>) -> Option<u128> {
    match session_cookie_value(headers) {
        Some(value) => spec_parse_token(value),
        None => None,
    }
}

/// Calls `HeaderValue::from_bytes` and `HeaderValue::to_str` of the `http`
/// crate (through axum): the bytes read as text exactly when each is visible
/// ASCII or a tab, and the text is then the bytes taken as characters.
#[verifier::external_body]
fn header_value_text(bytes: &[u8]) -> (text: Option<String>)
    ensures
        match text {
            Some(t) => header_text(bytes@) == Some(t@),
            None => header_text(bytes@) is None,
        },
{
    match axum::http::HeaderValue::from_bytes(bytes) {
        Ok(value) => match value.to_str() {
            Ok(s) => Some(s.to_string()),
            Err(_) => None,
        },
        Err(_) => None,
    }
}

/// Calls `Cookie::parse` of `axum_extra` (the `cookie` crate, through
/// `FromStr`) and keeps the name and the raw value; the contract is the
/// name/value part of that parser as its source writes it (`cookie_pair`).
#[verifier::external_body]
fn parse_cookie(text: &str) -> (pair: Option<(String, String)>)
    ensures
        match pair {
            Some(p) => cookie_pair(text@) == Some((p.0@, p.1@)),
            None => cookie_pair(text@) is None,
        },
{
    match text.parse::<axum_extra::extract::cookie::Cookie>() {
        Ok(cookie) => Some((cookie.name().to_string(), cookie.value().to_string())),
        Err(_) => None,
    }
}

/// Finds the session token in the values of a request's `Cookie` headers:
/// the first header that is text and parses as a cookie named
/// `session_token` decides, and its value must read as a decimal `u128`.
pub fn find_session_token(cookie_headers: &Vec<Vec<u8>>) -> (token: Option<u128>)
    ensures
        token == spec_session_token(cookie_headers@.map_values(|h: Vec<u8>| h@)),
{
    let ghost all = cookie_headers@.map_values(|h: Vec<u8>| h@);
    let expected = String::from_str("session_token");
    proof {
        assert(expected@ == session_cookie_name());
        assert(all.skip(0) =~= all);
    }
    let mut i: usize = 0;
    while i < cookie_headers.len()
        invariant
            i <= cookie_headers.len(),
            all == cookie_headers@.map_values(|h: Vec<u8>| h@),
            expected@ == session_cookie_name(),
            session_cookie_value(all) == session_cookie_value(all.skip(i as int)),
        decreases cookie_headers.len() - i,
    {
        let ghost here = all.skip(i as int);
        assert(here[0] == cookie_headers[i as int]@);
        assert(here.drop_first() =~= all.skip(i + 1));
        match header_value_text(cookie_headers[i].as_slice()) {
            Some(text) => match parse_cookie(text.as_str()) {
                Some(pair) => {
                    if pair.0 == expected {
                        return parse_token(pair.1.as_str());
                    }
                },
                None => {},
            },
            None => {},
        }
        i = i + 1;
    }
    assert(all.skip(i as int) =~= Seq::<Seq<u8>>::empty());
    None
}

/// The answer that sets a cookie and sends an htmx client elsewhere:
/// status, `Set-Cookie` value and `HX-Redirect` target.
pub struct HtmxRedirect {
    pub status: u16,
    pub set_cookie: String,
    pub redirect_to: String,
}

/// The `Set-Cookie` value that hands a session token to the client.
pub open spec fn session_cookie(token_text: Seq<char>) -> Seq<char> {
    session_cookie_name() + seq!['='] + token_text + "; Max-Age=999999"@
}

/// The `Set-Cookie` value that makes the client drop its session cookie.
pub open spec fn expired_session_cookie() -> Seq<char> {
    session_cookie_name() + seq!['=', '_'] + "; Max-Age=0"@
}

/// The answer after a successful registration or login: status 200, the
/// session cookie set to `session_token`, and a redirect to `/`.
pub fn set_cookie(session_token: &str) -> (reply: HtmxRedirect)
    ensures
        reply.status == 200,
        reply.set_cookie@ == session_cookie(session_token@),
        reply.redirect_to@ == "/"@,
{
    let mut value = String::from_str("session_token=");
    value.append(session_token);
    value.append("; Max-Age=999999");
    proof {
        reveal_strlit("session_token=");
        reveal_strlit("session_token");
        assert(value@ =~= session_cookie(session_token@));
    }
    HtmxRedirect { status: 200, set_cookie: value, redirect_to: String::from_str("/") }
}

/// The answer to a logout: status 200, the session cookie replaced by an
/// expired one holding `_`, and a redirect to `/login`.
pub fn logout_reply() -> (reply: HtmxRedirect)
    ensures
        reply.status == 200,
        reply.set_cookie@ == expired_session_cookie(),
        reply.redirect_to@ == "/login"@,
{
    let value = String::from_str("session_token=_; Max-Age=0");
    proof {
        reveal_strlit("session_token=_; Max-Age=0");
        reveal_strlit("session_token");
        reveal_strlit("; Max-Age=0");
        assert(value@ =~= expired_session_cookie());
    }
    HtmxRedirect { status: 200, set_cookie: value, redirect_to: String::from_str("/login") }
}

/// How the `Cookie` headers are searched, one header at a time: a header
/// that is not text, does not parse as a cookie, or parses as a cookie of
/// another name is skipped (the answer is that of the headers after it); the
/// first header that parses as a cookie named `session_token` decides, with
/// its value; with no headers left there is no session cookie. Whatever
/// other cookies come before, a request's token is that of its first
/// session cookie.
pub proof fn law_session_cookie_search(h: Seq<u8>, rest: Seq<Seq<u8>>)
    ensures
        session_cookie_value(Seq::<Seq<u8>>::empty()) is None,
        spec_session_token(Seq::<Seq<u8>>::empty()) is None,
        match header_text(h) {
            None => session_cookie_value(seq![h] + rest) == session_cookie_value(rest)
                && spec_session_token(seq![h] + rest) == spec_session_token(rest),
            Some(text) => match cookie_pair(text) {
                None => session_cookie_value(seq![h] + rest) == session_cookie_value(rest)
                    && spec_session_token(seq![h] + rest) == spec_session_token(rest),
                Some(pair) => if pair.0 == "session_token"@ {
                    session_cookie_value(seq![h] + rest) == Some(pair.1)
                        && spec_session_token(seq![h] + rest) == spec_parse_token(pair.1)
                } else {
                    session_cookie_value(seq![h] + rest) == session_cookie_value(rest)
                        && spec_session_token(seq![h] + rest) == spec_session_token(rest)
                },
            },
        },
{
    let all = seq![h] + rest;
    assert(all[0] == h);
    assert(all.drop_first() =~= rest);
}

/// A character that a visible-ASCII header byte stands for.
pub open spec fn is_visible_ascii_char(c: char) -> bool {
    (32 <= (c as int) && (c as int) < 127) || (c as int) == 9
}

/// The bytes of an ASCII text.
pub open spec fn ascii_bytes(s: Seq<char>) -> Seq<u8> {
    Seq::new(s.len(), |i: int| s[i] as u8)
}

proof fn lemma_header_text_ascii(s: Seq<char>)
    requires
        forall|i: int| 0 <= i < s.len() ==> #[trigger] is_visible_ascii_char(s[i]),
    ensures
        header_text(ascii_bytes(s)) == Some(s),
{
    let b = ascii_bytes(s);
    assert forall|i: int| 0 <= i < b.len() implies #[trigger] is_visible_ascii(b[i]) by {
        assert(is_visible_ascii_char(s[i]));
    }
    assert forall|i: int| 0 <= i < s.len() implies (b[i] as char) == s[i] by {
        assert(is_visible_ascii_char(s[i]));
        assert((s[i] as u8) as int == s[i] as int);
        assert(((s[i] as u8) as char) as int == s[i] as int);
    }
    assert(Seq::new(b.len(), |i: int| b[i] as char) =~= s);
}

proof fn lemma_find_char_after(a: Seq<char>, b: Seq<char>, c: char)
    requires
        forall|i: int| 0 <= i < a.len() ==> a[i] != c,
    ensures
        find_char(a + b, c) == match find_char(b, c) {
            Some(i) => Some(a.len() + i),
            None => None::<nat>,
        },
    decreases a.len(),
{
    if a.len() == 0 {
        assert(a + b =~= b);
    } else {
        assert((a + b)[0] == a[0]);
        assert((a + b).drop_first() =~= a.drop_first() + b);
        lemma_find_char_after(a.drop_first(), b, c);
    }
}

proof fn lemma_trim_plain(s: Seq<char>)
    requires
        s.len() > 0,
        !is_whitespace(s[0]),
        !is_whitespace(s.last()),
    ensures
        trim(s) == s,
{
}

/// The cookie pair `session_token=<value>`, followed by attributes or by
/// nothing, read from a header that holds just it.
proof fn lemma_session_cookie_value(value: Seq<char>, attributes: Seq<char>)
    requires
        value.len() > 0,
        !is_whitespace(value[0]),
        !is_whitespace(value.last()),
        forall|i: int| 0 <= i < value.len() ==> #[trigger] is_visible_ascii_char(value[i]),
        forall|i: int| 0 <= i < value.len() ==> value[i] != ';',
        attributes.len() == 0 || attributes[0] == ';',
        forall|i: int| 0 <= i < attributes.len() ==> #[trigger] is_visible_ascii_char(
            attributes[i],
        ),
    ensures
        session_cookie_value(
            seq![ascii_bytes(session_cookie_name() + seq!['='] + value + attributes)],
        ) == Some(value),
{
    reveal_strlit("session_token");
    let name = session_cookie_name();
    let pre = name + seq!['='] + value;
    let text = pre + attributes;
    assert forall|i: int| 0 <= i < text.len() implies #[trigger] is_visible_ascii_char(text[i]) by {
        if i < name.len() + 1 {
        } else if i < pre.len() {
            assert(text[i] == value[i - name.len() - 1]);
        } else {
            assert(text[i] == attributes[i - pre.len()]);
        }
    }
    lemma_header_text_ascii(text);
    assert forall|i: int| 0 <= i < pre.len() implies pre[i] != ';' by {
        if i >= name.len() + 1 {
            assert(pre[i] == value[i - name.len() - 1]);
        }
    }
    lemma_find_char_after(pre, attributes, ';');
    if attributes.len() > 0 {
        assert(find_char(attributes, ';') == Some(0nat));
        assert(text.take(pre.len() as int) =~= pre);
    } else {
        assert(find_char(attributes, ';') == None::<nat>);
        assert(text =~= pre);
    }
    assert(before_char(text, ';') == pre);
    assert forall|i: int| 0 <= i < name.len() implies name[i] != '=' by {}
    lemma_find_char_after(name, seq!['='] + value, '=');
    assert(find_char(seq!['='] + value, '=') == Some(0nat));
    assert(name + (seq!['='] + value) =~= pre);
    assert(find_char(pre, '=') == Some(name.len()));
    assert(pre.take(name.len() as int) =~= name);
    assert(pre.skip(name.len() + 1int) =~= value);
    lemma_trim_plain(name);
    lemma_trim_plain(value);
    assert(cookie_pair(text) == Some((name, value)));
    let headers = seq![ascii_bytes(text)];
    assert(headers.drop_first() =~= Seq::<Seq<u8>>::empty());
    assert(session_cookie_value(Seq::<Seq<u8>>::empty()) == None::<Seq<char>>);
}

/// A client that sends back the session cookie it was given, with or
/// without attributes after a `;`, is recognised by the token it was given.
pub proof fn law_session_cookie_roundtrip(t: u128, attributes: Seq<char>)
    requires
        attributes.len() == 0 || attributes[0] == ';',
        forall|i: int| 0 <= i < attributes.len() ==> #[trigger] is_visible_ascii_char(
            attributes[i],
        ),
    ensures
        spec_session_token(
            seq![ascii_bytes(session_cookie_name() + seq!['='] + decimal_digits(t as nat) + attributes)],
        ) == Some(t),
{
    let d = decimal_digits(t as nat);
    law_token_text_roundtrip(t);
    assert(all_digits(d) && d.len() > 0) by {
        crate::token::lemma_decimal_digits(t as nat);
    }
    assert(is_digit(d[0]));
    assert(is_digit(d.last()));
    assert forall|i: int| 0 <= i < d.len() implies #[trigger] is_visible_ascii_char(d[i]) by {
        assert(is_digit(d[i]));
    }
    assert forall|i: int| 0 <= i < d.len() implies d[i] != ';' by {
        assert(is_digit(d[i]));
    }
    lemma_session_cookie_value(d, attributes);
}

/// The very `Set-Cookie` value that a login or registration answers with,
/// read as a cookie header, yields the session token it was made from.
pub proof fn law_set_cookie_read_back(t: u128)
    ensures
        spec_session_token(seq![ascii_bytes(session_cookie(decimal_digits(t as nat)))]) == Some(t),
{
    reveal_strlit("; Max-Age=999999");
    let attributes = "; Max-Age=999999"@;
    assert forall|i: int| 0 <= i < attributes.len() implies #[trigger] is_visible_ascii_char(
        attributes[i],
    ) by {}
    law_session_cookie_roundtrip(t, attributes);
}

/// After a logout the client holds `session_token=_`, which names no
/// session: a request carrying it has no session token.
pub proof fn law_logout_cookie_has_no_token()
    ensures
        spec_session_token(seq![ascii_bytes(expired_session_cookie())]) == None::<u128>,
        spec_session_token(seq![ascii_bytes(session_cookie_name() + seq!['=', '_'])]) == None::<u128>,
{
    reveal_strlit("; Max-Age=0");
    let attributes = "; Max-Age=0"@;
    let value = seq!['_'];
    assert forall|i: int| 0 <= i < attributes.len() implies #[trigger] is_visible_ascii_char(
        attributes[i],
    ) by {}
    assert(session_cookie_name() + seq!['=', '_'] + attributes =~= session_cookie_name() + seq![
        '=',
    ] + value + attributes);
    lemma_session_cookie_value(value, attributes);
    let empty = Seq::<char>::empty();
    assert(session_cookie_name() + seq!['=', '_'] =~= session_cookie_name() + seq!['='] + value
        + empty);
    lemma_session_cookie_value(value, empty);
    assert(!all_digits(value)) by {
        assert(!is_digit(value[0]));
    }
}

} // verus!
