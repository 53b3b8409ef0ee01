//! HTTP header fields of requests to the control server.

use vstd::prelude::*;
use vstd::slice::slice_subrange;
use vstd::utf8::encode_utf8;

use crate::control::{
    AGENT_CONFIG_TOKEN_HEADER, AGENT_ID_HEADER, AUTHORIZATION_HEADER, BEARER_PREFIX,
    CONFIG_SESSION_ID_HEADER,
};
use crate::secret::{secret_matches, sha256_of};
use crate::text::{
    chars_of, chars_start_with, is_blank, lemma_trimmed_empty, text_of, trim, trimmed,
};

verus! {

/// Declares `axum::http::HeaderMap`, of which nothing is known but what
/// [`fields_of`] says.
#[verifier::external_type_specification]
#[verifier::external_body]
#[verifier::reject_recursive_types(T)]
pub struct ExHeaderMap<T>(axum::http::HeaderMap<T>);

/// Declares `axum::http::HeaderValue`, of which nothing is known.
#[verifier::external_type_specification]
#[verifier::external_body]
pub struct ExHeaderValue(axum::http::HeaderValue);

/// What an `axum::http::HeaderMap` holds: under each name, in lower case, the
/// bytes of the first value.
pub uninterp spec fn fields_of(headers: axum::http::HeaderMap) -> Map<Seq<char>, Seq<u8>>;

/// A header name in lower case, made of letters, digits and hyphens.
pub open spec fn is_field_name(name: Seq<char>) -> bool {
    &&& name.len() > 0
    &&& forall|i: int|
        0 <= i < name.len() ==> {
            let c = (#[trigger] name[i]) as u32;
            'a' as u32 <= c <= 'z' as u32 || '0' as u32 <= c <= '9' as u32 || c == '-' as u32
        }
}

/// Reads the first value of a header field with `HeaderMap::get` and
/// `HeaderValue::as_bytes`.
///
/// Taken on trust: the bytes of the first value that stands under the name come
/// back, and none where no value stands there. `HeaderMap::get` looks names up in
/// lower case, so that only names in lower case are asked for.
#[verifier::external_body]
fn field_bytes(headers: &axum::http::HeaderMap, name: &str) -> (r: Option<Vec<u8>>)
    requires
        is_field_name(name@),
    ensures
        match r {
            Some(bytes) => {
                &&& fields_of(*headers).contains_key(name@)
                &&& bytes@ == fields_of(*headers)[name@]
            },
            None => !fields_of(*headers).contains_key(name@),
        },
{
    headers.get(name).map(|value| value.as_bytes().to_vec())
}

/// A byte that a header value may hold to be read as text: visible ASCII, a
/// space or a tab.
pub open spec fn is_visible(b: u8) -> bool {
    32 <= b < 127 || b == 9
}

/// The text of a header value, where all its bytes can be read as text.
pub open spec fn visible_text(bytes: Seq<u8>) -> Option<Seq<char>> {
    if forall|i: int| 0 <= i < bytes.len() ==> is_visible(#[trigger] bytes[i]) {
        Some(bytes.map_values(|b: u8| b as char))
    } else {
        None
    }
}

/// The text of a header value without the white space around it, where some is
/// left.
pub open spec fn trimmed_text(bytes: Seq<u8>) -> Option<Seq<char>> {
    match visible_text(bytes) {
        Some(text) => if is_blank(text) {
            None
        } else {
            Some(trimmed(text))
        },
        None => None,
    }
}

/// The token that an authorization value carries as bearer token.
pub open spec fn bearer_token(bytes: Seq<u8>) -> Option<Seq<char>> {
    match visible_text(bytes) {
        Some(text) => if BEARER_PREFIX@.is_prefix_of(text) {
            Some(text.skip(BEARER_PREFIX@.len() as int))
        } else {
            None
        },
        None => None,
    }
}

/// The text of a header field without the white space around it, where some is
/// left.
pub open spec fn trimmed_field(fields: Map<Seq<char>, Seq<u8>>, name: Seq<char>) -> Option<
    Seq<char>,
> {
    if fields.contains_key(name) {
        trimmed_text(fields[name])
    } else {
        None
    }
}

/// Whether the authorization header of a request carries a token as bearer
/// token.
pub open spec fn bears(fields: Map<Seq<char>, Seq<u8>>, token: Seq<char>) -> bool {
    &&& fields.contains_key(AUTHORIZATION_HEADER@)
    &&& bearer_token(fields[AUTHORIZATION_HEADER@]) matches Some(candidate)
    &&& secret_matches(token, candidate)
}

/// The names that the control protocol uses are header names.
pub proof fn lemma_field_names()
    ensures
        is_field_name(AUTHORIZATION_HEADER@),
        is_field_name(AGENT_ID_HEADER@),
        is_field_name(AGENT_CONFIG_TOKEN_HEADER@),
        is_field_name(CONFIG_SESSION_ID_HEADER@),
{
    reveal_strlit("authorization");
    reveal_strlit("x-talia-agent-id");
    reveal_strlit("x-talia-agent-config-token");
    reveal_strlit("x-talia-config-session-id");
}

fn read_visible(bytes: &[u8]) -> (r: Option<Vec<char>>)
    ensures
        match r {
            Some(chars) => visible_text(bytes@) == Some(chars@),
            None => visible_text(bytes@) is None,
        },
{
    let n: usize = bytes.len();
    let mut chars: Vec<char> = Vec::new();
    for i in 0..n
        invariant
            n == bytes@.len(),
            chars@.len() == i,
            forall|k: int| 0 <= k < i ==> is_visible(#[trigger] bytes@[k]),
            forall|k: int| 0 <= k < i ==> #[trigger] chars@[k] == bytes@[k] as char,
    {
        let b: u8 = bytes[i];
        if !(32 <= b && b < 127 || b == 9) {
            assert(!is_visible(bytes@[i as int]));
            return None;
        }
        chars.push(b as char);
    }
    assert(chars@ =~= bytes@.map_values(|b: u8| b as char));
    Some(chars)
}

/// Reads the text of a header value, without the white space around it. There
/// is none where nothing else is left, or where the value is not plain text.
pub fn value_text(bytes: &[u8]) -> (r: Option<String>)
    ensures
        match r {
            Some(text) => trimmed_text(bytes@) == Some(text@),
            None => trimmed_text(bytes@) is None,
        },
{
    match read_visible(bytes) {
        Some(chars) => {
            let text = trim(chars.as_slice());
            proof {
                lemma_trimmed_empty(chars@);
            }
            if text.len() == 0 {
                None
            } else {
                Some(text_of(text))
            }
        },
        None => None,
    }
}

/// Reads the token that an authorization value carries as bearer token.
pub fn value_bearer_token(bytes: &[u8]) -> (r: Option<String>)
    ensures
        match r {
            Some(token) => bearer_token(bytes@) == Some(token@),
            None => bearer_token(bytes@) is None,
        },
{
    match read_visible(bytes) {
        Some(chars) => {
            let prefix = chars_of(BEARER_PREFIX);
            if !chars_start_with(chars.as_slice(), prefix.as_slice()) {
                return None;
            }
            let n: usize = chars.len();
            let candidate = slice_subrange(chars.as_slice(), prefix.len(), n);
            assert(candidate@ == chars@.skip(BEARER_PREFIX@.len() as int));
            Some(text_of(candidate))
        },
        None => None,
    }
}

/// Reads the text of a header field, as [`value_text`] does.
pub fn header_value(headers: &axum::http::HeaderMap, name: &str) -> (r: Option<String>)
    requires
        is_field_name(name@),
    ensures
        match r {
            Some(text) => trimmed_field(fields_of(*headers), name@) == Some(text@),
            None => trimmed_field(fields_of(*headers), name@) is None,
        },
{
    match field_bytes(headers, name) {
        Some(bytes) => value_text(bytes.as_slice()),
        None => None,
    }
}

/// Reports whether a request carries a token as bearer token.
pub fn authorized(headers: &axum::http::HeaderMap, token: &str) -> (r: bool)
    ensures
        r == bears(fields_of(*headers), token@),
{
    proof {
        lemma_field_names();
    }
    match field_bytes(headers, AUTHORIZATION_HEADER) {
        Some(bytes) => match value_bearer_token(bytes.as_slice()) {
            Some(candidate) => crate::secret::matches(token, candidate.as_str()),
            None => false,
        },
        None => false,
    }
}

/// No request is authorized by a blank token.
pub proof fn law_blank_token_authorizes_nobody(fields: Map<Seq<char>, Seq<u8>>, token: Seq<char>)
    requires
        is_blank(token),
    ensures
        !bears(fields, token),
{
}

/// One request is authorized by two tokens only where these have one digest.
pub proof fn law_two_tokens_need_one_digest(
    fields: Map<Seq<char>, Seq<u8>>,
    a: Seq<char>,
    b: Seq<char>,
)
    requires
        bears(fields, a),
        bears(fields, b),
    ensures
        sha256_of(encode_utf8(a)) == sha256_of(encode_utf8(b)),
{
}

/// A request whose authorization header carries a token as it stands, visible
/// and not blank, is authorized by it.
pub proof fn law_exact_token_authorizes(fields: Map<Seq<char>, Seq<u8>>, token: Seq<char>)
    requires
        !is_blank(token),
        fields.contains_key(AUTHORIZATION_HEADER@),
        visible_text(fields[AUTHORIZATION_HEADER@]) == Some(BEARER_PREFIX@ + token),
    ensures
        bears(fields, token),
{
    assert((BEARER_PREFIX@ + token).skip(BEARER_PREFIX@.len() as int) == token);
}

/// A request bears a token just where its authorization field is visible text that
/// starts with the word for bearer tokens and a space, and the rest of that text
/// matches the token.
pub proof fn law_token_is_borne_just_after_the_scheme(
    fields: Map<Seq<char>, Seq<u8>>,
    token: Seq<char>,
)
    ensures
        bears(fields, token) <==> {
            &&& fields.contains_key("authorization"@)
            &&& visible_text(fields["authorization"@]) is Some
            &&& "Bearer "@.is_prefix_of(visible_text(fields["authorization"@])->0)
            &&& secret_matches(token, visible_text(fields["authorization"@])->0.skip(7))
        },
{
    reveal_strlit("Bearer ");
    assert("Bearer "@.len() == 7);
}

/// A header field has a value just where it is there, is visible text and is not
/// blank; the value is the text without the white space around it.
pub proof fn law_field_value_is_its_trimmed_text(
    fields: Map<Seq<char>, Seq<u8>>,
    name: Seq<char>,
)
    ensures
        trimmed_field(fields, name) is Some <==> fields.contains_key(name) && visible_text(
            fields[name],
        ) is Some && !is_blank(visible_text(fields[name])->0),
        trimmed_field(fields, name) is Some ==> trimmed_field(fields, name)->0 == trimmed(
            visible_text(fields[name])->0,
        ),
{
}

/// Bytes are visible text just where each is a printable ASCII character, a space
/// or a tab, and the text then has these characters.
pub proof fn law_visible_text_is_printable(bytes: Seq<u8>)
    ensures
        visible_text(bytes) is Some <==> forall|i: int|
            0 <= i < bytes.len() ==> ' ' as u8 <= #[trigger] bytes[i] <= '~' as u8 || bytes[i]
                == '\t' as u8,
        visible_text(bytes) matches Some(text) ==> text.len() == bytes.len() && forall|i: int|
            0 <= i < text.len() ==> #[trigger] text[i] == bytes[i] as char,
{
    if visible_text(bytes) is Some {
        assert forall|i: int| 0 <= i < bytes.len() implies ' ' as u8 <= #[trigger] bytes[i]
            <= '~' as u8 || bytes[i] == '\t' as u8 by {
            assert(is_visible(bytes[i]));
        }
    } else {
        let i = choose|i: int| 0 <= i < bytes.len() && !is_visible(#[trigger] bytes[i]);
        assert(!(' ' as u8 <= bytes[i] <= '~' as u8 || bytes[i] == '\t' as u8));
    }
}

} // verus!
