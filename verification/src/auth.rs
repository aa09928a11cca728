//! Access to the operator API by a shared token.

use axum::http::HeaderMap;
use vstd::prelude::*;
use vstd::string::*;

use crate::api::ApiError;
use crate::config::AuthConfig;
use crate::outside::{header_fields, header_text, header_value_text, is_header_name};
use crate::text::{
    is_white_space, opt_str, opt_text, prefix_is_taken_off, same_text, strip_prefix, stripped_prefix, trim, trim_end,
    trim_start, trimmed,
};

verus! {

/// The token of an authorization header: what follows `Bearer `, without white
/// space around it.
pub open spec fn bearer_token(authorization: Option<Seq<char>>) -> Option<Seq<char>> {
    match authorization {
        Some(value) => match stripped_prefix(value, "Bearer "@) {
            Some(token) => Some(trimmed(token)),
            None => None,
        },
        None => None,
    }
}

/// A token given as it is, without white space around it.
pub open spec fn plain_token(value: Option<Seq<char>>) -> Option<Seq<char>> {
    match value {
        Some(token) => Some(trimmed(token)),
        None => None,
    }
}

/// Whether one of the places where a token may be given holds the API token.
pub open spec fn authorized(
    api_token: Seq<char>,
    authorization: Option<Seq<char>>,
    api_key: Option<Seq<char>>,
    query_token: Option<Seq<char>>,
) -> bool {
    ||| bearer_token(authorization) == Some(api_token)
    ||| plain_token(api_key) == Some(api_token)
    ||| plain_token(query_token) == Some(api_token)
}

/// Whether a token, without white space around it, is the API token.
fn is_token(api_token: &str, value: Option<&str>) -> (same: bool)
    ensures
        same == (plain_token(opt_str(value)) == Some(api_token@)),
{
    match value {
        Some(value) => same_text(trim(value), api_token),
        None => false,
    }
}

/// Whether one of the places where a token may be given holds the API token.
pub fn holds_token(
    api_token: &str,
    authorization: Option<&str>,
    api_key: Option<&str>,
    query_token: Option<&str>,
) -> (held: bool)
    ensures
        held == authorized(
            api_token@,
            opt_str(authorization),
            opt_str(api_key),
            opt_str(query_token),
        ),
{
    let bearer = match authorization {
        Some(value) => strip_prefix(value, "Bearer "),
        None => None,
    };
    is_token(api_token, bearer) || is_token(api_token, api_key) || is_token(api_token, query_token)
}

/// Whether a request may use the API: always where no token is configured, else
/// where a token is given that is the configured one.
pub open spec fn may_access(
    auth: Option<AuthConfig>,
    fields: Map<Seq<char>, Seq<u8>>,
    query_token: Option<Seq<char>>,
) -> bool {
    match auth {
        None => true,
        Some(config) => authorized(
            config.api_token@,
            header_value_text(fields, "authorization"@),
            header_value_text(fields, "x-api-key"@),
            query_token,
        ),
    }
}

/// Checks the token of a request.
pub fn verify_api_auth(auth: &Option<AuthConfig>, headers: &HeaderMap, token: Option<&str>) -> (verdict:
    Result<(), ApiError>)
    ensures
        verdict == if may_access(*auth, header_fields(*headers), opt_str(token)) {
            Ok::<(), ApiError>(())
        } else {
            Err(ApiError::Unauthorized)
        },
{
    let config = match auth {
        Some(config) => config,
        None => {
            return Ok(());
        },
    };
    proof {
        reveal_strlit("authorization");
        reveal_strlit("x-api-key");
        assert(is_header_name("authorization"@));
        assert(is_header_name("x-api-key"@));
    }
    let authorization = header_text(headers, "authorization");
    let api_key = header_text(headers, "x-api-key");
    if holds_token(config.api_token.as_str(), as_slice(&authorization), as_slice(&api_key), token) {
        Ok(())
    } else {
        Err(ApiError::Unauthorized)
    }
}

/// Borrows an optional string.
fn as_slice(value: &Option<String>) -> (slice: Option<&str>)
    ensures
        opt_str(slice) == opt_text(*value),
{
    match value {
        Some(value) => Some(value.as_str()),
        None => None,
    }
}

/// Whether a text is white space only.
pub open spec fn is_blank(s: Seq<char>) -> bool {
    forall|i: int| 0 <= i < s.len() ==> is_white_space(#[trigger] s[i])
}

proof fn lemma_trim_start_drops(pad: Seq<char>, s: Seq<char>)
    requires
        is_blank(pad),
    ensures
        trim_start(pad + s) == trim_start(s),
    decreases pad.len(),
{
    if pad.len() == 0 {
        assert(pad + s =~= s);
    } else {
        let rest = pad.skip(1);
        assert((pad + s)[0] == pad[0]);
        assert((pad + s).skip(1) =~= rest + s);
        assert forall|i: int| 0 <= i < rest.len() implies is_white_space(#[trigger] rest[i]) by {
            assert(rest[i] == pad[i + 1]);
        }
        lemma_trim_start_drops(rest, s);
    }
}

proof fn lemma_trim_end_drops(s: Seq<char>, pad: Seq<char>)
    requires
        is_blank(pad),
    ensures
        trim_end(s + pad) == trim_end(s),
    decreases pad.len(),
{
    if pad.len() == 0 {
        assert(s + pad =~= s);
    } else {
        let rest = pad.drop_last();
        assert((s + pad).last() == pad.last());
        assert((s + pad).drop_last() =~= s + rest);
        lemma_trim_end_drops(s, rest);
    }
}

proof fn lemma_trim_start_before_pad(s: Seq<char>, pad: Seq<char>)
    requires
        is_blank(pad),
    ensures
        trim_end(trim_start(s + pad)) == trim_end(trim_start(s)),
    decreases s.len(),
{
    if s.len() == 0 {
        assert(s + pad =~= pad);
        assert(pad + Seq::<char>::empty() =~= pad);
        lemma_trim_start_drops(pad, Seq::empty());
        assert(trim_start(s) =~= Seq::<char>::empty());
        assert(trim_start(Seq::<char>::empty()) =~= Seq::<char>::empty());
    } else if is_white_space(s[0]) {
        assert((s + pad)[0] == s[0]);
        assert((s + pad).skip(1) =~= s.skip(1) + pad);
        lemma_trim_start_before_pad(s.skip(1), pad);
    } else {
        assert((s + pad)[0] == s[0]);
        lemma_trim_end_drops(s, pad);
    }
}

/// Law: white space around a token does not matter.
pub proof fn white_space_around_a_token_is_ignored(
    before: Seq<char>,
    token: Seq<char>,
    after: Seq<char>,
)
    requires
        is_blank(before),
        is_blank(after),
    ensures
        plain_token(Some(before + token + after)) == plain_token(Some(token)),
{
    assert(before + token + after =~= before + (token + after));
    lemma_trim_start_drops(before, token + after);
    lemma_trim_start_before_pad(token, after);
}

/// Law: where no token is configured, everybody has access.
pub proof fn api_is_open_without_a_token(
    fields: Map<Seq<char>, Seq<u8>>,
    query_token: Option<Seq<char>>,
)
    ensures
        may_access(None, fields, query_token),
{
}

/// Law: where a token is configured, who gives none has no access.
pub proof fn api_is_closed_without_the_token(
    config: AuthConfig,
    fields: Map<Seq<char>, Seq<u8>>,
)
    requires
        !fields.contains_key("authorization"@),
        !fields.contains_key("x-api-key"@),
    ensures
        !may_access(Some(config), fields, None),
{
}

/// Law: a token counts where it is given as a bearer token, as an API key or in the
/// query, and only there; it opens the API exactly where it is the configured one,
/// white space around it aside.
pub proof fn token_opens_the_api(api_token: Seq<char>, given: Seq<char>, other: Seq<char>)
    requires
        !"Bearer "@.is_prefix_of(other),
    ensures
        authorized(api_token, Some("Bearer "@ + given), None, None) <==> trimmed(given)
            == api_token,
        authorized(api_token, None, Some(given), None) <==> trimmed(given) == api_token,
        authorized(api_token, None, None, Some(given)) <==> trimmed(given) == api_token,
        !authorized(api_token, Some(other), None, None),
        !authorized(api_token, None, None, None),
{
    prefix_is_taken_off("Bearer "@, given, other);
}

/// Law: of several places that hold a token, one that holds the configured one is
/// enough, and one is needed.
pub proof fn one_place_is_enough(
    api_token: Seq<char>,
    authorization: Option<Seq<char>>,
    api_key: Option<Seq<char>>,
    query_token: Option<Seq<char>>,
)
    ensures
        authorized(api_token, authorization, api_key, query_token) <==> authorized(
            api_token,
            authorization,
            None,
            None,
        ) || authorized(api_token, None, api_key, None) || authorized(
            api_token,
            None,
            None,
            query_token,
        ),
{
}

/// Law: a request gives its tokens in the headers `authorization` and `x-api-key`, and in
/// its query.
pub proof fn tokens_are_read_from_their_headers(
    config: AuthConfig,
    fields: Map<Seq<char>, Seq<u8>>,
    query_token: Option<Seq<char>>,
)
    ensures
        may_access(Some(config), fields, query_token) <==> authorized(
            config.api_token@,
            header_value_text(fields, "authorization"@),
            header_value_text(fields, "x-api-key"@),
            query_token,
        ),
{
}

} // verus!
