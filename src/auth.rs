//! The pure parts of the OAuth2 exchanges: request URLs, the code carried
//! by the browser redirect, and the classification of the server's answers.
use vstd::prelude::*;
use vstd::string::*;
use crate::error::{ConnectorError, ErrorModel};
use crate::text::{chars_of, find_char, find_from, segment_is, substring};

verus! {

pub open spec fn param_text(p: (Seq<char>, Seq<char>)) -> Seq<char> {
    p.0 + "="@ + p.1
}

/// `k1=v1&k2=v2...`, in the order given.
pub open spec fn join_params(ps: Seq<(Seq<char>, Seq<char>)>) -> Seq<char>
    decreases ps.len(),
{
    if ps.len() == 0 {
        Seq::empty()
    } else if ps.len() == 1 {
        param_text(ps[0])
    } else {
        join_params(ps.drop_last()) + "&"@ + param_text(ps.last())
    }
}

pub open spec fn query_url(base: Seq<char>, ps: Seq<(Seq<char>, Seq<char>)>) -> Seq<char> {
    base + "?"@ + join_params(ps)
}

pub open spec fn params_view(ps: Seq<(String, String)>) -> Seq<(Seq<char>, Seq<char>)> {
    ps.map_values(|p: (String, String)| (p.0@, p.1@))
}

/// `base?k1=v1&k2=v2...`; keys and values are taken as they are.
pub fn create_url_with_query_params(base: &str, query_params: &Vec<(String, String)>) -> (r:
    String)
    ensures
        r@ == query_url(base@, params_view(query_params@)),
{
    let mut s = String::from_str(base);
    s.append("?");
    let mut i: usize = 0;
    assert(params_view(query_params@).subrange(0, 0) =~= Seq::empty());
    assert(s@ =~= base@ + "?"@ + join_params(Seq::empty()));
    while i < query_params.len()
        invariant
            i <= query_params@.len(),
            s@ == base@ + "?"@ + join_params(params_view(query_params@).subrange(0, i as int)),
        decreases query_params@.len() - i,
    {
        let ghost ps = params_view(query_params@);
        let ghost before = s@;
        if i > 0 {
            s.append("&");
        }
        s.append(query_params[i].0.as_str());
        s.append("=");
        s.append(query_params[i].1.as_str());
        let ghost next = ps.subrange(0, i + 1);
        assert(next.drop_last() =~= ps.subrange(0, i as int));
        assert(next.last() == (query_params@[i as int].0@, query_params@[i as int].1@));
        if i == 0 {
            assert(s@ =~= base@ + "?"@ + join_params(next));
        } else {
            assert(s@ =~= base@ + "?"@ + join_params(next));
        }
        i = i + 1;
    }
    assert(params_view(query_params@).subrange(0, i as int) =~= params_view(query_params@));
    s
}

/// `code=` starts a query parameter at `i`.
pub open spec fn is_code_key_at(s: Seq<char>, i: int) -> bool {
    &&& 0 <= i
    &&& i + 5 <= s.len()
    &&& s.subrange(i, i + 5) == "code="@
    &&& (i == 0 || s[i - 1] == '?' || s[i - 1] == '&')
}

pub open spec fn find_code_key(s: Seq<char>, i: int) -> Option<int>
    decreases s.len() - i,
{
    if i < 0 || i + 5 > s.len() {
        None
    } else if is_code_key_at(s, i) {
        Some(i)
    } else {
        find_code_key(s, i + 1)
    }
}

/// The value of the first `code` query parameter, up to the next `&` or
/// the end; none when there is no such parameter or its value is empty.
pub open spec fn code_of(url: Seq<char>) -> Option<Seq<char>> {
    match find_code_key(url, 0) {
        None => None,
        Some(i) => {
            let end = match find_from(url, i + 5, '&') {
                Some(j) => j,
                None => url.len() as int,
            };
            if end > i + 5 {
                Some(url.subrange(i + 5, end))
            } else {
                None
            }
        },
    }
}

/// The authorization code that a redirect URL carries.
pub fn extract_code_from_url(request_url: &str) -> (r: Option<String>)
    ensures
        r is None <==> code_of(request_url@) is None,
        r matches Some(c) ==> code_of(request_url@) == Some(c@),
{
    let v = chars_of(request_url);
    let n = v.len();
    let mut i: usize = 0;
    while n >= 5 && i <= n - 5
        invariant
            i <= n,
            n == v@.len(),
            v@ == request_url@,
            find_code_key(v@, 0) == find_code_key(v@, i as int),
        decreases n - i,
    {
        if segment_is(&v, i, i + 5, "code=") && (i == 0 || v[i - 1] == '?' || v[i - 1] == '&') {
            let end = match find_char(&v, i + 5, '&') {
                Some(j) => j,
                None => n,
            };
            proof {
                crate::text::lemma_find_from_bounds(v@, i + 5, '&');
            }
            if end > i + 5 {
                return Some(substring(request_url, i + 5, end));
            } else {
                return None;
            }
        }
        i = i + 1;
    }
    None
}

/// What a JSON text holds as a string under a key of its top-level object:
/// none when the text is not JSON, `Some(None)` when there is no string
/// under the key.
pub uninterp spec fn json_string_field(text: Seq<char>, key: Seq<char>) -> Option<
    Option<Seq<char>>,
>;

#[verifier::external_type_specification]
#[verifier::external_body]
pub struct ExJsonError(serde_json::Error);

pub open spec fn opt_string_view(o: Option<String>) -> Option<Seq<char>> {
    match o {
        Some(s) => Some(s@),
        None => None,
    }
}

/// Relies on `serde_json::from_str` to parse the text as a JSON value, on
/// indexing that value by a key (null for anything but an object holding the
/// key), and on `Value::as_str` (the string, for a JSON string only).
#[verifier::external_body]
fn json_field(text: &str, key: &str) -> (r: Result<Option<String>, serde_json::Error>)
    ensures
        r is Ok <==> json_string_field(text@, key@) is Some,
        r matches Ok(f) ==> json_string_field(text@, key@) == Some(opt_string_view(f)),
{
    let value: serde_json::Value = match serde_json::from_str(text) {
        Ok(v) => v,
        Err(e) => return Err(e),
    };
    Ok(value[key].as_str().map(str::to_owned))
}

pub open spec fn message_text(m: Option<Option<Seq<char>>>) -> Seq<char> {
    match m {
        Some(Some(t)) => t,
        _ => Seq::empty(),
    }
}

/// The outcome of a token request, from the answer's status, its body, and
/// what the body holds under `access_token`, `refresh_token` and `message`.
pub open spec fn token_outcome(
    status: u16,
    body: Seq<char>,
    access: Option<Option<Seq<char>>>,
    refresh: Option<Option<Seq<char>>>,
    message: Option<Option<Seq<char>>>,
) -> Result<(Seq<char>, Seq<char>), ErrorModel> {
    if status == 200 {
        match (access, refresh) {
            (Some(Some(a)), Some(Some(r))) => Ok((a, r)),
            (Some(None), Some(_)) => Err(
                ErrorModel::MissingResponseJSONField("access_token"@, body),
            ),
            (Some(Some(_)), Some(None)) => Err(
                ErrorModel::MissingResponseJSONField("refresh_token"@, body),
            ),
            _ => Err(ErrorModel::MalformedJson(body)),
        }
    } else if status == 400 {
        Err(ErrorModel::HTTP400(message_text(message)))
    } else if status == 403 {
        Err(ErrorModel::HTTP403(message_text(message)))
    } else if status == 404 {
        Err(ErrorModel::HTTP404)
    } else {
        Err(ErrorModel::UnexpectedStatus(status))
    }
}

pub open spec fn pair_result_view(r: Result<(String, String), ConnectorError>) -> Result<
    (Seq<char>, Seq<char>),
    ErrorModel,
> {
    match r {
        Ok(p) => Ok((p.0@, p.1@)),
        Err(e) => Err(e@),
    }
}

pub open spec fn field_view(f: Option<Option<String>>) -> Option<Option<Seq<char>>> {
    match f {
        Some(o) => Some(opt_string_view(o)),
        None => None,
    }
}

fn message_or_empty(m: Option<Option<String>>) -> (r: String)
    ensures
        r@ == message_text(field_view(m)),
{
    match m {
        Some(Some(t)) => t,
        _ => String::new(),
    }
}

/// Classifies a token answer, given what its body holds under each field
/// (`None` for a body that is not JSON).
pub fn classify_token_response(
    status: u16,
    body: &str,
    access: Option<Option<String>>,
    refresh: Option<Option<String>>,
    message: Option<Option<String>>,
) -> (r: Result<(String, String), ConnectorError>)
    ensures
        pair_result_view(r) == token_outcome(
            status,
            body@,
            field_view(access),
            field_view(refresh),
            field_view(message),
        ),
{
    if status == 200 {
        match (access, refresh) {
            (Some(Some(a)), Some(Some(r))) => Ok((a, r)),
            (Some(None), Some(_)) => Err(
                ConnectorError::MissingResponseJSONField(
                    String::from_str("access_token"),
                    body.to_owned(),
                ),
            ),
            (Some(Some(_)), Some(None)) => Err(
                ConnectorError::MissingResponseJSONField(
                    String::from_str("refresh_token"),
                    body.to_owned(),
                ),
            ),
            _ => Err(ConnectorError::MalformedJson(body.to_owned())),
        }
    } else if status == 400 {
        Err(ConnectorError::HTTP400(message_or_empty(message)))
    } else if status == 403 {
        Err(ConnectorError::HTTP403(message_or_empty(message)))
    } else if status == 404 {
        Err(ConnectorError::HTTP404)
    } else {
        Err(ConnectorError::UnexpectedStatus(status))
    }
}

fn json_field_opt(text: &str, key: &str) -> (r: Option<Option<String>>)
    ensures
        field_view(r) == json_string_field(text@, key@),
{
    match json_field(text, key) {
        Ok(f) => Some(f),
        Err(_) => None,
    }
}

/// The token pair of an answer to a token request, or why there is none.
pub fn token_response(status: u16, body: &str) -> (r: Result<(String, String), ConnectorError>)
    ensures
        pair_result_view(r) == token_outcome(
            status,
            body@,
            json_string_field(body@, "access_token"@),
            json_string_field(body@, "refresh_token"@),
            json_string_field(body@, "message"@),
        ),
{
    if status == 200 {
        let access = json_field_opt(body, "access_token");
        let refresh = json_field_opt(body, "refresh_token");
        classify_token_response(status, body, access, refresh, None)
    } else if status == 400 || status == 403 {
        let message = json_field_opt(body, "message");
        classify_token_response(status, body, None, None, message)
    } else {
        classify_token_response(status, body, None, None, None)
    }
}

pub open spec fn validation_outcome(status: u16) -> Result<bool, ErrorModel> {
    if status == 200 {
        Ok(true)
    } else if status == 401 {
        Ok(false)
    } else {
        Err(ErrorModel::UnexpectedStatus(status))
    }
}

/// Whether a validation answer says that the token is valid (200) or not
/// (401); any other status is an error.
pub fn access_token_is_valid(status: u16) -> (r: Result<bool, ConnectorError>)
    ensures
        match (r, validation_outcome(status)) {
            (Ok(b), Ok(c)) => b == c,
            (Err(e), Err(f)) => e@ == f,
            _ => false,
        },
{
    if status == 200 {
        Ok(true)
    } else if status == 401 {
        Ok(false)
    } else {
        Err(ConnectorError::UnexpectedStatus(status))
    }
}

pub open spec fn authorize_url(client_id: Seq<char>) -> Seq<char> {
    query_url(
        "https://id.twitch.tv/oauth2/authorize"@,
        seq![
            ("client_id"@, client_id),
            ("redirect_uri"@, "https://localhost:3030"@),
            ("response_type"@, "code"@),
            ("scope"@, "chat:read%20chat:edit"@),
        ],
    )
}

pub open spec fn refresh_uri(
    client_id: Seq<char>,
    client_secret: Seq<char>,
    refresh_token: Seq<char>,
) -> Seq<char> {
    query_url(
        "https://id.twitch.tv/oauth2/token"@,
        seq![
            ("client_id"@, client_id),
            ("client_secret"@, client_secret),
            ("refresh_token"@, refresh_token),
            ("grant_type"@, "refresh_token"@),
        ],
    )
}

pub open spec fn code_uri(client_id: Seq<char>, client_secret: Seq<char>, code: Seq<char>) -> Seq<
    char,
> {
    query_url(
        "https://id.twitch.tv/oauth2/token"@,
        seq![
            ("client_id"@, client_id),
            ("client_secret"@, client_secret),
            ("code"@, code),
            ("grant_type"@, "authorization_code"@),
            ("redirect_uri"@, "https://localhost:3030"@),
        ],
    )
}

fn param(k: &str, v: &str) -> (r: (String, String))
    ensures
        r.0@ == k@,
        r.1@ == v@,
{
    (String::from_str(k), String::from_str(v))
}

/// The page that the operator opens to grant access.
pub fn create_authorize_url(client_id: &str) -> (r: String)
    ensures
        r@ == authorize_url(client_id@),
{
    let ps = vec![
        param("client_id", client_id),
        param("redirect_uri", "https://localhost:3030"),
        param("response_type", "code"),
        param("scope", "chat:read%20chat:edit"),
    ];
    let r = create_url_with_query_params("https://id.twitch.tv/oauth2/authorize", &ps);
    assert(params_view(ps@) =~= seq![
        ("client_id"@, client_id@),
        ("redirect_uri"@, "https://localhost:3030"@),
        ("response_type"@, "code"@),
        ("scope"@, "chat:read%20chat:edit"@),
    ]);
    r
}

/// The request that trades a refresh token for a new pair.
pub fn create_refresh_uri(client_id: &str, client_secret: &str, refresh_token: &str) -> (r: String)
    ensures
        r@ == refresh_uri(client_id@, client_secret@, refresh_token@),
{
    let ps = vec![
        param("client_id", client_id),
        param("client_secret", client_secret),
        param("refresh_token", refresh_token),
        param("grant_type", "refresh_token"),
    ];
    let r = create_url_with_query_params("https://id.twitch.tv/oauth2/token", &ps);
    assert(params_view(ps@) =~= seq![
        ("client_id"@, client_id@),
        ("client_secret"@, client_secret@),
        ("refresh_token"@, refresh_token@),
        ("grant_type"@, "refresh_token"@),
    ]);
    r
}

/// The request that trades an authorization code for a token pair.
pub fn create_code_uri(client_id: &str, client_secret: &str, code: &str) -> (r: String)
    ensures
        r@ == code_uri(client_id@, client_secret@, code@),
{
    let ps = vec![
        param("client_id", client_id),
        param("client_secret", client_secret),
        param("code", code),
        param("grant_type", "authorization_code"),
        param("redirect_uri", "https://localhost:3030"),
    ];
    let r = create_url_with_query_params("https://id.twitch.tv/oauth2/token", &ps);
    assert(params_view(ps@) =~= seq![
        ("client_id"@, client_id@),
        ("client_secret"@, client_secret@),
        ("code"@, code@),
        ("grant_type"@, "authorization_code"@),
        ("redirect_uri"@, "https://localhost:3030"@),
    ]);
    r
}

} // verus!
