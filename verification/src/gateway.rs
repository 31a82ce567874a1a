//! The decisions of the gateway that fronts the services: which headers it
//! forwards, how it reads the path and query of a request, where a request
//! goes, and when the caller's token and permissions let it through.
use vstd::prelude::*;
use serde_json::Value;
use jsonwebtoken::{decode, Algorithm, DecodingKey, Validation};
use crate::rng::{random_alphanumeric, alphanumeric};
use crate::text::{contains_text, occurs_at, lowercase, spec_lowercase, str_eq, push_str, push_char, push_decimal, decimal, has_prefix, substring, string_of};

verus! {

// ---------------------------------------------------------------- headers

/// A header name, lower-cased, that the gateway passes between the client and
/// a service in both directions.
pub open spec fn common_header(t: Seq<char>) -> bool {
    t == "content-type"@ || t == "content-length"@ || t == "content-encoding"@ || t == "vary"@
        || t == "authorization"@ || t == "cookie"@ || t == "set-cookie"@ || t == "accept"@
        || t == "accept-encoding"@ || t == "user-agent"@ || t == "location"@ || t == "cache-control"@
        || t == "connection"@ || t == "keep-alive"@ || t == "transfer-encoding"@ || t == "x-accel-buffering"@
}

/// A request header, lower-cased, that the gateway passes on to a service: the
/// common ones and the proxy's client-address headers.
pub open spec fn request_header(t: Seq<char>) -> bool {
    common_header(t) || t == "x-forwarded-for"@ || t == "x-forwarded-proto"@ || t == "x-real-ip"@
}

fn is_common_header(t: &str) -> (r: bool)
    ensures
        r == common_header(t@),
{
    str_eq(t, "content-type") || str_eq(t, "content-length") || str_eq(t, "content-encoding") || str_eq(t, "vary")
        || str_eq(t, "authorization") || str_eq(t, "cookie") || str_eq(t, "set-cookie") || str_eq(t, "accept")
        || str_eq(t, "accept-encoding") || str_eq(t, "user-agent") || str_eq(t, "location")
        || str_eq(t, "cache-control") || str_eq(t, "connection") || str_eq(t, "keep-alive")
        || str_eq(t, "transfer-encoding") || str_eq(t, "x-accel-buffering")
}

/// Whether the request header `name` is passed on to the service, in any
/// letter case.
pub fn should_forward_header(name: &str) -> (r: bool)
    ensures
        r == request_header(spec_lowercase(name@)),
{
    let t = lowercase(name);
    let t = t.as_str();
    is_common_header(t) || str_eq(t, "x-forwarded-for") || str_eq(t, "x-forwarded-proto") || str_eq(t, "x-real-ip")
}

/// Whether the response header `name` is passed back to the client, in any
/// letter case.
pub fn should_forward_header_str(name: &str) -> (r: bool)
    ensures
        r == common_header(spec_lowercase(name@)),
{
    let t = lowercase(name);
    is_common_header(t.as_str())
}

// ---------------------------------------------------------------- paths

/// The first position from `i` on that does not hold `c`.
pub open spec fn skip_char(s: Seq<char>, c: char, i: int) -> int
    decreases s.len() - i,
{
    if 0 <= i < s.len() && s[i] == c {
        skip_char(s, c, i + 1)
    } else {
        i
    }
}

/// The first position from `i` on that holds `c`, or the length.
pub open spec fn find_char(s: Seq<char>, c: char, i: int) -> int
    decreases s.len() - i,
{
    if 0 <= i < s.len() && s[i] != c {
        find_char(s, c, i + 1)
    } else {
        i
    }
}

/// The search from `i` stops on the first `c` at or after `i`, or at the end.
pub proof fn lemma_find_char(s: Seq<char>, c: char, i: int)
    requires
        0 <= i <= s.len(),
    ensures
        i <= find_char(s, c, i) <= s.len(),
        find_char(s, c, i) < s.len() ==> s[find_char(s, c, i)] == c,
        forall|k: int| i <= k < find_char(s, c, i) ==> s[k] != c,
    decreases s.len() - i,
{
    if i < s.len() && s[i] != c {
        lemma_find_char(s, c, i + 1);
    }
}

/// The service named by a gateway path: the text after the leading slashes up
/// to the next slash.
pub open spec fn path_service(s: Seq<char>) -> Seq<char> {
    let a = skip_char(s, '/', 0);
    s.subrange(a, find_char(s, '/', a))
}

/// The service's own path: what follows the slash after the service, if any.
pub open spec fn path_rest(s: Seq<char>) -> Seq<char> {
    let b = find_char(s, '/', skip_char(s, '/', 0));
    if b < s.len() { s.subrange(b + 1, s.len() as int) } else { Seq::empty() }
}

/// The position of the first `c` from `i` on, or the length.
fn find_char_from(s: &str, n: usize, c: char, i: usize) -> (r: usize)
    requires
        n == s@.len(),
        i <= n,
    ensures
        r == find_char(s@, c, i as int),
{
    let mut j = i;
    while j < n && s.get_char(j) != c
        invariant
            n == s@.len(),
            i <= j <= n,
            find_char(s@, c, i as int) == find_char(s@, c, j as int),
        decreases n - j,
    {
        j = j + 1;
    }
    j
}

/// Splits the gateway path after `/api/` into the service and its path.
pub fn parse_service_path(rest: &str) -> (r: (String, String))
    ensures
        r.0@ == path_service(rest@),
        r.1@ == path_rest(rest@),
{
    let n = rest.unicode_len();
    let mut a: usize = 0;
    while a < n && rest.get_char(a) == '/'
        invariant
            n == rest@.len(),
            a <= n,
            skip_char(rest@, '/', 0) == skip_char(rest@, '/', a as int),
        decreases n - a,
    {
        a = a + 1;
    }
    let b = find_char_from(rest, n, '/', a);
    proof {
        lemma_find_char(rest@, '/', a as int);
    }
    let service = substring(rest, a, b);
    let path = if b < n { substring(rest, b + 1, n) } else { String::new() };
    (service, path)
}

/// The `game_id` of a query: the first `&`-separated part from position `i`
/// on that begins with `game_id=`, up to the next `=`.
pub open spec fn game_id_from(q: Seq<char>, i: int) -> Option<Seq<char>>
    decreases q.len() - i + 1,
{
    if i < 0 || i > q.len() {
        None
    } else {
        let e = find_char(q, '&', i);
        let part = q.subrange(i, e);
        if part.len() >= 8 && part.subrange(0, 8) == "game_id="@ {
            Some(part.subrange(8, find_char(part, '=', 8)))
        } else if e >= q.len() {
            None
        } else {
            proof {
                lemma_find_char(q, '&', i);
            }
            game_id_from(q, e + 1)
        }
    }
}

/// The game a socket request names in its query.
pub fn query_game_id(query: &str) -> (r: Option<String>)
    ensures
        match r {
            Some(g) => game_id_from(query@, 0) == Some(g@),
            None => game_id_from(query@, 0) is None,
        },
{
    let n = query.unicode_len();
    let mut i: usize = 0;
    loop
        invariant
            n == query@.len(),
            i <= n,
            game_id_from(query@, 0) == game_id_from(query@, i as int),
        decreases n - i,
    {
        let e = find_char_from(query, n, '&', i);
        proof {
            lemma_find_char(query@, '&', i as int);
        }
        let part = substring(query, i, e);
        if has_prefix(part.as_str(), "game_id=") {
            proof {
                reveal_strlit("game_id=");
            }
            let m = part.unicode_len();
            let stop = find_char_from(part.as_str(), m, '=', 8);
            proof {
                lemma_find_char(part@, '=', 8);
            }
            return Some(substring(part.as_str(), 8, stop));
        }
        proof {
            reveal_strlit("game_id=");
        }
        if e >= n {
            return None;
        }
        i = e + 1;
    }
}

/// Every header passed back to clients is also passed on to services.
pub proof fn law_response_headers_forwarded(t: Seq<char>)
    ensures
        common_header(t) ==> request_header(t),
{
}

/// The path of a request names its service and the service's path: after any
/// leading slash, a service name without a slash, then a slash and the rest.
pub proof fn law_service_path_roundtrip(service: Seq<char>, rest: Seq<char>)
    requires
        service.len() > 0,
        forall|k: int| 0 <= k < service.len() ==> service[k] != '/',
    ensures
        path_service(seq!['/'] + service + seq!['/'] + rest) == service,
        path_rest(seq!['/'] + service + seq!['/'] + rest) == rest,
{
    let x = seq!['/'] + service + seq!['/'] + rest;
    let n = service.len() as int;
    assert(x[0] == '/');
    assert(x[1] == service[0]);
    assert(skip_char(x, '/', 1) == 1);
    assert(skip_char(x, '/', 0) == 1);
    lemma_find_char(x, '/', 1);
    let f = find_char(x, '/', 1);
    assert(x[n + 1] == '/');
    assert forall|k: int| 1 <= k < n + 1 implies x[k] != '/' by {
        assert(x[k] == service[k - 1]);
    }
    assert(f == n + 1);
    assert(x.subrange(1, n + 1) =~= service);
    assert(x.subrange(n + 2, x.len() as int) =~= rest);
}

// ---------------------------------------------------------------- routing

/// Where the gateway sends a request under `/api/`.
#[derive(Debug)]
pub enum ApiRoute {
    /// A socket to a chess game, opened on `path` of the game's instance.
    ChessSocket { path: String },
    /// A socket to a service that takes none: not found.
    UnknownSocket,
    /// Straight to the notification service, on `path`.
    Notifications { path: String },
    /// Through the access checks, straight to the auth service.
    Auth,
    /// Through the access checks, over the request queue of the service.
    Queued,
    /// No such service: not found.
    Unknown,
}

pub enum ApiRouteView {
    ChessSocket { path: Seq<char> },
    UnknownSocket,
    Notifications { path: Seq<char> },
    Auth,
    Queued,
    Unknown,
}

impl View for ApiRoute {
    type V = ApiRouteView;

    open spec fn view(&self) -> ApiRouteView {
        match self {
            ApiRoute::ChessSocket { path } => ApiRouteView::ChessSocket { path: path@ },
            ApiRoute::UnknownSocket => ApiRouteView::UnknownSocket,
            ApiRoute::Notifications { path } => ApiRouteView::Notifications { path: path@ },
            ApiRoute::Auth => ApiRouteView::Auth,
            ApiRoute::Queued => ApiRouteView::Queued,
            ApiRoute::Unknown => ApiRouteView::Unknown,
        }
    }
}

/// The route of a request for `service` and its `path`. Only the chess service
/// takes sockets, on its path or else on `chess`; the notification service is
/// reached on its path or else on `notifications`.
pub open spec fn api_route(is_socket: bool, service: Seq<char>, path: Seq<char>) -> ApiRouteView {
    if is_socket {
        if service == "chess"@ {
            ApiRouteView::ChessSocket { path: if path.len() == 0 { "chess"@ } else { path } }
        } else {
            ApiRouteView::UnknownSocket
        }
    } else if service == "notifications"@ {
        ApiRouteView::Notifications { path: if path.len() == 0 { "notifications"@ } else { path } }
    } else if service == "auth"@ {
        ApiRouteView::Auth
    } else if service == "user"@ || service == "chess"@ || service == "room"@ || service == "social"@
        || service == "permission"@ {
        ApiRouteView::Queued
    } else {
        ApiRouteView::Unknown
    }
}

pub fn route_api(is_socket: bool, service: &str, path: &str) -> (r: ApiRoute)
    ensures
        r@ == api_route(is_socket, service@, path@),
{
    let empty = path.unicode_len() == 0;
    if is_socket {
        if str_eq(service, "chess") {
            ApiRoute::ChessSocket { path: if empty { string_of("chess") } else { string_of(path) } }
        } else {
            ApiRoute::UnknownSocket
        }
    } else if str_eq(service, "notifications") {
        ApiRoute::Notifications { path: if empty { string_of("notifications") } else { string_of(path) } }
    } else if str_eq(service, "auth") {
        ApiRoute::Auth
    } else if str_eq(service, "user") || str_eq(service, "chess") || str_eq(service, "room")
        || str_eq(service, "social") || str_eq(service, "permission") {
        ApiRoute::Queued
    } else {
        ApiRoute::Unknown
    }
}

/// The answer to a request whose route names no service: not found, for a
/// socket and for a plain request alike.
pub fn route_error(route: &ApiRoute, service: &str) -> (r: Option<ErrorResponse>)
    ensures
        match route@ {
            ApiRouteView::UnknownSocket => r matches Some(e) && e.status == 404
                && e.error@ == "Unknown WebSocket service: "@ + service@,
            ApiRouteView::Unknown => r matches Some(e) && e.status == 404 && e.error@ == "Unknown service"@,
            _ => r is None,
        },
{
    match route {
        ApiRoute::UnknownSocket => Some(ErrorResponse { error: unknown_socket_message(service), status: 404 }),
        ApiRoute::Unknown => Some(ErrorResponse { error: string_of("Unknown service"), status: 404 }),
        _ => None,
    }
}

/// The methods that the gateway passes on to a service.
pub open spec fn proxied_method(m: Seq<char>) -> bool {
    m == "GET"@ || m == "POST"@ || m == "PUT"@ || m == "DELETE"@ || m == "PATCH"@ || m == "HEAD"@
}

/// The answer to a request whose method the gateway does not pass on.
pub fn method_error(method: &str) -> (r: Option<ErrorResponse>)
    ensures
        proxied_method(method@) ==> r is None,
        !proxied_method(method@) ==> (r matches Some(e) && e.status == 405 && e.error@ == "Method not allowed"@),
{
    if str_eq(method, "GET") || str_eq(method, "POST") || str_eq(method, "PUT") || str_eq(method, "DELETE")
        || str_eq(method, "PATCH") || str_eq(method, "HEAD") {
        None
    } else {
        Some(ErrorResponse { error: string_of("Method not allowed"), status: 405 })
    }
}

/// The instance that serves a chess socket: the one the game is mapped to, else
/// the configured one.
pub fn chess_socket_target(resolved: Option<String>, configured: Option<String>) -> (r: Option<String>)
    ensures
        r == (match resolved {
            Some(u) => Some(u),
            None => configured,
        }),
{
    match resolved {
        Some(u) => Some(u),
        None => configured,
    }
}

/// The error text for a socket to a service that takes none.
pub fn unknown_socket_message(service: &str) -> (r: String)
    ensures
        r@ == "Unknown WebSocket service: "@ + service@,
{
    let mut s = string_of("Unknown WebSocket service: ");
    push_str(&mut s, service);
    s
}

/// The error text for a service without an address.
pub fn not_configured_message(service: &str) -> (r: String)
    ensures
        r@ == "Service "@ + service@ + " not configured"@,
{
    let mut s = string_of("Service ");
    push_str(&mut s, service);
    push_str(&mut s, " not configured");
    s
}

/// The address a request is proxied to: the service's address, the path, and
/// the query if there is one.
pub fn target_url(service_url: &str, path: &str, query: Option<&str>) -> (r: String)
    ensures
        r@ == service_url@ + "/"@ + path@ + match query {
            Some(q) => "?"@ + q@,
            None => Seq::empty(),
        },
{
    let mut s = string_of(service_url);
    push_char(&mut s, '/');
    push_str(&mut s, path);
    match query {
        Some(q) => {
            push_char(&mut s, '?');
            push_str(&mut s, q);
            assert(s@ =~= service_url@ + "/"@ + path@ + ("?"@ + q@)) by {
                reveal_strlit("/");
                reveal_strlit("?");
            }
        }
        None => {
            assert(s@ =~= service_url@ + "/"@ + path@ + Seq::<char>::empty()) by {
                reveal_strlit("/");
            }
        }
    }
    s
}

/// The route as the rate limits and permissions name it.
pub fn full_api_path(service: &str, path: &str) -> (r: String)
    ensures
        r@ == "/api/"@ + service@ + "/"@ + path@,
{
    let mut s = string_of("/api/");
    push_str(&mut s, service);
    push_char(&mut s, '/');
    push_str(&mut s, path);
    assert(s@ =~= "/api/"@ + service@ + "/"@ + path@) by {
        reveal_strlit("/");
    }
    s
}

/// The port on which chess instances take sockets.
pub const CHESS_WS_PORT: u16 = 8082;

/// The socket address of the chess instance `instance_id`.
pub fn instance_ws_url(instance_id: &str) -> (r: String)
    ensures
        r@ == "ws://"@ + instance_id@ + ":"@ + decimal(CHESS_WS_PORT as nat),
{
    let mut s = string_of("ws://");
    push_str(&mut s, instance_id);
    push_char(&mut s, ':');
    push_decimal(&mut s, CHESS_WS_PORT as u64);
    assert(s@ =~= "ws://"@ + instance_id@ + ":"@ + decimal(CHESS_WS_PORT as nat)) by {
        reveal_strlit(":");
    }
    s
}

// ---------------------------------------------------------------- access

/// Whether a request for `service` and `path` needs an account whose profile
/// is complete: every user route but the caller's own profile and the route
/// that completes it, and every room route.
pub open spec fn account_validation_required(service: Seq<char>, path: Seq<char>) -> bool {
    if service == "user"@ {
        !(path == "me"@ || starts_with(path, "me/"@) || path == "finish_account"@ || starts_with(path, "finish_account/"@))
    } else {
        service == "room"@
    }
}

pub open spec fn starts_with(s: Seq<char>, p: Seq<char>) -> bool {
    p.len() <= s.len() && s.subrange(0, p.len() as int) == p
}

pub fn is_account_validation_required(service: &str, path: &str) -> (r: bool)
    ensures
        r == account_validation_required(service@, path@),
{
    if str_eq(service, "user") {
        if str_eq(path, "me") || has_prefix(path, "me/") || str_eq(path, "finish_account")
            || has_prefix(path, "finish_account/") {
            return false;
        }
        return true;
    }
    str_eq(service, "room")
}

/// Why the gateway turns a request away before it reaches the service.
#[derive(Debug, Clone, Copy, PartialEq, Eq, Structural)]
pub enum AccessError {
    MissingToken,
    Revoked,
    InvalidToken,
    NotValidated,
    RateLimited,
    Forbidden,
    Internal,
}

/// Why an access token could not be read: no public key to check it with, a
/// public key that does not parse, or a token that does not pass.
#[derive(Debug, Clone, Copy, PartialEq, Eq, Structural)]
pub enum TokenError {
    KeyUnavailable,
    BadKey,
    Invalid,
}

/// A claim of a token's payload, as far as the access checks read it: a text,
/// a number (with its value where it is a 64-bit integer), or anything else.
#[derive(Debug, Clone)]
pub enum ClaimValue {
    Text(String),
    Number(Option<i64>),
    Other,
}

pub enum ClaimValueView {
    Text(Seq<char>),
    Number(Option<i64>),
    Other,
}

impl View for ClaimValue {
    type V = ClaimValueView;

    open spec fn view(&self) -> ClaimValueView {
        match self {
            ClaimValue::Text(t) => ClaimValueView::Text(t@),
            ClaimValue::Number(n) => ClaimValueView::Number(*n),
            ClaimValue::Other => ClaimValueView::Other,
        }
    }
}

/// A payload as names and claim values.
pub open spec fn payload_view(p: Seq<(String, ClaimValue)>) -> Seq<(Seq<char>, ClaimValueView)> {
    p.map_values(|c: (String, ClaimValue)| (c.0@, c.1@))
}

/// The first claim named `key` among the claims from `i` on.
pub open spec fn claim_from(p: Seq<(Seq<char>, ClaimValueView)>, key: Seq<char>, i: int) -> Option<ClaimValueView>
    decreases p.len() - i,
{
    if i < 0 || i >= p.len() {
        None
    } else if p[i].0 == key {
        Some(p[i].1)
    } else {
        claim_from(p, key, i + 1)
    }
}

pub open spec fn text_claim(p: Seq<(Seq<char>, ClaimValueView)>, key: Seq<char>) -> Option<Seq<char>> {
    match claim_from(p, key, 0) {
        Some(ClaimValueView::Text(t)) => Some(t),
        _ => None,
    }
}

pub open spec fn integer_claim(p: Seq<(Seq<char>, ClaimValueView)>, key: Seq<char>) -> bool {
    claim_from(p, key, 0) matches Some(ClaimValueView::Number(Some(_)))
}

/// The subject and user name of a payload that holds every claim of an access
/// token, each of its type: texts `sub`, `username`, `email` and `token_type`,
/// integers `exp` and `iat`. A payload that lacks one is no access token.
pub open spec fn token_claims(p: Seq<(Seq<char>, ClaimValueView)>) -> Option<(Seq<char>, Seq<char>)> {
    if text_claim(p, "sub"@) is Some && integer_claim(p, "exp"@) && integer_claim(p, "iat"@)
        && text_claim(p, "username"@) is Some && text_claim(p, "email"@) is Some
        && text_claim(p, "token_type"@) is Some {
        Some((text_claim(p, "sub"@)->0, text_claim(p, "username"@)->0))
    } else {
        None
    }
}

/// Where in the payload the first claim named `key` stands.
fn find_claim(p: &Vec<(String, ClaimValue)>, key: &str) -> (r: Option<usize>)
    ensures
        match r {
            Some(i) => i < p@.len() && claim_from(payload_view(p@), key@, 0) == Some(p@[i as int].1@),
            None => claim_from(payload_view(p@), key@, 0) is None,
        },
{
    let ghost v = payload_view(p@);
    let mut i: usize = 0;
    while i < p.len()
        invariant
            i <= p@.len(),
            v == payload_view(p@),
            v.len() == p@.len(),
            claim_from(v, key@, 0) == claim_from(v, key@, i as int),
        decreases p.len() - i,
    {
        assert(v[i as int] == (p@[i as int].0@, p@[i as int].1@));
        if str_eq(p[i].0.as_str(), key) {
            return Some(i);
        }
        i = i + 1;
    }
    None
}

fn text_of(p: &Vec<(String, ClaimValue)>, key: &str) -> (r: Option<String>)
    ensures
        match r {
            Some(t) => text_claim(payload_view(p@), key@) == Some(t@),
            None => text_claim(payload_view(p@), key@) is None,
        },
{
    match find_claim(p, key) {
        Some(i) => match &p[i].1 {
            ClaimValue::Text(t) => Some(string_of(t.as_str())),
            _ => None,
        },
        None => None,
    }
}

fn has_integer(p: &Vec<(String, ClaimValue)>, key: &str) -> (r: bool)
    ensures
        r == integer_claim(payload_view(p@), key@),
{
    match find_claim(p, key) {
        Some(i) => match &p[i].1 {
            ClaimValue::Number(Some(_)) => true,
            _ => false,
        },
        None => false,
    }
}

/// The subject and user name of an access token's payload, where it holds
/// every claim of an access token.
pub fn claims_of(p: &Vec<(String, ClaimValue)>) -> (r: Option<(String, String)>)
    ensures
        match r {
            Some((sub, name)) => token_claims(payload_view(p@)) == Some((sub@, name@)),
            None => token_claims(payload_view(p@)) is None,
        },
{
    proof {
        reveal_strlit("sub");
        reveal_strlit("exp");
        reveal_strlit("iat");
        reveal_strlit("username");
        reveal_strlit("email");
        reveal_strlit("token_type");
    }
    let sub = text_of(p, "sub");
    let exp = has_integer(p, "exp");
    let iat = has_integer(p, "iat");
    let name = text_of(p, "username");
    let email = text_of(p, "email");
    let kind = text_of(p, "token_type");
    match (sub, name) {
        (Some(sub), Some(name)) => {
            if exp && iat && email.is_some() && kind.is_some() {
                Some((sub, name))
            } else {
                None
            }
        },
        _ => None,
    }
}

/// Whether `jsonwebtoken::DecodingKey::from_rsa_pem` accepts the text as an
/// RSA public key in PEM form: a function of the text alone.
pub uninterp spec fn rsa_pem_accepted(pem: Seq<char>) -> bool;

/// Whether `jsonwebtoken::decode`, under RS256 validation with the RSA public
/// key in `pem`, finds in order all of `token` that does not depend on the
/// clock: a header that names RS256, a signature that checks out against the
/// key, and claims that pass the checks other than the expiry. A function of
/// the two texts alone.
pub uninterp spec fn rs256_signed(token: Seq<char>, pem: Seq<char>) -> bool;

/// The claims written in a token's payload segment, as `jsonwebtoken::decode`
/// hands them out into a `serde_json::Map` (in the map's order), each turned
/// into a claim value: a function of the token's text alone.
pub uninterp spec fn token_payload(token: Seq<char>) -> Seq<(Seq<char>, ClaimValueView)>;

/// Reads the RSA public key in `pem` with `DecodingKey::from_rsa_pem`
/// (`BadKey` where it is refused), checks the token with `jsonwebtoken::decode`
/// under RS256 validation against that key (the signature, and the expiry
/// against the clock), and hands out its payload, each claim turned into a
/// `ClaimValue` (a number through `serde_json::Number::as_i64`); `Invalid`
/// where the token does not pass. Whether a signed token passes depends on the
/// clock and is not stated; a token that passes is signed with the key, and
/// what is handed out is the token's own payload.
#[verifier::external_body]
fn verified_payload(token: &str, pem: &str) -> (r: Result<Vec<(String, ClaimValue)>, TokenError>)
    ensures
        (r matches Err(TokenError::BadKey)) <==> !rsa_pem_accepted(pem@),
        r matches Err(e) ==> (e == TokenError::BadKey || e == TokenError::Invalid),
        r is Ok ==> rs256_signed(token@, pem@),
        r matches Ok(p) ==> payload_view(p@) == token_payload(token@),
{
    let key = DecodingKey::from_rsa_pem(pem.as_bytes()).map_err(|_| TokenError::BadKey)?;
    match decode::<serde_json::Map<String, Value>>(token, &key, &Validation::new(Algorithm::RS256)) {
        Ok(data) => Ok(data.claims.into_iter().map(|(k, v)| (k, match v {
            Value::String(t) => ClaimValue::Text(t),
            Value::Number(n) => ClaimValue::Number(n.as_i64()),
            Value::Null => ClaimValue::Other,
            Value::Bool(_) => ClaimValue::Other,
            Value::Array(_) => ClaimValue::Other,
            Value::Object(_) => ClaimValue::Other,
        })).collect()),
        Err(_) => Err(TokenError::Invalid),
    }
}

/// What reading `token` with a public key may give: no key gives
/// `KeyUnavailable`, a key that does not parse gives `BadKey` and nothing else
/// does, a token whose payload is no access token gives `Invalid`, and a token
/// read is signed with the key and gives the subject and user name written in
/// its payload.
pub open spec fn decoding_allowed(d: Result<(String, String), TokenError>, token: Seq<char>, public_pem: Option<&str>) -> bool {
    (match public_pem {
        None => d == Err::<(String, String), TokenError>(TokenError::KeyUnavailable),
        Some(pem) => d != Err::<(String, String), TokenError>(TokenError::KeyUnavailable)
            && ((d == Err::<(String, String), TokenError>(TokenError::BadKey)) <==> !rsa_pem_accepted(pem@))
            && (rsa_pem_accepted(pem@) && token_claims(token_payload(token)) is None
                ==> d == Err::<(String, String), TokenError>(TokenError::Invalid))
            && (d is Ok ==> rs256_signed(token, pem@)),
    }) && (match d {
        Ok((sub, name)) => token_claims(token_payload(token)) == Some((sub@, name@)),
        Err(_) => true,
    })
}

/// Reads an access token with the gateway's public key: the subject and user
/// name written in it, or why it cannot be read.
pub fn decode_access_token(token: &str, public_pem: Option<&str>) -> (r: Result<(String, String), TokenError>)
    ensures
        decoding_allowed(r, token@, public_pem),
        r is Ok ==> (public_pem is Some && rs256_signed(token@, public_pem->0@)),
{
    let pem = match public_pem {
        Some(pem) => pem,
        None => return Err(TokenError::KeyUnavailable),
    };
    let payload = match verified_payload(token, pem) {
        Ok(p) => p,
        Err(e) => return Err(e),
    };
    match claims_of(&payload) {
        Some(c) => Ok(c),
        None => Err(TokenError::Invalid),
    }
}

/// Whether the claims read are those of the subject `sub`.
pub open spec fn subject_is(c: Option<(Seq<char>, Seq<char>)>, sub: Seq<char>) -> bool {
    match c {
        Some((s, _)) => s == sub,
        None => false,
    }
}

pub open spec fn decoded_view(d: Result<(String, String), TokenError>) -> Result<(Seq<char>, Seq<char>), TokenError> {
    match d {
        Ok((sub, name)) => Ok((sub@, name@)),
        Err(e) => Err(e),
    }
}

/// The token checks of a request, given what the token store answered about
/// revocation (`None` where it could not answer) and what reading the token
/// gave: the auth service needs no token; otherwise the token must be present,
/// not revoked, and readable, and the account complete where the route needs
/// it. A store or key that fails is an internal error.
pub open spec fn token_verdict(
    service: Seq<char>,
    path: Seq<char>,
    token_present: bool,
    revoked: Option<bool>,
    decoded: Result<(Seq<char>, Seq<char>), TokenError>,
) -> Result<(), AccessError> {
    if service == "auth"@ {
        Ok(())
    } else if !token_present {
        Err(AccessError::MissingToken)
    } else {
        match revoked {
            None => Err(AccessError::Internal),
            Some(true) => Err(AccessError::Revoked),
            Some(false) => match decoded {
                Err(TokenError::Invalid) => Err(AccessError::InvalidToken),
                Err(_) => Err(AccessError::Internal),
                Ok((_, username)) => if account_validation_required(service, path) && username.len() == 0 {
                    Err(AccessError::NotValidated)
                } else {
                    Ok(())
                },
            },
        }
    }
}

/// The token checks of a request, given the revocation answer and what
/// reading the token gave.
pub fn token_verdict_after(
    service: &str,
    path: &str,
    token_present: bool,
    revoked: Option<bool>,
    decoded: &Result<(String, String), TokenError>,
) -> (r: Result<(), AccessError>)
    ensures
        r == token_verdict(service@, path@, token_present, revoked, decoded_view(*decoded)),
{
    if str_eq(service, "auth") {
        return Ok(());
    }
    if !token_present {
        return Err(AccessError::MissingToken);
    }
    match revoked {
        None => return Err(AccessError::Internal),
        Some(true) => return Err(AccessError::Revoked),
        Some(false) => {},
    }
    match decoded {
        Err(TokenError::Invalid) => Err(AccessError::InvalidToken),
        Err(_) => Err(AccessError::Internal),
        Ok((_, username)) => {
            if is_account_validation_required(service, path) && username.unicode_len() == 0 {
                Err(AccessError::NotValidated)
            } else {
                Ok(())
            }
        },
    }
}

/// The token checks of a request for `service` and `path`: `token` is the
/// `access_token` cookie, `revoked` what the token store answered (`None`
/// where it could not answer), and `public_pem` the gateway's public key
/// (`None` where it could not be had). The token is read only where the
/// earlier checks pass.
pub fn validate_token_for_service(
    service: &str,
    path: &str,
    token: Option<&str>,
    revoked: Option<bool>,
    public_pem: Option<&str>,
) -> (r: Result<(), AccessError>)
    ensures
        service@ == "auth"@ ==> r == Ok::<(), AccessError>(()),
        service@ != "auth"@ && token is None ==> r == Err::<(), AccessError>(AccessError::MissingToken),
        service@ != "auth"@ && token is Some && revoked is None ==> r == Err::<(), AccessError>(AccessError::Internal),
        service@ != "auth"@ && token is Some && revoked == Some(true) ==> r == Err::<(), AccessError>(AccessError::Revoked),
        service@ != "auth"@ && r is Ok ==> (token is Some && public_pem is Some
            && rs256_signed(token->0@, public_pem->0@)),
        service@ != "auth"@ && token is Some && revoked == Some(false) ==> exists|d: Result<(String, String), TokenError>|
            decoding_allowed(d, token->0@, public_pem)
            && r == #[trigger] token_verdict(service@, path@, true, revoked, decoded_view(d)),
{
    let t = match token {
        Some(t) => t,
        None => return token_verdict_after(service, path, false, revoked, &Err(TokenError::Invalid)),
    };
    if str_eq(service, "auth") || revoked != Some(false) {
        return token_verdict_after(service, path, true, revoked, &Err(TokenError::Invalid));
    }
    let d = decode_access_token(t, public_pem);
    token_verdict_after(service, path, true, revoked, &d)
}

/// The subject of an access token, where there is one and it can be read with
/// the gateway's public key.
pub fn extract_user_sub(token: Option<&str>, public_pem: Option<&str>) -> (r: Option<String>)
    ensures
        token is None ==> r is None,
        public_pem is None ==> r is None,
        public_pem matches Some(pem) && !rsa_pem_accepted(pem@) ==> r is None,
        (token matches Some(t) && token_claims(token_payload(t@)) is None) ==> r is None,
        r matches Some(sub) ==> (token matches Some(t) && subject_is(token_claims(token_payload(t@)), sub@)),
        r is Some ==> (token is Some && public_pem is Some && rs256_signed(token->0@, public_pem->0@)),
{
    let t = match token {
        Some(t) => t,
        None => return None,
    };
    match decode_access_token(t, public_pem) {
        Ok((sub, _)) => Some(sub),
        Err(_) => None,
    }
}

/// A user over the limit of a route is turned away.
pub fn over_rate_limit(count: u64, limit: u64) -> (r: bool)
    ensures
        r == (count > limit),
{
    count > limit
}

pub open spec fn holds_any(required: Seq<Seq<char>>, held: Seq<Seq<char>>) -> bool {
    exists|i: int, j: int| 0 <= i < required.len() && 0 <= j < held.len() && #[trigger] required[i] == #[trigger] held[j]
}

/// The permission check of a route: a route that needs no permission, or a user
/// whose permissions are not cached, passes; otherwise the user must hold one
/// of the permissions that the route names.
pub open spec fn permission_verdict(required: Seq<Seq<char>>, held: Seq<Seq<char>>) -> bool {
    required.len() == 0 || held.len() == 0 || holds_any(required, held)
}

pub open spec fn texts(v: Seq<String>) -> Seq<Seq<char>> {
    v.map_values(|s: String| s@)
}

pub fn permission_allows(required: &Vec<String>, held: &Vec<String>) -> (r: bool)
    ensures
        r == permission_verdict(texts(required@), texts(held@)),
{
    if required.len() == 0 || held.len() == 0 {
        return true;
    }
    let mut j: usize = 0;
    while j < held.len()
        invariant
            j <= held.len(),
            forall|a: int, b: int| 0 <= a < required@.len() && 0 <= b < j ==> required@[a]@ != held@[b]@,
        decreases held.len() - j,
    {
        let mut i: usize = 0;
        while i < required.len()
            invariant
                i <= required.len(),
                j < held.len(),
                forall|a: int, b: int| 0 <= a < required@.len() && 0 <= b < j ==> required@[a]@ != held@[b]@,
                forall|a: int| 0 <= a < i ==> required@[a]@ != held@[j as int]@,
            decreases required.len() - i,
        {
            if str_eq(required[i].as_str(), held[j].as_str()) {
                assert(texts(required@)[i as int] == texts(held@)[j as int]);
                return true;
            }
            i = i + 1;
        }
        j = j + 1;
    }
    assert forall|a: int, b: int| 0 <= a < texts(required@).len() && 0 <= b < texts(held@).len()
        implies texts(required@)[a] != texts(held@)[b] by {
        assert(texts(required@)[a] == required@[a]@);
        assert(texts(held@)[b] == held@[b]@);
    }
    false
}

// ---------------------------------------------------------------- cookies

/// What `cookie::Cookie::split_parse` makes of a `Cookie` header: one entry for
/// each part between `;` that is not blank, with the part's name and value, or
/// `None` where the part does not parse.
pub uninterp spec fn cookie_pairs(header: Seq<char>) -> Seq<Option<(Seq<char>, Seq<char>)>>;

pub open spec fn pair_views(v: Seq<Option<(String, String)>>) -> Seq<Option<(Seq<char>, Seq<char>)>> {
    v.map_values(|o: Option<(String, String)>| match o {
        Some((a, b)) => Some((a@, b@)),
        None => None,
    })
}

/// Calls `cookie::Cookie::split_parse` on the header and turns each parsed
/// cookie into its name and value (`Cookie::name`, `Cookie::value`), and each
/// parse error into `None`. The contract names the result `cookie_pairs`.
#[verifier::external_body]
fn split_cookie_header(header: &str) -> (r: Vec<Option<(String, String)>>)
    ensures
        pair_views(r@) == cookie_pairs(header@),
{
    cookie::Cookie::split_parse(header)
        .map(|c| match c {
            Ok(c) => Some((c.name().to_string(), c.value().to_string())),
            Err(_) => None,
        })
        .collect()
}

/// The value of the first cookie named `name` among the parts from `i` on.
pub open spec fn cookie_from(parts: Seq<Option<(Seq<char>, Seq<char>)>>, name: Seq<char>, i: int) -> Option<Seq<char>>
    decreases parts.len() - i,
{
    if i < 0 || i >= parts.len() {
        None
    } else {
        match parts[i] {
            Some(p) => if p.0 == name { Some(p.1) } else { cookie_from(parts, name, i + 1) },
            None => cookie_from(parts, name, i + 1),
        }
    }
}

/// The value of the cookie `name` in a `Cookie` header.
pub fn extract_cookie(header: &str, name: &str) -> (r: Option<String>)
    ensures
        match r {
            Some(v) => cookie_from(cookie_pairs(header@), name@, 0) == Some(v@),
            None => cookie_from(cookie_pairs(header@), name@, 0) is None,
        },
{
    let parts = split_cookie_header(header);
    let ghost pv = cookie_pairs(header@);
    let mut i: usize = 0;
    while i < parts.len()
        invariant
            i <= parts.len(),
            pair_views(parts@) == pv,
            pv == cookie_pairs(header@),
            cookie_from(pv, name@, 0) == cookie_from(pv, name@, i as int),
        decreases parts.len() - i,
    {
        assert(pv[i as int] == (match parts@[i as int] {
            Some((a, b)) => Some((a@, b@)),
            None => None::<(Seq<char>, Seq<char>)>,
        }));
        match &parts[i] {
            Some((n, v)) => {
                if str_eq(n.as_str(), name) {
                    assert(parts@[i as int] == Some((*n, *v)));
                    assert(pv[i as int] == Some((n@, v@)));
                    assert(cookie_from(pv, name@, i as int) == Some(v@));
                    return Some(string_of(v.as_str()));
                }
            }
            None => {}
        }
        i = i + 1;
    }
    None
}

// ---------------------------------------------------------------- configuration

/// How many random ports the metrics fallback replaces before it gives up.
pub const MAX_PORT_ATTEMPTS: u32 = 100;

/// What the metrics fallback does with the port it drew.
#[derive(Debug, Clone, Copy, PartialEq, Eq, Structural)]
pub enum PortAction {
    /// The port is free: metrics are served on it.
    Use,
    /// The port is taken: another is drawn.
    TryAnother,
    /// Too many ports were replaced: metrics are turned off.
    GiveUp,
}

pub open spec fn port_step(attempts: u32, port_free: bool) -> PortAction {
    if attempts >= MAX_PORT_ATTEMPTS {
        PortAction::GiveUp
    } else if port_free {
        PortAction::Use
    } else {
        PortAction::TryAnother
    }
}

/// One step of the search for a metrics port, `attempts` ports having been
/// replaced already.
pub fn port_search_step(attempts: u32, port_free: bool) -> (a: PortAction)
    ensures
        a == port_step(attempts, port_free),
{
    if attempts >= MAX_PORT_ATTEMPTS {
        PortAction::GiveUp
    } else if port_free {
        PortAction::Use
    } else {
        PortAction::TryAnother
    }
}

/// The port that the search settles on, from the `i`-th drawn port on: the
/// first free one among the first `MAX_PORT_ATTEMPTS` draws, and none where the
/// draws run out first.
pub open spec fn port_search_from(tries: Seq<(u16, bool)>, i: int) -> Option<u16>
    decreases tries.len() - i,
{
    if i < 0 || i >= tries.len() || i >= MAX_PORT_ATTEMPTS {
        None
    } else if tries[i].1 {
        Some(tries[i].0)
    } else {
        port_search_from(tries, i + 1)
    }
}

/// The search for a metrics port over the ports drawn in turn, each with
/// whether it was free.
pub fn first_free_port(tries: &Vec<(u16, bool)>) -> (r: Option<u16>)
    ensures
        r == port_search_from(tries@, 0),
{
    let mut i: usize = 0;
    while i < tries.len()
        invariant
            i <= tries@.len(),
            i <= MAX_PORT_ATTEMPTS,
            port_search_from(tries@, 0) == port_search_from(tries@, i as int),
        decreases tries.len() - i,
    {
        match port_search_step(i as u32, tries[i].1) {
            PortAction::GiveUp => return None,
            PortAction::Use => return Some(tries[i].0),
            PortAction::TryAnother => {},
        }
        i = i + 1;
    }
    None
}

/// The gateway's addresses and ports.
#[derive(Debug, Clone)]
pub struct ServiceConfig {
    pub service_name: String,
    pub instance_id: Option<String>,
    pub api_port: Option<u16>,
    pub metrics_port: Option<u16>,
    pub metrics_manager_url: Option<String>,
    pub metrics_manager_connected: bool,
    pub redis_url: Option<String>,
    pub auth_api_url: Option<String>,
    pub user_api_url: Option<String>,
    pub game_api_url: Option<String>,
    pub notification_api_url: Option<String>,
}

/// An instance id of the gateway: `gateway-` and twelve letters or digits.
pub open spec fn gateway_id(t: Seq<char>) -> bool {
    &&& t.len() == 20
    &&& t.subrange(0, 8) == "gateway-"@
    &&& forall|i: int| 8 <= i < 20 ==> alphanumeric(#[trigger] t[i])
}

impl ServiceConfig {
    /// A fresh random instance id.
    pub fn generate_random_id() -> (r: String)
        ensures
            gateway_id(r@),
    {
        let random_id = random_alphanumeric(12);
        let mut s = string_of("gateway-");
        push_str(&mut s, random_id.as_str());
        proof {
            reveal_strlit("gateway-");
            assert(s@.subrange(0, 8) =~= "gateway-"@);
            assert forall|i: int| 8 <= i < 20 implies alphanumeric(#[trigger] s@[i]) by {
                assert(s@[i] == random_id@[i - 8]);
            }
        }
        s
    }

    /// Runs the gateway without the metrics manager: a fresh instance id and
    /// the free port that the port search found; without a free port, metrics
    /// are turned off and the instance id is left as it was.
    pub fn metrics_fallback(&mut self, free_port: Option<u16>)
        ensures
            !final(self).metrics_manager_connected,
            final(self).metrics_port == free_port,
            free_port is None ==> final(self).instance_id == old(self).instance_id,
            free_port is Some ==> (final(self).instance_id matches Some(id) && gateway_id(id@)),
            final(self).service_name == old(self).service_name,
            final(self).api_port == old(self).api_port,
            final(self).metrics_manager_url == old(self).metrics_manager_url,
            final(self).redis_url == old(self).redis_url,
            final(self).auth_api_url == old(self).auth_api_url,
            final(self).user_api_url == old(self).user_api_url,
            final(self).game_api_url == old(self).game_api_url,
            final(self).notification_api_url == old(self).notification_api_url,
    {
        let instance_id = ServiceConfig::generate_random_id();
        self.metrics_manager_connected = false;
        match free_port {
            None => {
                self.metrics_port = None;
            }
            Some(port) => {
                self.instance_id = Some(instance_id);
                self.metrics_port = Some(port);
            }
        }
    }
}

/// The answer of the health route.
#[derive(Debug, Clone)]
pub struct HealthResponse {
    pub status: String,
    pub service: String,
}

/// The body of an error answer.
#[derive(Debug, Clone)]
pub struct ErrorResponse {
    pub error: String,
    pub status: u16,
}

/// The claims of an access token.
#[derive(Debug, Clone)]
pub struct TokenClaims {
    pub sub: String,
    pub exp: i64,
    pub iat: i64,
    pub username: String,
    pub email: String,
    pub token_type: String,
}

impl HealthResponse {
    /// The health answer of `service`, healthy or not.
    pub fn of(healthy: bool, service: &str) -> (r: HealthResponse)
        ensures
            r.status@ == (if healthy { "healthy"@ } else { "unhealthy"@ }),
            r.service@ == service@,
    {
        HealthResponse { status: string_of(if healthy { "healthy" } else { "unhealthy" }), service: string_of(service) }
    }
}

impl ErrorResponse {
    /// The error answer of each refusal of the access checks.
    pub fn for_access(e: AccessError) -> (r: ErrorResponse)
        ensures
            (r.status, r.error@) == (match e {
                AccessError::MissingToken => (401u16, "Missing access token"@),
                AccessError::Revoked => (401u16, "Token has been revoked"@),
                AccessError::NotValidated => (403u16, "Account not validated. Please complete your profile."@),
                AccessError::RateLimited => (429u16, "Rate limit exceeded"@),
                AccessError::Forbidden => (403u16, "Forbidden: missing permission"@),
                AccessError::InvalidToken => (401u16, "Invalid or expired token"@),
                AccessError::Internal => (500u16, "Internal server error"@),
            }),
    {
        match e {
            AccessError::MissingToken => ErrorResponse { error: string_of("Missing access token"), status: 401 },
            AccessError::Revoked => ErrorResponse { error: string_of("Token has been revoked"), status: 401 },
            AccessError::NotValidated => ErrorResponse {
                error: string_of("Account not validated. Please complete your profile."),
                status: 403,
            },
            AccessError::RateLimited => ErrorResponse { error: string_of("Rate limit exceeded"), status: 429 },
            AccessError::Forbidden => ErrorResponse { error: string_of("Forbidden: missing permission"), status: 403 },
            AccessError::InvalidToken => ErrorResponse { error: string_of("Invalid or expired token"), status: 401 },
            AccessError::Internal => ErrorResponse { error: string_of("Internal server error"), status: 500 },
        }
    }
}

// ---------------------------------------------------------------- answers

/// A service answer whose content type streams events is passed on as a stream.
pub fn is_event_stream(content_type: &str) -> (r: bool)
    ensures
        r == exists|i: int| #[trigger] occurs_at(content_type@, "text/event-stream"@, i),
{
    contains_text(content_type, "text/event-stream")
}

/// An answer of a directly proxied service counts as an error from 400 on.
pub fn is_error_status(status: u16) -> (r: bool)
    ensures
        r == (status >= 400),
{
    status >= 400
}

/// An answer over the request queue counts as an error when it is a client or
/// a server error.
pub fn is_failure_status(status: u16) -> (r: bool)
    ensures
        r == (400 <= status && status < 600),
{
    400 <= status && status < 600
}

/// The status of an answer that came over the response stream: the `status` it
/// names (200 when it names none), cut to 16 bits; one outside 100 to 999 is
/// answered as 500.
pub fn response_status(named: Option<u64>) -> (r: u16)
    ensures
        ({
            let s = (match named {
                Some(v) => v,
                None => 200u64,
            }) as u16;
            r == if 100 <= s && s <= 999 { s } else { 500u16 }
        }),
{
    let s = match named {
        Some(v) => v as u16,
        None => 200u16,
    };
    if 100 <= s && s <= 999 { s } else { 500 }
}

/// The status of a queued request that got no answer: a gateway timeout once
/// the wait reached 30 seconds, else an internal error.
pub fn timeout_status(waited_secs: u64) -> (r: u16)
    ensures
        r == (if waited_secs >= 30 { 504u16 } else { 500u16 }),
{
    if waited_secs >= 30 { 504 } else { 500 }
}

/// The request queue of a service.
pub fn request_queue(service: &str) -> (r: String)
    ensures
        r@ == service@ + ":requests"@,
{
    let mut s = string_of(service);
    push_str(&mut s, ":requests");
    s
}

/// The value of the last cookie named `name` among the parts from `i` on that
/// parsed, as a map from names to values built in order keeps it.
pub open spec fn last_cookie_from(parts: Seq<Option<(Seq<char>, Seq<char>)>>, name: Seq<char>, i: int) -> Option<Seq<char>>
    decreases i,
{
    if i <= 0 || i > parts.len() {
        None
    } else {
        match parts[i - 1] {
            Some(p) => if p.0 == name { Some(p.1) } else { last_cookie_from(parts, name, i - 1) },
            None => last_cookie_from(parts, name, i - 1),
        }
    }
}

/// The value that the cookie map of a request gives `name`: the last cookie of
/// that name in the header.
pub fn last_cookie(header: &str, name: &str) -> (r: Option<String>)
    ensures
        match r {
            Some(v) => last_cookie_from(cookie_pairs(header@), name@, cookie_pairs(header@).len() as int) == Some(v@),
            None => last_cookie_from(cookie_pairs(header@), name@, cookie_pairs(header@).len() as int) is None,
        },
{
    let parts = split_cookie_header(header);
    let ghost pv = cookie_pairs(header@);
    let n = parts.len();
    let mut i: usize = n;
    while i > 0
        invariant
            i <= n,
            n == parts@.len(),
            pair_views(parts@) == pv,
            pv == cookie_pairs(header@),
            last_cookie_from(pv, name@, n as int) == last_cookie_from(pv, name@, i as int),
        decreases i,
    {
        assert(pv[i - 1] == (match parts@[i - 1] {
            Some((a, b)) => Some((a@, b@)),
            None => None::<(Seq<char>, Seq<char>)>,
        }));
        match &parts[i - 1] {
            Some((k, v)) => {
                if str_eq(k.as_str(), name) {
                    assert(parts@[i - 1] == Some((*k, *v)));
                    assert(pv[i - 1] == Some((k@, v@)));
                    return Some(string_of(v.as_str()));
                }
            }
            None => {}
        }
        i = i - 1;
    }
    None
}

} // verus!
