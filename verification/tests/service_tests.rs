use cardmate::board::types::Color;
use cardmate::game_loop::state::GameLoop;
use cardmate::gateway::{
    chess_socket_target, claims_of, decode_access_token, extract_user_sub, first_free_port, method_error,
    port_search_step, route_error, token_verdict_after, validate_token_for_service, ClaimValue, PortAction, TokenError, extract_cookie, full_api_path, instance_ws_url, is_account_validation_required,
    is_error_status, is_event_stream, is_failure_status, last_cookie, not_configured_message, over_rate_limit,
    parse_service_path, permission_allows, query_game_id, request_queue, response_status, route_api,
    should_forward_header, should_forward_header_str, target_url, timeout_status, unknown_socket_message,
    AccessError, ApiRoute, ErrorResponse, HealthResponse, ServiceConfig,
};
use cardmate::lifecycle::{abandon_winner, color_label, initial_time_ms, parse_u64, players_to_clean};
use cardmate::lobby::{PlayerId, Seat, Seating};
use cardmate::notification::{user_routing_key, NotificationMetadata, NotificationTarget};
use cardmate::registry::{game_mapping_key, game_players_key, is_listed_player, with_load, ChessInstanceInfo, WsParams};
use cardmate::session::{heartbeat_missed_after, leaves_for_good, should_auto_start, RateWindow};

fn seat(user: &str) -> Seat {
    Seat { user_id: user.to_string(), username: format!("name-{}", user), picture_id: String::new() }
}

fn strings(v: &[&str]) -> Vec<String> {
    v.iter().map(|s| s.to_string()).collect()
}

#[test]
fn headers_are_filtered_in_any_case() {
    assert!(should_forward_header("Content-Type"));
    assert!(should_forward_header("X-Forwarded-For"));
    assert!(!should_forward_header("X-Secret"));
    assert!(should_forward_header_str("SET-COOKIE"));
    assert!(!should_forward_header_str("x-forwarded-for"));
    assert!(!should_forward_header_str("host"));
}

#[test]
fn service_paths_split_after_the_service() {
    assert_eq!(parse_service_path("user/me/settings"), ("user".to_string(), "me/settings".to_string()));
    assert_eq!(parse_service_path("//chess"), ("chess".to_string(), String::new()));
    assert_eq!(parse_service_path("/auth/"), ("auth".to_string(), String::new()));
    assert_eq!(parse_service_path(""), (String::new(), String::new()));
}

#[test]
fn socket_queries_name_the_game() {
    assert_eq!(query_game_id("game_id=abc&x=1"), Some("abc".to_string()));
    assert_eq!(query_game_id("x=1&game_id=42=7"), Some("42".to_string()));
    assert_eq!(query_game_id("game_id="), Some(String::new()));
    assert_eq!(query_game_id("gameid=3&y"), None);
    assert_eq!(query_game_id(""), None);
}

#[test]
fn requests_are_routed_by_service() {
    assert!(matches!(route_api(true, "chess", ""), ApiRoute::ChessSocket { ref path } if path == "chess"));
    assert!(matches!(route_api(true, "chess", "play"), ApiRoute::ChessSocket { ref path } if path == "play"));
    assert!(matches!(route_api(true, "user", "x"), ApiRoute::UnknownSocket));
    assert!(matches!(route_api(false, "notifications", ""), ApiRoute::Notifications { ref path } if path == "notifications"));
    assert!(matches!(route_api(false, "auth", "login"), ApiRoute::Auth));
    assert!(matches!(route_api(false, "room", "list"), ApiRoute::Queued));
    assert!(matches!(route_api(false, "permission", ""), ApiRoute::Queued));
    assert!(matches!(route_api(false, "shop", ""), ApiRoute::Unknown));
    assert_eq!(unknown_socket_message("user"), "Unknown WebSocket service: user");
    assert_eq!(not_configured_message("chess"), "Service chess not configured");
    assert_eq!(chess_socket_target(None, Some("ws://c:1".to_string())), Some("ws://c:1".to_string()));
    assert_eq!(chess_socket_target(Some("ws://a".to_string()), Some("ws://c".to_string())), Some("ws://a".to_string()));
}

#[test]
fn proxy_targets_and_keys() {
    assert_eq!(target_url("http://auth:3000", "login", Some("a=1")), "http://auth:3000/login?a=1");
    assert_eq!(target_url("http://auth:3000", "login", None), "http://auth:3000/login");
    assert_eq!(full_api_path("user", "me"), "/api/user/me");
    assert_eq!(instance_ws_url("chess-1"), "ws://chess-1:8082");
    assert_eq!(request_queue("room"), "room:requests");
    assert_eq!(game_mapping_key("g1"), "chess:game:g1");
    assert_eq!(game_players_key("g1"), "chess:game_players:g1");
}

#[test]
fn account_validation_routes() {
    assert!(!is_account_validation_required("user", "me"));
    assert!(!is_account_validation_required("user", "me/picture"));
    assert!(!is_account_validation_required("user", "finish_account"));
    assert!(is_account_validation_required("user", "settings"));
    assert!(is_account_validation_required("user", "meh"));
    assert!(is_account_validation_required("room", "join"));
    assert!(!is_account_validation_required("chess", "x"));
}

#[test]
fn token_checks() {
    let read: Result<(String, String), TokenError> = Ok(("u1".to_string(), "".to_string()));
    let named: Result<(String, String), TokenError> = Ok(("u1".to_string(), "bob".to_string()));
    assert_eq!(token_verdict_after("auth", "login", false, Some(true), &Err(TokenError::Invalid)), Ok(()));
    assert_eq!(token_verdict_after("user", "me", false, Some(false), &named), Err(AccessError::MissingToken));
    assert_eq!(token_verdict_after("user", "me", true, None, &named), Err(AccessError::Internal));
    assert_eq!(token_verdict_after("user", "me", true, Some(true), &named), Err(AccessError::Revoked));
    assert_eq!(token_verdict_after("user", "me", true, Some(false), &Err(TokenError::Invalid)), Err(AccessError::InvalidToken));
    assert_eq!(token_verdict_after("user", "me", true, Some(false), &Err(TokenError::BadKey)), Err(AccessError::Internal));
    assert_eq!(token_verdict_after("user", "me", true, Some(false), &Err(TokenError::KeyUnavailable)), Err(AccessError::Internal));
    assert_eq!(token_verdict_after("room", "join", true, Some(false), &read), Err(AccessError::NotValidated));
    assert_eq!(token_verdict_after("room", "join", true, Some(false), &named), Ok(()));
    assert_eq!(token_verdict_after("user", "me", true, Some(false), &read), Ok(()));
    let e = ErrorResponse::for_access(AccessError::NotValidated);
    assert_eq!(e.status, 403);
    assert_eq!(e.error, "Account not validated. Please complete your profile.");
    assert_eq!(ErrorResponse::for_access(AccessError::RateLimited).status, 429);
    let e = ErrorResponse::for_access(AccessError::InvalidToken);
    assert_eq!((e.status, e.error.as_str()), (401, "Invalid or expired token"));
    let e = ErrorResponse::for_access(AccessError::Internal);
    assert_eq!((e.status, e.error.as_str()), (500, "Internal server error"));
    assert!(over_rate_limit(11, 10));
    assert!(!over_rate_limit(10, 10));
}

const PUBLIC_PEM: &str = "-----BEGIN PUBLIC KEY-----\nMIIBIjANBgkqhkiG9w0BAQEFAAOCAQ8AMIIBCgKCAQEAx6ZIuP/QgyaFOwZIWpZs\n4ZoPzTAxPdHzZv96/LeQ+wvWrnpWznpRa3kTDUPGUZAhzUGNGHs5Xd3XWJ0FK/Ob\nHRCNrEuxtqLEg8pNEs3Wtvb+PaEu3fk2jZ0O8U326dimBLmFf5BP0AtFBl4gShRX\nXWd5cODWSaYyvC24bHptTQC1nFzXv00AOabKpjjf6etCQIInKue7VQQ8ARtM5Tm+\nzgjByH5VHuWnsoMDkbuQn0m79gEhgXhEhzsFuKoNYKmNm2ibHhUBrfqhkQdi1zmr\nrsq4OovWL+GgBPI4hVlPQoDjQtiTXFwKPj/zgstEIuuLwXgBCBnQBZl2hzTJ69nL\nDQIDAQAB\n-----END PUBLIC KEY-----\n";

#[test]
fn access_tokens_are_read_with_the_public_key() {
    assert_eq!(decode_access_token("a.b.c", None).err(), Some(TokenError::KeyUnavailable));
    assert_eq!(decode_access_token("a.b.c", Some("not a key")).err(), Some(TokenError::BadKey));
    assert_eq!(decode_access_token("not-a-token", Some(PUBLIC_PEM)).err(), Some(TokenError::Invalid));
    assert_eq!(extract_user_sub(None, Some(PUBLIC_PEM)), None);
    assert_eq!(extract_user_sub(Some("not-a-token"), Some(PUBLIC_PEM)), None);
    assert_eq!(validate_token_for_service("auth", "login", None, None, None), Ok(()));
    assert_eq!(validate_token_for_service("user", "me", None, Some(false), Some(PUBLIC_PEM)), Err(AccessError::MissingToken));
    assert_eq!(validate_token_for_service("user", "me", Some("t"), None, Some(PUBLIC_PEM)), Err(AccessError::Internal));
    assert_eq!(validate_token_for_service("user", "me", Some("t"), Some(true), Some(PUBLIC_PEM)), Err(AccessError::Revoked));
    assert_eq!(validate_token_for_service("user", "me", Some("t"), Some(false), None), Err(AccessError::Internal));
    assert_eq!(validate_token_for_service("user", "me", Some("t"), Some(false), Some("junk")), Err(AccessError::Internal));
    assert_eq!(validate_token_for_service("user", "me", Some("t"), Some(false), Some(PUBLIC_PEM)), Err(AccessError::InvalidToken));
}

fn claim(k: &str, v: ClaimValue) -> (String, ClaimValue) {
    (k.to_string(), v)
}

#[test]
fn token_payload_needs_every_claim() {
    let mut p = vec![
        claim("sub", ClaimValue::Text("u-1".to_string())),
        claim("exp", ClaimValue::Number(Some(2000))),
        claim("iat", ClaimValue::Number(Some(1000))),
        claim("username", ClaimValue::Text("bob".to_string())),
        claim("email", ClaimValue::Text("b@x".to_string())),
        claim("token_type", ClaimValue::Text("access".to_string())),
    ];
    assert_eq!(claims_of(&p), Some(("u-1".to_string(), "bob".to_string())));
    p[1] = claim("exp", ClaimValue::Number(None));
    assert_eq!(claims_of(&p), None);
    p[1] = claim("exp", ClaimValue::Number(Some(2000)));
    p[4] = claim("email", ClaimValue::Other);
    assert_eq!(claims_of(&p), None);
    p.remove(4);
    assert_eq!(claims_of(&p), None);
}

#[test]
fn unknown_services_and_methods_are_answered() {
    let e = route_error(&route_api(false, "nope", "x"), "nope").unwrap();
    assert_eq!((e.status, e.error.as_str()), (404, "Unknown service"));
    let e = route_error(&route_api(true, "user", "x"), "user").unwrap();
    assert_eq!((e.status, e.error.as_str()), (404, "Unknown WebSocket service: user"));
    assert!(route_error(&route_api(false, "user", "x"), "user").is_none());
    assert!(method_error("GET").is_none());
    assert!(method_error("HEAD").is_none());
    let e = method_error("OPTIONS").unwrap();
    assert_eq!((e.status, e.error.as_str()), (405, "Method not allowed"));
}

#[test]
fn metrics_port_search_gives_up_after_a_hundred_draws() {
    assert_eq!(port_search_step(0, true), PortAction::Use);
    assert_eq!(port_search_step(99, false), PortAction::TryAnother);
    assert_eq!(port_search_step(100, true), PortAction::GiveUp);
    let mut tries: Vec<(u16, bool)> = (0..5).map(|i| (9000 + i, false)).collect();
    tries.push((9100, true));
    assert_eq!(first_free_port(&tries), Some(9100));
    let mut many: Vec<(u16, bool)> = (0..100).map(|i| (9000 + i, false)).collect();
    many.push((9500, true));
    assert_eq!(first_free_port(&many), None);
    many[99] = (9099, true);
    assert_eq!(first_free_port(&many), Some(9099));
    assert_eq!(first_free_port(&Vec::new()), None);
}

#[test]
fn permissions() {
    assert!(permission_allows(&Vec::new(), &strings(&["a"])));
    assert!(permission_allows(&strings(&["a"]), &Vec::new()));
    assert!(permission_allows(&strings(&["a", "b"]), &strings(&["c", "b"])));
    assert!(!permission_allows(&strings(&["a", "b"]), &strings(&["c", "d"])));
}

#[test]
fn cookies() {
    let header = "theme=dark; access_token=abc; access_token=def";
    assert_eq!(extract_cookie(header, "access_token"), Some("abc".to_string()));
    assert_eq!(last_cookie(header, "access_token"), Some("def".to_string()));
    assert_eq!(extract_cookie(header, "missing"), None);
    assert_eq!(extract_cookie("  ;; a=1", "a"), Some("1".to_string()));
}

#[test]
fn answer_statuses() {
    assert_eq!(response_status(None), 200);
    assert_eq!(response_status(Some(404)), 404);
    assert_eq!(response_status(Some(42)), 500);
    assert_eq!(response_status(Some(65536 + 201)), 201);
    assert_eq!(timeout_status(30), 504);
    assert_eq!(timeout_status(3), 500);
    assert!(is_error_status(400) && !is_error_status(399));
    assert!(is_failure_status(503) && !is_failure_status(600));
    assert!(is_event_stream("text/event-stream; charset=utf-8"));
    assert!(!is_event_stream("application/json"));
    let h = HealthResponse::of(false, "gateway");
    assert_eq!(h.status, "unhealthy");
    assert_eq!(h.service, "gateway");
}

#[test]
fn metrics_fallback_picks_an_id_and_the_port() {
    let mut c = ServiceConfig {
        service_name: "gateway".to_string(),
        instance_id: None,
        api_port: Some(8080),
        metrics_port: None,
        metrics_manager_url: None,
        metrics_manager_connected: true,
        redis_url: None,
        auth_api_url: None,
        user_api_url: None,
        game_api_url: None,
        notification_api_url: None,
    };
    c.metrics_fallback(Some(9100));
    assert!(!c.metrics_manager_connected);
    assert_eq!(c.metrics_port, Some(9100));
    let id = c.instance_id.clone().unwrap();
    assert_eq!(id.len(), 20);
    assert!(id.starts_with("gateway-"));
    assert!(id[8..].chars().all(|ch| ch.is_ascii_alphanumeric()));
    c.metrics_fallback(None);
    assert_eq!(c.metrics_port, None);
    assert_eq!(c.instance_id, Some(id));
}

#[test]
fn seats_are_given_and_kept() {
    let mut s = Seating::new();
    assert_eq!(s.connect(seat("u1")), Some(PlayerId::Player1));
    assert_eq!(s.connect(seat("u2")), Some(PlayerId::Player2));
    assert!(s.both_connected());
    assert_eq!(s.connect(seat("u3")), None);
    assert!(s.disconnect(PlayerId::Player1));
    assert!(!s.disconnect(PlayerId::Player1));
    assert!(!s.both_connected());
    assert_eq!(s.connect(seat("u1")), Some(PlayerId::Player1));
    assert_eq!(s.connect(seat("u2")), Some(PlayerId::Player2));
    assert_eq!(s.seat_of("u2"), Some(PlayerId::Player2));
    assert_eq!(s.seat_of("u9"), None);
    assert_eq!(s.color_user_ids(), (Some("u1".to_string()), Some("u2".to_string())));
    assert_eq!(PlayerId::Player1.other(), PlayerId::Player2);
    assert_eq!(PlayerId::Player2.idx(), 1);
    assert_eq!(PlayerId::Player1.label(), "player1");
}

#[test]
fn a_newcomer_takes_a_seat_left_free() {
    let mut s = Seating::new();
    s.connect(seat("u1"));
    s.connect(seat("u2"));
    s.disconnect(PlayerId::Player1);
    assert_eq!(s.connect(seat("u3")), Some(PlayerId::Player1));
    assert_eq!(s.connect(seat("u1")), None);
}

#[test]
fn game_life() {
    assert_eq!(parse_u64("15"), Some(15));
    assert_eq!(parse_u64("+010"), Some(10));
    assert_eq!(parse_u64("-5"), None);
    assert_eq!(parse_u64(""), None);
    assert_eq!(parse_u64("18446744073709551616"), None);
    assert_eq!(parse_u64("18446744073709551615"), Some(u64::MAX));
    assert_eq!(initial_time_ms(Some("5")), 300000);
    assert_eq!(initial_time_ms(Some("7")), 600000);
    assert_eq!(initial_time_ms(None), 600000);
    assert_eq!(abandon_winner(Some(PlayerId::Player1)), Color::Black);
    assert_eq!(abandon_winner(Some(PlayerId::Player2)), Color::White);
    assert_eq!(abandon_winner(None), Color::Black);
    assert_eq!(color_label(Color::White), "white");
    let ids = players_to_clean(strings(&["a"]), &strings(&["", "b", "a", "b", "c"]));
    assert_eq!(ids, strings(&["a", "b", "c"]));
}

#[test]
fn sessions() {
    let mut g = GameLoop::new();
    assert!(should_auto_start(true, &g));
    assert!(!should_auto_start(false, &g));
    assert!(leaves_for_good(&g));
    g.started = true;
    assert!(!should_auto_start(true, &g));
    assert!(!leaves_for_good(&g));
    let mut w = RateWindow::new();
    let mut allowed = 0;
    for _ in 0..20 {
        if w.count_message_after(10).0 {
            allowed += 1;
        }
    }
    assert_eq!(allowed, 15);
    assert_eq!(w.count_message_after(2000000000), (true, true));
    assert_eq!(w.count, 1);
}

#[test]
fn registry_records() {
    let fresh = with_load(None, "chess-1", 3);
    assert_eq!((fresh.id.as_str(), fresh.ws_url.as_str(), fresh.load), ("chess-1", "", 3));
    let stored = ChessInstanceInfo { id: "chess-2".to_string(), ws_url: "ws://x".to_string(), load: 9 };
    let updated = with_load(Some(stored), "ignored", 1);
    assert_eq!((updated.id.as_str(), updated.ws_url.as_str(), updated.load), ("chess-2", "ws://x", 1));
    assert!(is_listed_player(&strings(&["a", "b"]), "b"));
    assert!(!is_listed_player(&strings(&["a", "b"]), "c"));
    let p = WsParams { game_id: None, access_token: Some("q".to_string()), picture_id: None };
    assert_eq!(p.game_or_default(), "default");
    assert_eq!(p.token(Some("c".to_string())), Some("c".to_string()));
    assert_eq!(p.token(None), Some("q".to_string()));
}

#[test]
fn notifications_go_to_their_user() {
    let id: u128 = 0x67e55044_10b1_426f_9247_bb680e5fe0c8;
    assert_eq!(user_routing_key(id), "user:67e55044-10b1-426f-9247-bb680e5fe0c8");
    let m = NotificationMetadata { user_id: id };
    assert_eq!(m.routing_keys(), vec!["user:67e55044-10b1-426f-9247-bb680e5fe0c8".to_string()]);
    let broadcast = NotificationTarget { user_id: 0 };
    assert!(broadcast.routing_keys().is_empty());
    assert!(broadcast.matches(&m));
    assert!(NotificationTarget { user_id: id }.matches(&m));
    assert!(!NotificationTarget { user_id: 7 }.matches(&m));
}

#[test]
fn heartbeat_allows_thirty_seconds_of_silence() {
    assert!(!heartbeat_missed_after(0));
    assert!(!heartbeat_missed_after(30_000_000_000));
    assert!(heartbeat_missed_after(30_000_000_001));
}
