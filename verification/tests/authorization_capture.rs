use nowplaying::auth::{
    classify_path, code_from_path, get_spotify_code, on_read, starts_with, take_until_amp,
    AuthorizationCode, ListenerAction, ReadOutcome, Redirect, SUCCESS_RESPONSE,
};

fn request(path: &str) -> Vec<u8> {
    format!("GET {} HTTP/1.1\r\nHost: 10.0.0.41:3000\r\nAccept: */*\r\n\r\n", path).into_bytes()
}

fn code_of_request(path: &str) -> Option<Vec<u8>> {
    get_spotify_code(&request(path)).map(|c| c.as_bytes().to_vec())
}

#[test]
fn redirect_with_code_and_state() {
    assert_eq!(code_of_request("/?code=ABC123&state=xyz"), Some(b"ABC123".to_vec()));
}

#[test]
fn redirect_with_code_alone() {
    assert_eq!(code_of_request("/?code=ABC123"), Some(b"ABC123".to_vec()));
}

#[test]
fn path_with_code_and_state() {
    let code = code_from_path(b"/?code=ABC123&state=xyz").unwrap();
    assert_eq!(code.as_bytes(), b"ABC123");
    assert_eq!(code.len(), 6);
}

#[test]
fn path_with_code_alone() {
    let code = code_from_path(b"/?code=ABC123").unwrap();
    assert_eq!(code.as_bytes(), b"ABC123");
}

#[test]
fn code_stops_at_first_ampersand() {
    let code = code_from_path(b"/?code=a&b&c").unwrap();
    assert_eq!(code.as_bytes(), b"a");
}

#[test]
fn empty_code_is_a_code() {
    assert_eq!(code_from_path(b"/?code=").unwrap().as_bytes(), b"");
    assert_eq!(code_from_path(b"/?code=&state=1").unwrap().as_bytes(), b"");
}

#[test]
fn prefix_is_removed_once() {
    let code = code_from_path(b"/?code=/?code=abc").unwrap();
    assert_eq!(code.as_bytes(), b"/?code=abc");
}

#[test]
fn other_paths_carry_no_code() {
    assert!(code_from_path(b"/").is_none());
    assert!(code_from_path(b"").is_none());
    assert!(code_from_path(b"/?cod").is_none());
    assert!(code_from_path(b"/favicon.ico").is_none());
    assert!(code_from_path(b"/?state=xyz&code=ABC123").is_none());
    assert!(code_from_path(b"/?error=access_denied").is_none());
    assert!(code_of_request("/favicon.ico").is_none());
    assert!(code_of_request("/?error=access_denied&state=xyz").is_none());
}

#[test]
fn refusal_is_told_apart() {
    match classify_path(b"/?error=access_denied&state=xyz") {
        Redirect::Denied(e) => assert_eq!(e, b"access_denied".to_vec()),
        _ => panic!("expected a refusal"),
    }
    match classify_path(b"/?code=Q") {
        Redirect::Code(c) => assert_eq!(c, b"Q".to_vec()),
        _ => panic!("expected a code"),
    }
    assert!(matches!(classify_path(b"/index.html"), Redirect::Other));
}

#[test]
fn partial_request_yields_nothing() {
    assert!(get_spotify_code(b"GET /?code=ABC123 HTTP/1.1\r\nHost: x\r\n").is_none());
    assert!(get_spotify_code(b"GET /?code=ABC").is_none());
    assert!(get_spotify_code(b"").is_none());
}

#[test]
fn invalid_request_yields_nothing() {
    assert!(get_spotify_code(b"\x00\x01\x02 /?code=ABC123 HTTP/1.1\r\n\r\n").is_none());
    assert!(get_spotify_code(b"GET /?code=ABC123 HTTP/9.9\r\n\r\n").is_none());
    assert!(get_spotify_code(&[0xFF, 0xFE, 0xFD]).is_none());
}

#[test]
fn code_differs_from_the_request_it_came_in() {
    let raw = request("/?code=ABC123&state=xyz");
    let code = get_spotify_code(&raw).unwrap();
    assert_ne!(code.as_bytes(), raw.as_slice());
    assert_eq!(code.as_bytes(), b"ABC123");
}

#[test]
fn code_of_256_bytes_is_the_longest() {
    let longest = "a".repeat(256);
    let too_long = "a".repeat(257);
    let got = code_from_path(format!("/?code={}", longest).as_bytes()).unwrap();
    assert_eq!(got.as_bytes(), longest.as_bytes());
    assert!(code_from_path(format!("/?code={}", too_long).as_bytes()).is_none());
    assert!(code_from_path(format!("/?code={}&state=1", too_long).as_bytes()).is_none());
    assert_eq!(code_of_request(&format!("/?code={}", longest)), Some(longest.into_bytes()));
    assert!(code_of_request(&format!("/?code={}", too_long)).is_none());
}

#[test]
fn authorization_code_is_bounded() {
    assert!(AuthorizationCode::new(vec![b'x'; 256]).is_some());
    assert!(AuthorizationCode::new(vec![b'x'; 257]).is_none());
    assert_eq!(AuthorizationCode::new(Vec::new()).unwrap().len(), 0);
}

#[test]
fn authorization_code_is_text() {
    let code = AuthorizationCode::new("AQB-é_9".as_bytes().to_vec()).unwrap();
    assert_eq!(code.as_str(), "AQB-é_9");
    assert_eq!(code.as_bytes(), "AQB-é_9".as_bytes());
    assert!(AuthorizationCode::new(vec![0xFF]).is_none());
    assert!(AuthorizationCode::new(vec![b'a', 0xC3]).is_none());
    assert!(code_from_path(b"/?code=\xC3&state=1").is_none());
}

#[test]
fn prefix_test() {
    assert!(starts_with(b"/?code=1", b"/?code="));
    assert!(starts_with(b"abc", b""));
    assert!(starts_with(b"abc", b"abc"));
    assert!(!starts_with(b"ab", b"abc"));
    assert!(!starts_with(b"/?c0de=1", b"/?code="));
}

#[test]
fn until_ampersand() {
    assert_eq!(take_until_amp(b"k=v&x=y", 0), b"k=v".to_vec());
    assert_eq!(take_until_amp(b"k=v&x=y", 2), b"v".to_vec());
    assert_eq!(take_until_amp(b"k=v&x=y", 3), b"".to_vec());
    assert_eq!(take_until_amp(b"k=v&x=y", 4), b"x=y".to_vec());
    assert_eq!(take_until_amp(b"k=v&x=y", 7), b"".to_vec());
    assert_eq!(take_until_amp(b"k=v&x=y", 8), b"".to_vec());
}

#[test]
fn success_response_is_fixed() {
    assert!(SUCCESS_RESPONSE.starts_with("HTTP/1.1 200 OK\n"));
    assert!(SUCCESS_RESPONSE.contains("Content-Length: 10\n"));
    assert!(SUCCESS_RESPONSE.ends_with("\n\nConnected!"));
    assert_eq!(SUCCESS_RESPONSE.len(), 102);
}

#[test]
fn read_with_a_code_is_answered() {
    let raw = request("/?code=ABC123&state=xyz");
    match on_read(ReadOutcome::Data(&raw)) {
        ListenerAction::Respond(code) => assert_eq!(code.as_bytes(), b"ABC123"),
        _ => panic!("expected a response"),
    }
}

#[test]
fn read_without_a_code_is_passed_over() {
    for path in ["/", "/?error=access_denied", "/favicon.ico"] {
        assert!(matches!(on_read(ReadOutcome::Data(&request(path))), ListenerAction::ReadOn));
    }
    assert!(matches!(on_read(ReadOutcome::Data(b"GET /?code=AB")), ListenerAction::ReadOn));
    assert!(matches!(on_read(ReadOutcome::Data(b"\x01\x02")), ListenerAction::ReadOn));
}

#[test]
fn closed_or_failed_connection_leads_to_the_next_accept() {
    assert!(matches!(on_read(ReadOutcome::Eof), ListenerAction::Reaccept));
    assert!(matches!(on_read(ReadOutcome::Failed), ListenerAction::Reaccept));
}
