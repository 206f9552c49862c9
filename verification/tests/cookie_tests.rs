use todo_app::cookies::{find_session_token, logout_reply, set_cookie};
use todo_app::token::token_text;

fn headers(values: &[&[u8]]) -> Vec<Vec<u8>> {
    values.iter().map(|v| v.to_vec()).collect()
}

#[test]
fn session_token_from_a_single_cookie() {
    assert_eq!(find_session_token(&headers(&[b"session_token=5"])), Some(5));
}

#[test]
fn no_cookie_header_means_no_token() {
    assert_eq!(find_session_token(&Vec::new()), None);
}

#[test]
fn other_cookies_are_skipped() {
    let h = headers(&[b"theme=dark", b"session_token=12"]);
    assert_eq!(find_session_token(&h), Some(12));
}

#[test]
fn only_the_first_pair_of_a_header_counts() {
    // `Cookie::parse` reads one cookie per header; later pairs are attributes.
    let h = headers(&[b"theme=dark; session_token=12"]);
    assert_eq!(find_session_token(&h), None);
    let h = headers(&[b"session_token=12; theme=dark"]);
    assert_eq!(find_session_token(&h), Some(12));
}

#[test]
fn name_and_value_are_trimmed() {
    let h = headers(&[b"  session_token =\t77 "]);
    assert_eq!(find_session_token(&h), Some(77));
}

#[test]
fn the_first_session_cookie_decides() {
    let h = headers(&[b"session_token=abc", b"session_token=5"]);
    assert_eq!(find_session_token(&h), None);
}

#[test]
fn headers_that_are_not_text_are_skipped() {
    let h = headers(&[b"session_token=\x015", "session_token=é".as_bytes(), b"session_token=6"]);
    assert_eq!(find_session_token(&h), Some(6));
}

#[test]
fn malformed_cookies_are_skipped() {
    let h = headers(&[b"session_token", b"=5", b"session_token=9"]);
    assert_eq!(find_session_token(&h), Some(9));
}

#[test]
fn name_is_case_sensitive() {
    let h = headers(&[b"Session_Token=5"]);
    assert_eq!(find_session_token(&h), None);
}

#[test]
fn set_cookie_answer() {
    let reply = set_cookie("123");
    assert_eq!(reply.status, 200);
    assert_eq!(reply.set_cookie, "session_token=123; Max-Age=999999");
    assert_eq!(reply.redirect_to, "/");
}

#[test]
fn logout_answer() {
    let reply = logout_reply();
    assert_eq!(reply.status, 200);
    assert_eq!(reply.set_cookie, "session_token=_; Max-Age=0");
    assert_eq!(reply.redirect_to, "/login");
}

#[test]
fn the_set_cookie_reads_back_as_the_token() {
    for t in [0u128, 42, u128::MAX] {
        let reply = set_cookie(&token_text(t));
        let h = vec![reply.set_cookie.clone().into_bytes()];
        assert_eq!(find_session_token(&h), Some(t));
        let sent_back = format!("session_token={}", token_text(t));
        assert_eq!(find_session_token(&vec![sent_back.into_bytes()]), Some(t));
    }
}

#[test]
fn the_logout_cookie_carries_no_token() {
    let reply = logout_reply();
    assert_eq!(find_session_token(&vec![reply.set_cookie.into_bytes()]), None);
    assert_eq!(find_session_token(&headers(&[b"session_token=_"])), None);
}
