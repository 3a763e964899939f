use royalboard::cookie::{extract_auth_cookies, extract_session_id_fast, find_cookie_value};
use royalboard::session::Session;

#[test]
fn session_id_is_found_among_other_cookies() {
    let h = "theme=dark; session_id=abc123; refresh_token=r1";
    assert_eq!(extract_session_id_fast(h), Some("abc123"));
}

#[test]
fn session_id_missing_gives_none() {
    assert_eq!(extract_session_id_fast("theme=dark; lang=en"), None);
    assert_eq!(extract_session_id_fast(""), None);
}

#[test]
fn first_session_id_wins() {
    assert_eq!(extract_session_id_fast("session_id=a; session_id=b"), Some("a"));
}

#[test]
fn leading_white_space_is_skipped() {
    assert_eq!(extract_session_id_fast("x=1;\t  session_id=zz"), Some("zz"));
    assert_eq!(extract_session_id_fast("x=1;\u{3000}session_id=q"), Some("q"));
}

#[test]
fn trailing_space_is_kept_in_value() {
    assert_eq!(extract_session_id_fast("session_id=v ; a=b"), Some("v "));
}

#[test]
fn empty_value_is_a_value() {
    assert_eq!(extract_session_id_fast("session_id=; a=b"), Some(""));
}

#[test]
fn name_must_start_the_piece() {
    assert_eq!(extract_session_id_fast("xsession_id=1"), None);
    assert_eq!(extract_session_id_fast("session_id"), None);
}

#[test]
fn empty_pieces_are_skipped() {
    assert_eq!(extract_session_id_fast(";;session_id=k;"), Some("k"));
}

#[test]
fn non_ascii_values_are_cut_by_characters() {
    assert_eq!(extract_session_id_fast("a=é; session_id=ñé;b"), Some("ñé"));
}

#[test]
fn auth_cookies_both_found() {
    let h = "session_id=s1; refresh_token=t1";
    assert_eq!(extract_auth_cookies(h), (Some("s1"), Some("t1")));
}

#[test]
fn auth_cookies_any_order() {
    let h = "refresh_token=t1; other=x; session_id=s1";
    assert_eq!(extract_auth_cookies(h), (Some("s1"), Some("t1")));
}

#[test]
fn auth_cookies_missing_refresh() {
    assert_eq!(extract_auth_cookies("session_id=s1; x=y"), (Some("s1"), None));
    assert_eq!(extract_auth_cookies(""), (None, None));
}

#[test]
fn auth_cookies_later_session_id_replaces_earlier_until_both_known() {
    assert_eq!(
        extract_auth_cookies("session_id=a; session_id=b; refresh_token=t; session_id=c"),
        (Some("b"), Some("t"))
    );
}

#[test]
fn remember_token_cookie_is_found() {
    let h = "session_id=s; remember_token=remember_xyz";
    assert_eq!(Session::extract_remember_token_cookie(h), Some("remember_xyz"));
    assert_eq!(Session::extract_remember_token_cookie("session_id=s"), None);
}

#[test]
fn generic_lookup_by_name() {
    assert_eq!(find_cookie_value("a=1; b=2", "b="), Some("2"));
}
