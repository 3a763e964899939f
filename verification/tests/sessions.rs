use royalboard::cookie::{extract_auth_cookies, extract_session_id_fast};
use royalboard::holder::MainDataHolder;
use royalboard::session::{IpAddress, Session};
use royalboard::token::{
    generate_random_csrf, generate_random_session, generate_refresh_token,
    generate_remember_token,
};
use royalboard::user::UserDbModel;

fn is_uuid_text(s: &str) -> bool {
    let b: Vec<char> = s.chars().collect();
    if b.len() != 36 {
        return false;
    }
    for (i, c) in b.iter().enumerate() {
        if i == 8 || i == 13 || i == 18 || i == 23 {
            if *c != '-' {
                return false;
            }
        } else if !(c.is_ascii_digit() || ('a'..='f').contains(c)) {
            return false;
        }
    }
    b[14] == '4' && "89ab".contains(b[19])
}

fn user(id: u32) -> UserDbModel {
    UserDbModel {
        id,
        name: Some("Ali".to_string()),
        email: "ali@example.com".to_string(),
        remember_token: None,
        phone: None,
        roles: Some(vec!["admin".to_string()]),
    }
}

#[test]
fn tokens_have_prefix_and_uuid() {
    let s = generate_random_session();
    assert!(s.starts_with("session_"));
    assert!(is_uuid_text(&s["session_".len()..]));
    let c = generate_random_csrf();
    assert!(c.starts_with("csrf_") && is_uuid_text(&c[5..]));
    let r = generate_refresh_token();
    assert!(r.starts_with("refresh_") && is_uuid_text(&r[8..]));
    let m = generate_remember_token();
    assert!(m.starts_with("remember_") && is_uuid_text(&m[9..]));
}

#[test]
fn tokens_differ_between_calls() {
    assert_ne!(generate_random_session(), generate_random_session());
}

#[test]
fn new_session_has_given_fields() {
    let ip = IpAddress::V4(0x7f00_0001);
    let s = Session::new(ip, "c".to_string(), "r".to_string(), "s".to_string());
    assert_eq!(s.csrf_token, "c");
    assert_eq!(s.refresh_token, "r");
    assert_eq!(s.session_id, "s");
    assert_eq!(s.remote_ip, ip);
    assert!(s.remember_token.is_none() && s.user_model.is_none() && !s.cached && !s.is_dying);
}

#[test]
fn default_session_is_fresh() {
    let ip = IpAddress::V6(1);
    let s = Session::default(ip);
    assert!(s.session_id.starts_with("session_"));
    assert!(s.csrf_token.starts_with("csrf_"));
    assert!(s.refresh_token.starts_with("refresh_"));
    assert_eq!(s.remote_ip, ip);
    assert!(s.user_model.is_none() && s.remember_token.is_none() && !s.cached);
}

#[test]
fn set_cookie_texts() {
    let s = Session::new(IpAddress::V4(1), "c".into(), "r1".into(), "s1".into());
    assert_eq!(
        s.generate_set_cookie_for_session(),
        "session_id=s1; Path=/frontend; HttpOnly; SameSite=Strict; Secure; Max-Age=900"
    );
    assert_eq!(
        s.generate_set_cookie_for_refresh_token(),
        "refresh_token=r1; Path=/frontend; HttpOnly; SameSite=Strict; Secure; Max-Age=900"
    );
    assert_eq!(
        Session::generate_logout_cookie_for_session(),
        "session_id=; Path=/frontend; HttpOnly; SameSite=Strict; Secure; Max-Age=0"
    );
    assert_eq!(
        Session::generate_logout_cookie_for_refresh_token(),
        "refresh_token=; Path=/frontend; HttpOnly; SameSite=Strict; Secure; Max-Age=0"
    );
}

#[test]
fn remember_cookie_text() {
    let mut s = Session::default(IpAddress::V4(1));
    let before = s.session_id.clone();
    s.generate_remember_token();
    let t = s.remember_token.clone().unwrap();
    assert!(t.starts_with("remember_") && is_uuid_text(&t[9..]));
    assert_eq!(s.session_id, before);
    assert_eq!(
        s.generate_set_cookie_for_remember_token(),
        format!("remember_token={}; Path=/frontend/login; HttpOnly; SameSite=Strict; Secure; Max-Age=80000", t)
    );
    let c = s.generate_set_cookie_for_remember_token();
    assert_eq!(Session::extract_remember_token_cookie(&c), Some(t.as_str()));
}

#[test]
fn session_cookie_round_trip() {
    let s = Session::default(IpAddress::V4(9));
    let c = s.generate_set_cookie_for_session();
    assert_eq!(extract_session_id_fast(&c), Some(s.session_id.as_str()));
    let header = format!("session_id={}; refresh_token={}", s.session_id, s.refresh_token);
    assert_eq!(
        extract_auth_cookies(&header),
        (Some(s.session_id.as_str()), Some(s.refresh_token.as_str()))
    );
}

#[test]
fn logout_cookie_clears_session_id() {
    let c = Session::generate_logout_cookie_for_session();
    assert_eq!(extract_session_id_fast(&c), Some(""));
}

#[test]
fn cache_entry_from_same_address_is_taken_and_marked() {
    let ip = IpAddress::V4(5);
    let s = Session::new(ip, "c".into(), "r".into(), "s".into());
    let got = Session::from_cache_entry(Some(s), ip).unwrap();
    assert!(got.cached);
    assert_eq!(got.session_id, "s");
}

#[test]
fn cache_entry_from_other_address_is_refused() {
    let s = Session::new(IpAddress::V4(5), "c".into(), "r".into(), "s".into());
    assert!(Session::from_cache_entry(Some(s), IpAddress::V4(6)).is_none());
    assert!(Session::from_cache_entry(None, IpAddress::V4(6)).is_none());
    let s6 = Session::new(IpAddress::V6(5), "c".into(), "r".into(), "s".into());
    assert!(Session::from_cache_entry(Some(s6), IpAddress::V4(5)).is_none());
}

#[test]
fn refresh_needs_token_and_address() {
    let ip = IpAddress::V4(7);
    let s = Session::new(ip, "c".into(), "r9".into(), "s".into());
    assert!(s.accepts_refresh("r9", ip));
    assert!(!s.accepts_refresh("r8", ip));
    assert!(!s.accepts_refresh("r9", IpAddress::V4(8)));
    assert!(!s.accepts_refresh("", ip));
}

#[test]
fn renewal_keeps_user_and_changes_tokens() {
    let ip = IpAddress::V4(7);
    let mut s = Session::new(ip, "c".into(), "r9".into(), "s".into());
    s.user_model = Some(user(3));
    s.cached = true;
    let n = s.renew(ip);
    assert_eq!(n.user_model.as_ref().unwrap().id, 3);
    assert!(n.session_id.starts_with("session_"));
    assert_ne!(n.refresh_token, "r9");
    assert!(!n.cached && n.remember_token.is_none());
}

#[test]
fn holder_wraps_session() {
    let mut s = Session::default(IpAddress::V4(1));
    s.user_model = Some(user(11));
    let h: MainDataHolder = s.into();
    let f = h.frontend.as_ref().unwrap();
    assert_eq!(f.user().id, 11);
}

#[test]
fn resume_or_open_takes_matching_entry() {
    let ip = IpAddress::V4(42);
    let stored = Session::new(ip, "c".into(), "r".into(), "session_x".into());
    let (s, is_new) = Session::resume_or_open(Some(stored), ip);
    assert!(!is_new);
    assert!(s.cached);
    assert_eq!(s.session_id, "session_x");
}

#[test]
fn resume_or_open_opens_new_otherwise() {
    let ip = IpAddress::V4(42);
    let stored = Session::new(IpAddress::V4(43), "c".into(), "r".into(), "session_x".into());
    let (s, is_new) = Session::resume_or_open(Some(stored), ip);
    assert!(is_new);
    assert_ne!(s.session_id, "session_x");
    assert!(s.session_id.starts_with("session_") && !s.cached && s.remote_ip == ip);
    let (t, t_new) = Session::resume_or_open(None, ip);
    assert!(t_new && t.user_model.is_none());
}

#[test]
fn refresh_from_renews_only_matching_entry() {
    let ip = IpAddress::V4(7);
    let mut old = Session::new(ip, "c".into(), "r9".into(), "s".into());
    old.user_model = Some(user(5));
    let n = Session::refresh_from(Some(old), "r9", ip).unwrap();
    assert_eq!(n.user_model.as_ref().unwrap().id, 5);
    assert!(n.refresh_token.starts_with("refresh_") && n.remote_ip == ip);
    let old2 = Session::new(ip, "c".into(), "r9".into(), "s".into());
    assert!(Session::refresh_from(Some(old2), "r8", ip).is_none());
    let old3 = Session::new(ip, "c".into(), "r9".into(), "s".into());
    assert!(Session::refresh_from(Some(old3), "r9", IpAddress::V4(8)).is_none());
    assert!(Session::refresh_from(None, "r9", ip).is_none());
}
