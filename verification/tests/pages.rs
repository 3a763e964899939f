use royalboard::layout::{AssetsHelper, AuthUi, HomePageUi, MainLayout};
use royalboard::routes::{
    favicon_path, is_forbidden_public_path, logout_reply, needs_session, public_file_path,
    redirects_to_home, remember_requested, signed_in_redirect, LogoutReply,
};
use royalboard::session::{IpAddress, Session};
use royalboard::sidebar::{Page, Sidebar};
use royalboard::user::{find_by_id_query, UserDbModel};

fn user() -> UserDbModel {
    UserDbModel {
        id: 1,
        name: None,
        email: "a@b.c".to_string(),
        remember_token: None,
        phone: None,
        roles: None,
    }
}

#[test]
fn routes_of_pages() {
    assert_eq!(Page::Home.get_route(), "/frontend/home");
    assert_eq!(Page::Categories.get_route(), "/frontend/categories");
    assert_eq!(Page::CreateCategory.get_route(), "/frontend/createCategory");
}

#[test]
fn default_sidebar_contents() {
    let s = Sidebar::default();
    assert!(s.current_page == Page::Home);
    assert_eq!(s.items.len(), 2);
    assert_eq!(s.items[0].title, "Dashboard");
    assert_eq!(s.items[0].icon, "monitor");
    assert_eq!(s.items[1].title, "الاقسام");
    assert_eq!(s.items[1].children.len(), 2);
    assert_eq!(s.items[1].children[0].title, "جميع الاقسام");
    assert_eq!(s.items[1].children[1].title, "انشاء قسم");
    assert!(s.items[1].children[1].page == Page::CreateCategory);
}

#[test]
fn active_marks_own_page_only() {
    let s = Sidebar::default();
    assert_eq!(s.items[0].active(&Page::Home), "active");
    assert_eq!(s.items[0].active(&Page::Categories), "");
    assert_eq!(s.items[1].active(&Page::Categories), "active");
}

#[test]
fn layouts() {
    let u = user();
    let l = MainLayout::new("<p>x</p>", &u);
    assert_eq!(l.body_content, "<p>x</p>");
    assert!(l.sidebar.current_page == Page::Home);
    let l2 = MainLayout::new_with_page("b", &u, Page::Categories);
    assert!(l2.sidebar.current_page == Page::Categories);
    assert_eq!(l2.sidebar.items.len(), 2);
    assert_eq!(MainLayout::app_name(), "RoyalBoard App");
    assert_eq!(AuthUi::app_name(), "RoyalBoard App");
    assert!(AuthUi::new().error_message.is_none());
    assert!(MainLayout::default_sidebar().current_page == Page::Home);
}

#[test]
fn asset_paths() {
    assert_eq!(HomePageUi::new().asset_path("css/app.css"), "/public/MainTemplate/css/app.css");
    assert_eq!(AuthUi::new().asset_path("x.js"), "/public/MainTemplate/x.js");
}

#[test]
fn public_files() {
    assert_eq!(public_file_path("a/b.css"), "frontend/public/a/b.css");
    assert!(!is_forbidden_public_path(&public_file_path("MainTemplate/app.css")));
    assert!(is_forbidden_public_path(&public_file_path("../secret.txt")));
    assert!(is_forbidden_public_path(&public_file_path("a/./b.css")));
    assert!(is_forbidden_public_path(&public_file_path("noextension")));
    assert_eq!(favicon_path(), "frontend/public/MainTemplate/favicon.png");
}

#[test]
fn session_gates() {
    assert!(!needs_session("/frontend/refresh_session"));
    assert!(needs_session("/frontend/login"));
    let mut s = Session::default(IpAddress::V4(1));
    assert!(!redirects_to_home("/frontend/login", &s));
    assert_eq!(signed_in_redirect(&s), Some("/frontend/login"));
    s.user_model = Some(user());
    assert!(redirects_to_home("/frontend/login", &s));
    assert!(!redirects_to_home("/frontend/home", &s));
    assert_eq!(signed_in_redirect(&s), None);
}

#[test]
fn remember_field() {
    assert!(remember_requested(Some("on")));
    assert!(!remember_requested(Some("off")));
    assert!(!remember_requested(Some("")));
    assert!(!remember_requested(None));
}

#[test]
fn logout_replies() {
    assert_eq!(logout_reply(false, true, true), LogoutReply::BadRequest);
    assert_eq!(logout_reply(true, true, true), LogoutReply::RedirectToLogin);
    assert_eq!(logout_reply(true, false, true), LogoutReply::InternalServerError);
    assert_eq!(logout_reply(true, true, false), LogoutReply::InternalServerError);
}

#[test]
fn query_by_id() {
    assert_eq!(find_by_id_query(UserDbModel::table_name()), "SELECT * FROM users WHERE id = ?");
}
