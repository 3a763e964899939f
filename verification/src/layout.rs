//! The page models of the front end: the main layout that wraps every
//! signed-in page, the login page and the home page.
use vstd::prelude::*;
use vstd::string::*;

use crate::sidebar::{is_standard_sidebar, Page, Sidebar};
use crate::user::UserDbModel;

verus! {

/// Paths of static assets, as used by the page templates.
pub trait AssetsHelper {
    /// The public path of the asset `path` of the main template.
    fn asset_path(&self, path: &str) -> (r: String)
        ensures
            r@ == "/public/MainTemplate/"@ + path@,
    {
        let mut r = String::from_str("/public/MainTemplate/");
        r.append(path);
        r
    }
}

/// The layout around a signed-in page: the user, the page's rendered body and
/// the sidebar.
pub struct MainLayout<'a> {
    pub user: &'a UserDbModel,
    pub body_content: &'a str,
    pub sidebar: Sidebar,
}

impl<'a> MainLayout<'a> {
    /// The standard sidebar, showing the home page.
    pub fn default_sidebar() -> (r: Sidebar)
        ensures
            is_standard_sidebar(r, Page::Home),
    {
        Sidebar::default()
    }

    /// The application's name as shown in the pages.
    pub fn app_name() -> (r: &'static str)
        ensures
            r@ == "RoyalBoard App"@,
    {
        "RoyalBoard App"
    }

    /// The layout around `body_content` for `user_db_model`, with the
    /// standard sidebar showing the home page.
    pub fn new(body_content: &'a str, user_db_model: &'a UserDbModel) -> (r: MainLayout<'a>)
        ensures
            r.body_content == body_content,
            r.user == user_db_model,
            is_standard_sidebar(r.sidebar, Page::Home),
    {
        MainLayout { body_content, user: user_db_model, sidebar: Self::default_sidebar() }
    }

    /// The layout around `body_content` for `user_db_model`, with the
    /// standard sidebar showing `page`.
    pub fn new_with_page(body_content: &'a str, user_db_model: &'a UserDbModel, page: Page) -> (r:
        MainLayout<'a>)
        ensures
            r.body_content == body_content,
            r.user == user_db_model,
            is_standard_sidebar(r.sidebar, page),
    {
        let mut sidebar = Sidebar::default();
        sidebar.current_page = page;
        MainLayout { body_content, user: user_db_model, sidebar }
    }
}

impl<'a> AssetsHelper for MainLayout<'a> {

}

/// The login page, with the error to show, if any.
pub struct AuthUi {
    pub error_message: Option<String>,
}

impl AuthUi {
    /// The login page with no error.
    pub fn new() -> (r: Self)
        ensures
            r.error_message is None,
    {
        Self { error_message: None }
    }

    /// The application's name as shown in the pages.
    pub fn app_name() -> (r: &'static str)
        ensures
            r@ == "RoyalBoard App"@,
    {
        MainLayout::app_name()
    }
}

impl AssetsHelper for AuthUi {

}

/// The home page.
pub struct HomePageUi {}

impl HomePageUi {
    /// The home page.
    pub fn new() -> (r: HomePageUi) {
        HomePageUi {  }
    }
}

impl AssetsHelper for HomePageUi {

}

} // verus!
