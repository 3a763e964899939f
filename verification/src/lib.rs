//! Session, cookie, account and page-model logic of the RoyalBoard web
//! application, with its contracts proved by Verus.

pub mod cookie;
pub mod text;
pub mod token;
pub mod user;
pub mod session;
pub mod holder;
pub mod sidebar;
pub mod layout;
pub mod routes;
