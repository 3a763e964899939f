//! The decisions of the HTTP handlers: which requests need a session, where
//! a request is sent instead of being served, and which public files may be
//! served.
use vstd::prelude::*;
use vstd::string::*;

use crate::session::Session;
use crate::text::{contains, contains_text, ends_with, ends_with_text, same_text};

verus! {

/// The file under the public directory that a request for `path` names.
pub fn public_file_path(path: &str) -> (r: String)
    ensures
        r@ == "frontend/public/"@ + path@,
{
    let mut r = String::from_str("frontend/public/");
    r.append(path);
    r
}

/// A public file path that is refused: one that climbs (`../`), one that
/// names the current directory (`./`), or one without an extension dot.
pub open spec fn is_forbidden_file(p: Seq<char>) -> bool {
    contains_text(p, "../"@) || contains_text(p, "./"@) || !contains_text(p, "."@)
}

/// A requested path that climbs out of a directory (holds `../`) is always
/// refused, whatever else it holds.
pub proof fn law_climbing_requests_are_refused(path: Seq<char>)
    requires
        contains_text(path, "../"@),
    ensures
        is_forbidden_file("frontend/public/"@ + path),
{
    let pre = "frontend/public/"@;
    let full = pre + path;
    let i = choose|i: int| crate::text::occurs_at(path, "../"@, i);
    let n = "../"@.len() as int;
    assert(full.subrange(pre.len() + i, pre.len() + i + n) =~= path.subrange(i, i + n));
    assert(crate::text::occurs_at(full, "../"@, pre.len() + i));
}

/// A file path that climbs nowhere (no `../`), names no current directory
/// (no `./`) and has an extension dot is served, whatever else it holds.
pub proof fn law_plain_files_are_served(p: Seq<char>)
    requires
        !contains_text(p, "../"@),
        !contains_text(p, "./"@),
        contains_text(p, "."@),
    ensures
        !is_forbidden_file(p),
{
}

/// Text that holds no `.` cannot hold a needle that begins with `.` at a
/// position inside it.
proof fn lemma_no_dot_occurrence(pre: Seq<char>, path: Seq<char>, needle: Seq<char>, i: int)
    requires
        !pre.contains('.'),
        needle.len() > 0,
        needle[0] == '.',
        crate::text::occurs_at(pre + path, needle, i),
    ensures
        i >= pre.len(),
        crate::text::occurs_at(path, needle, i - pre.len()),
{
    let full = pre + path;
    assert(full.subrange(i, i + needle.len())[0] == full[i]);
    if i < pre.len() {
        assert(full[i] == pre[i]);
    }
    let j = i - pre.len();
    assert(path.subrange(j, j + needle.len()) =~= full.subrange(i, i + needle.len()));
}

/// A request for a file path that climbs nowhere (no `../`), names no current
/// directory (no `./`) and has an extension dot is served: putting it under
/// the public directory adds nothing that would refuse it.
pub proof fn law_plain_requests_are_served(path: Seq<char>)
    requires
        !contains_text(path, "../"@),
        !contains_text(path, "./"@),
        contains_text(path, "."@),
    ensures
        !is_forbidden_file("frontend/public/"@ + path),
{
    reveal_strlit("frontend/public/");
    reveal_strlit("../");
    reveal_strlit("./");
    reveal_strlit(".");
    let pre = "frontend/public/"@;
    let full = pre + path;
    assert(!pre.contains('.'));
    assert forall|i: int| !crate::text::occurs_at(full, "../"@, i) by {
        if crate::text::occurs_at(full, "../"@, i) {
            lemma_no_dot_occurrence(pre, path, "../"@, i);
        }
    }
    assert forall|i: int| !crate::text::occurs_at(full, "./"@, i) by {
        if crate::text::occurs_at(full, "./"@, i) {
            lemma_no_dot_occurrence(pre, path, "./"@, i);
        }
    }
    let k = choose|k: int| crate::text::occurs_at(path, "."@, k);
    assert(full.subrange(pre.len() + k, pre.len() + k + 1) =~= path.subrange(k, k + 1));
    assert(crate::text::occurs_at(full, "."@, pre.len() + k));
}

/// Whether the public file path `file_path` is refused.
pub fn is_forbidden_public_path(file_path: &str) -> (r: bool)
    ensures
        r == is_forbidden_file(file_path@),
{
    contains(file_path, "../") || contains(file_path, "./") || !contains(file_path, ".")
}

/// The file that is served for `/favicon.ico`.
pub fn favicon_path() -> (r: &'static str)
    ensures
        r@ == "frontend/public/MainTemplate/favicon.png"@,
{
    "frontend/public/MainTemplate/favicon.png"
}

/// Whether a request to `path` under the front end goes through session
/// handling; only session renewal does not.
pub fn needs_session(path: &str) -> (r: bool)
    ensures
        r == !ends_with_text(path@, "/refresh_session"@),
{
    !ends_with(path, "/refresh_session")
}

/// Whether a request to `path` with `session` is sent to the home page
/// instead: a signed-in user asking for the login page.
pub fn redirects_to_home(path: &str, session: &Session) -> (r: bool)
    ensures
        r == (session.user_model is Some && ends_with_text(path@, "/login"@)),
{
    session.user_model.is_some() && ends_with(path, "/login")
}

/// Where a request for a page that needs a signed-in user is sent instead,
/// if its session has none.
pub fn signed_in_redirect(session: &Session) -> (r: Option<&'static str>)
    ensures
        session.user_model is None ==> (r matches Some(t) && t@ == "/frontend/login"@),
        session.user_model is Some ==> r is None,
{
    if session.user_model.is_none() {
        Some("/frontend/login")
    } else {
        None
    }
}

/// Whether the `remember` field of the login form asks to be remembered
/// (a missing field counts as empty).
pub fn remember_requested(value: Option<&str>) -> (r: bool)
    ensures
        r == (value matches Some(v) && v@ == "on"@),
{
    match value {
        Some(v) => same_text(v, "on"),
        None => false,
    }
}

/// The answer to a logout request.
#[derive(Debug, Clone, Copy, PartialEq, Eq, Structural)]
pub enum LogoutReply {
    /// Signed out: go to the login page.
    RedirectToLogin,
    /// The session or the remember-me token could not be removed.
    InternalServerError,
    /// There was nobody signed in.
    BadRequest,
}

/// The answer to a logout request, given whether the session has a user and
/// whether removing the session and the user's remember-me token succeeded.
pub fn logout_reply(has_user: bool, session_removed: bool, token_removed: bool) -> (r: LogoutReply)
    ensures
        r == if !has_user {
            LogoutReply::BadRequest
        } else if session_removed && token_removed {
            LogoutReply::RedirectToLogin
        } else {
            LogoutReply::InternalServerError
        },
{
    if !has_user {
        LogoutReply::BadRequest
    } else if session_removed && token_removed {
        LogoutReply::RedirectToLogin
    } else {
        LogoutReply::InternalServerError
    }
}

} // verus!
