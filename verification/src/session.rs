//! Browser sessions: their tokens, the `Set-Cookie` headers that carry them,
//! and the rules by which a stored session is taken up again or renewed.
use vstd::prelude::*;
use vstd::string::*;

use crate::cookie::{
    auth_cookies, auth_cookies_from, find_cookie, find_cookie_value, first_pair,
    first_semicolon, is_white_space, lemma_leading_pair, opt_str_view, trim_start,
};
use crate::text::{join3, same_text};
use crate::token::{
    is_hyphen_position, generate_random_csrf, generate_random_session, generate_refresh_token, is_prefixed_token,
};
use crate::user::UserDbModel;

verus! {

/// How long, in seconds, the cache keeps a session after it was last stored
/// or taken up.
pub const TTL: i64 = 1800;

/// How long, in seconds, the cache keeps a session that has been replaced by
/// a renewal.
pub const REPLACED_SESSION_TTL: i64 = 50;

/// The address a request came from: an IPv4 address as its 32 bits or an
/// IPv6 address as its 128 bits (most significant first).
#[derive(Debug, Clone, Copy, PartialEq, Eq, Structural)]
pub enum IpAddress {
    V4(u32),
    V6(u128),
}

/// A browser session, as kept in the cache under its `session_id`.
#[derive(Debug)]
pub struct Session {
    pub session_id: String,
    pub refresh_token: String,
    pub csrf_token: String,
    pub remote_ip: IpAddress,
    pub remember_token: Option<String>,
    pub user_model: Option<UserDbModel>,
    pub cached: bool,
    pub is_dying: bool,
}

/// The `Set-Cookie` value that hands the session id to the browser.
pub open spec fn session_set_cookie(id: Seq<char>) -> Seq<char> {
    "session_id="@ + id + "; Path=/frontend; HttpOnly; SameSite=Strict; Secure; Max-Age=900"@
}

/// The `Set-Cookie` value that hands the refresh token to the browser.
pub open spec fn refresh_set_cookie(token: Seq<char>) -> Seq<char> {
    "refresh_token="@ + token + "; Path=/frontend; HttpOnly; SameSite=Strict; Secure; Max-Age=900"@
}

/// The `Set-Cookie` value that hands the remember-me token to the browser.
pub open spec fn remember_set_cookie(token: Seq<char>) -> Seq<char> {
    "remember_token="@ + token
        + "; Path=/frontend/login; HttpOnly; SameSite=Strict; Secure; Max-Age=80000"@
}

/// A session that has just been opened for `ip`: fresh random tokens, no
/// user, no remember-me token, not taken from the cache, not dying.
pub open spec fn is_fresh_session(s: Session, ip: IpAddress) -> bool {
    &&& is_prefixed_token(s.session_id@, "session_"@)
    &&& is_prefixed_token(s.csrf_token@, "csrf_"@)
    &&& is_prefixed_token(s.refresh_token@, "refresh_"@)
    &&& s.remote_ip == ip
    &&& s.remember_token is None
    &&& s.user_model is None
    &&& !s.cached
    &&& !s.is_dying
}

/// What a cache entry found for a request from `ip` yields: the stored
/// session, marked as cached, when it was opened from the same address.
pub open spec fn cache_entry_result(entry: Option<Session>, ip: IpAddress) -> Option<Session> {
    match entry {
        Some(s) => if s.remote_ip == ip {
            Some(Session { cached: true, ..s })
        } else {
            None
        },
        None => None,
    }
}

/// `t` holds every field of the stored session `e` but `cached`.
pub open spec fn keeps_stored_session(t: Session, e: Session) -> bool {
    &&& t.session_id == e.session_id
    &&& t.refresh_token == e.refresh_token
    &&& t.csrf_token == e.csrf_token
    &&& t.remote_ip == e.remote_ip
    &&& t.remember_token == e.remember_token
    &&& t.user_model == e.user_model
    &&& t.is_dying == e.is_dying
}

/// Taking up a cache entry keeps the stored session as it was (its id, its
/// tokens, its address, its signed-in user, its dying flag) and only marks it
/// as cached; it is taken up exactly when it was opened from the request's
/// address.
pub proof fn law_take_up_keeps_stored_session(entry: Option<Session>, ip: IpAddress)
    ensures
        cache_entry_result(entry, ip) is Some <==> (entry matches Some(e) && e.remote_ip == ip),
        cache_entry_result(entry, ip) matches Some(t) ==> t.cached && keeps_stored_session(
            t,
            entry->0,
        ),
{
}

impl Session {
    /// A session with the given address and tokens, no user and no
    /// remember-me token, neither cached nor dying.
    pub fn new(remote_ip: IpAddress, csrf_token: String, refresh_token: String, session_id: String) -> (r:
        Session)
        ensures
            r.session_id == session_id,
            r.csrf_token == csrf_token,
            r.refresh_token == refresh_token,
            r.remote_ip == remote_ip,
            r.remember_token is None,
            r.user_model is None,
            !r.cached,
            !r.is_dying,
    {
        Session {
            session_id,
            csrf_token,
            refresh_token,
            remote_ip,
            remember_token: None,
            user_model: None,
            cached: false,
            is_dying: false,
        }
    }

    /// A new session for `remote_ip` with fresh random tokens.
    pub fn default(remote_ip: IpAddress) -> (r: Session)
        ensures
            is_fresh_session(r, remote_ip),
    {
        Self::new(
            remote_ip,
            generate_random_csrf(),
            generate_refresh_token(),
            generate_random_session(),
        )
    }

    /// The `Set-Cookie` value for the session id.
    pub fn generate_set_cookie_for_session(&self) -> (r: String)
        ensures
            r@ == session_set_cookie(self.session_id@),
    {
        join3(
            "session_id=",
            self.session_id.as_str(),
            "; Path=/frontend; HttpOnly; SameSite=Strict; Secure; Max-Age=900",
        )
    }

    /// The `Set-Cookie` value for the refresh token.
    pub fn generate_set_cookie_for_refresh_token(&self) -> (r: String)
        ensures
            r@ == refresh_set_cookie(self.refresh_token@),
    {
        join3(
            "refresh_token=",
            self.refresh_token.as_str(),
            "; Path=/frontend; HttpOnly; SameSite=Strict; Secure; Max-Age=900",
        )
    }

    /// The `Set-Cookie` value for the remember-me token, which must be set.
    pub fn generate_set_cookie_for_remember_token(&self) -> (r: String)
        requires
            self.remember_token is Some,
        ensures
            r@ == remember_set_cookie(self.remember_token->0@),
    {
        let token = self.remember_token.as_ref().unwrap();
        join3(
            "remember_token=",
            token.as_str(),
            "; Path=/frontend/login; HttpOnly; SameSite=Strict; Secure; Max-Age=80000",
        )
    }

    /// The `Set-Cookie` value that clears the session id in the browser.
    pub fn generate_logout_cookie_for_session() -> (r: String)
        ensures
            r@ == "session_id=; Path=/frontend; HttpOnly; SameSite=Strict; Secure; Max-Age=0"@,
    {
        String::from_str("session_id=; Path=/frontend; HttpOnly; SameSite=Strict; Secure; Max-Age=0")
    }

    /// The `Set-Cookie` value that clears the refresh token in the browser.
    pub fn generate_logout_cookie_for_refresh_token() -> (r: String)
        ensures
            r@ == "refresh_token=; Path=/frontend; HttpOnly; SameSite=Strict; Secure; Max-Age=0"@,
    {
        String::from_str(
            "refresh_token=; Path=/frontend; HttpOnly; SameSite=Strict; Secure; Max-Age=0",
        )
    }

    /// Gives the session a fresh remember-me token; nothing else changes.
    pub fn generate_remember_token(&mut self)
        ensures
            final(self).remember_token matches Some(t) && is_prefixed_token(t@, "remember_"@),
            final(self).session_id == old(self).session_id,
            final(self).refresh_token == old(self).refresh_token,
            final(self).csrf_token == old(self).csrf_token,
            final(self).remote_ip == old(self).remote_ip,
            final(self).user_model == old(self).user_model,
            final(self).cached == old(self).cached,
            final(self).is_dying == old(self).is_dying,
    {
        self.remember_token = Some(crate::token::generate_remember_token());
    }

    /// The value of the `remember_token` cookie in `cookie_header`.
    pub fn extract_remember_token_cookie(cookie_header: &str) -> (r: Option<&str>)
        ensures
            opt_str_view(r) == find_cookie(cookie_header@, "remember_token="@),
    {
        find_cookie_value(cookie_header, "remember_token=")
    }

    /// The session that a cache entry found for a request from `ip` yields:
    /// the stored session, marked as cached, when it was opened from `ip`;
    /// nothing otherwise.
    pub fn from_cache_entry(entry: Option<Session>, ip: IpAddress) -> (r: Option<Session>)
        ensures
            r == cache_entry_result(entry, ip),
            r is Some <==> (entry matches Some(e) && e.remote_ip == ip),
            r matches Some(t) ==> t.cached && keeps_stored_session(t, entry->0),
    {
        match entry {
            Some(mut s) => {
                s.cached = true;
                if s.remote_ip == ip {
                    Some(s)
                } else {
                    None
                }
            },
            None => None,
        }
    }

    /// The session a request from `ip` goes on with, given what the cache
    /// holds under the session id its cookie names (nothing when it names
    /// none): that entry when `from_cache_entry` takes it up, otherwise a
    /// newly opened session. The flag tells whether the session is new (and
    /// so has yet to be stored).
    pub fn resume_or_open(entry: Option<Session>, ip: IpAddress) -> (r: (Session, bool))
        ensures
            match cache_entry_result(entry, ip) {
                Some(s) => r == (s, false),
                None => r.1 && is_fresh_session(r.0, ip),
            },
            !r.1 <==> (entry matches Some(e) && e.remote_ip == ip),
            !r.1 ==> r.0.cached && keeps_stored_session(r.0, entry->0),
    {
        match Self::from_cache_entry(entry, ip) {
            Some(s) => (s, false),
            None => (Self::default(ip), true),
        }
    }

    /// The session that a renewal request from `ip` presenting
    /// `refresh_token` gets, given what the cache holds under the session id
    /// it presents: a renewal of that stored session (fresh tokens, the same
    /// user) when the stored session's refresh token and address both match;
    /// nothing otherwise.
    pub fn refresh_from(entry: Option<Session>, refresh_token: &str, ip: IpAddress) -> (r:
        Option<Session>)
        ensures
            r is Some <==> (entry matches Some(old) && old.refresh_token@ == refresh_token@
                && old.remote_ip == ip),
            r matches Some(n) ==> {
                &&& is_prefixed_token(n.session_id@, "session_"@)
                &&& is_prefixed_token(n.csrf_token@, "csrf_"@)
                &&& is_prefixed_token(n.refresh_token@, "refresh_"@)
                &&& n.remote_ip == ip
                &&& n.remember_token is None
                &&& n.user_model == entry->0.user_model
                &&& !n.cached
                &&& !n.is_dying
            },
    {
        match entry {
            Some(old) => {
                if old.accepts_refresh(refresh_token, ip) {
                    Some(old.renew(ip))
                } else {
                    None
                }
            },
            None => None,
        }
    }

    /// Whether this stored session may be renewed by a request from `ip`
    /// that presents `refresh_token`.
    pub fn accepts_refresh(&self, refresh_token: &str, ip: IpAddress) -> (r: bool)
        ensures
            r == (self.refresh_token@ == refresh_token@ && self.remote_ip == ip),
    {
        same_text(self.refresh_token.as_str(), refresh_token) && self.remote_ip == ip
    }

    /// The session that replaces this one on renewal from `ip`: fresh tokens,
    /// the same signed-in user.
    pub fn renew(self, ip: IpAddress) -> (r: Session)
        ensures
            is_prefixed_token(r.session_id@, "session_"@),
            is_prefixed_token(r.csrf_token@, "csrf_"@),
            is_prefixed_token(r.refresh_token@, "refresh_"@),
            r.remote_ip == ip,
            r.remember_token is None,
            r.user_model == self.user_model,
            !r.cached,
            !r.is_dying,
    {
        let mut next = Session::default(ip);
        next.user_model = self.user_model;
        next
    }
}


/// A token made of a prefix without `;` and the text of a UUID holds no `;`.
pub proof fn lemma_token_has_no_semicolon(s: Seq<char>, prefix: Seq<char>)
    requires
        is_prefixed_token(s, prefix),
        !prefix.contains(';'),
    ensures
        !s.contains(';'),
{
    let n = prefix.len() as int;
    let u = s.skip(n);
    assert forall|i: int| 0 <= i < s.len() implies s[i] != ';' by {
        if i < n {
            assert(s.take(n)[i] == s[i]);
            assert(prefix[i] != ';');
        } else {
            assert(u[i - n] == s[i]);
            if is_hyphen_position(i - n) {
                assert(u[i - n] == '-');
            } else {
                assert(crate::token::is_lower_hex(u[i - n]));
            }
        }
    }
}

/// Every token of a freshly opened session is free of `;`, so it survives
/// the trip through a cookie.
pub proof fn law_fresh_session_tokens_have_no_semicolon(s: Session, ip: IpAddress)
    requires
        is_fresh_session(s, ip),
    ensures
        !s.session_id@.contains(';'),
        !s.refresh_token@.contains(';'),
        !s.csrf_token@.contains(';'),
{
    reveal_strlit("session_");
    reveal_strlit("refresh_");
    reveal_strlit("csrf_");
    lemma_token_has_no_semicolon(s.session_id@, "session_"@);
    lemma_token_has_no_semicolon(s.refresh_token@, "refresh_"@);
    lemma_token_has_no_semicolon(s.csrf_token@, "csrf_"@);
}

/// A freshly opened session is found again from what it sends to the
/// browser: its session id from its session `Set-Cookie` value, its refresh
/// token from its refresh `Set-Cookie` value, and both from a `Cookie`
/// header that carries the two.
pub proof fn law_fresh_session_is_found_by_its_cookies(s: Session, ip: IpAddress)
    requires
        is_fresh_session(s, ip),
    ensures
        find_cookie(session_set_cookie(s.session_id@), "session_id="@) == Some(s.session_id@),
        find_cookie(refresh_set_cookie(s.refresh_token@), "refresh_token="@) == Some(
            s.refresh_token@,
        ),
        auth_cookies("session_id="@ + s.session_id@ + "; refresh_token="@ + s.refresh_token@) == (
        Some(s.session_id@), Some(s.refresh_token@)),
{
    law_fresh_session_tokens_have_no_semicolon(s, ip);
    law_session_cookie_round_trip(s.session_id@);
    law_refresh_cookie_round_trip(s.refresh_token@);
    law_auth_header_round_trip(s.session_id@, s.refresh_token@);
}

/// A remember-me token made by `generate_remember_token` is found again from
/// the remember-me `Set-Cookie` value made for it.
pub proof fn law_remember_token_is_found_by_its_cookie(token: Seq<char>)
    requires
        is_prefixed_token(token, "remember_"@),
    ensures
        find_cookie(remember_set_cookie(token), "remember_token="@) == Some(token),
{
    reveal_strlit("remember_");
    lemma_token_has_no_semicolon(token, "remember_"@);
    law_remember_cookie_round_trip(token);
}

/// Reading the `session_id` cookie out of the `Set-Cookie` value made for a
/// session id gives that id back, for any id without `;`.
pub proof fn law_session_cookie_round_trip(id: Seq<char>)
    requires
        !id.contains(';'),
    ensures
        find_cookie(session_set_cookie(id), "session_id="@) == Some(id),
{
    reveal_strlit("session_id=");
    reveal_strlit("; Path=/frontend; HttpOnly; SameSite=Strict; Secure; Max-Age=900");
    lemma_leading_pair(
        "session_id="@,
        id,
        "; Path=/frontend; HttpOnly; SameSite=Strict; Secure; Max-Age=900"@,
    );
}

/// Reading the `refresh_token` cookie out of the `Set-Cookie` value made for
/// a refresh token gives that token back, for any token without `;`.
pub proof fn law_refresh_cookie_round_trip(token: Seq<char>)
    requires
        !token.contains(';'),
    ensures
        find_cookie(refresh_set_cookie(token), "refresh_token="@) == Some(token),
{
    reveal_strlit("refresh_token=");
    reveal_strlit("; Path=/frontend; HttpOnly; SameSite=Strict; Secure; Max-Age=900");
    lemma_leading_pair(
        "refresh_token="@,
        token,
        "; Path=/frontend; HttpOnly; SameSite=Strict; Secure; Max-Age=900"@,
    );
}

/// Reading the `remember_token` cookie out of the `Set-Cookie` value made for
/// a remember-me token gives that token back, for any token without `;`.
pub proof fn law_remember_cookie_round_trip(token: Seq<char>)
    requires
        !token.contains(';'),
    ensures
        find_cookie(remember_set_cookie(token), "remember_token="@) == Some(token),
{
    reveal_strlit("remember_token=");
    reveal_strlit("; Path=/frontend/login; HttpOnly; SameSite=Strict; Secure; Max-Age=80000");
    lemma_leading_pair(
        "remember_token="@,
        token,
        "; Path=/frontend/login; HttpOnly; SameSite=Strict; Secure; Max-Age=80000"@,
    );
}

/// The logout `Set-Cookie` values overwrite the session id and the refresh
/// token with empty values.
pub proof fn law_logout_cookies_carry_empty_values()
    ensures
        find_cookie(
            "session_id=; Path=/frontend; HttpOnly; SameSite=Strict; Secure; Max-Age=0"@,
            "session_id="@,
        ) == Some(Seq::<char>::empty()),
        find_cookie(
            "refresh_token=; Path=/frontend; HttpOnly; SameSite=Strict; Secure; Max-Age=0"@,
            "refresh_token="@,
        ) == Some(Seq::<char>::empty()),
{
    reveal_strlit("session_id=");
    reveal_strlit("refresh_token=");
    reveal_strlit("; Path=/frontend; HttpOnly; SameSite=Strict; Secure; Max-Age=0");
    reveal_strlit("session_id=; Path=/frontend; HttpOnly; SameSite=Strict; Secure; Max-Age=0");
    reveal_strlit("refresh_token=; Path=/frontend; HttpOnly; SameSite=Strict; Secure; Max-Age=0");
    let tail = "; Path=/frontend; HttpOnly; SameSite=Strict; Secure; Max-Age=0"@;
    let e = Seq::<char>::empty();
    lemma_leading_pair("session_id="@, e, tail);
    assert("session_id="@ + e + tail =~= "session_id=; Path=/frontend; HttpOnly; SameSite=Strict; Secure; Max-Age=0"@);
    lemma_leading_pair("refresh_token="@, e, tail);
    assert("refresh_token="@ + e + tail =~= "refresh_token=; Path=/frontend; HttpOnly; SameSite=Strict; Secure; Max-Age=0"@);
}

/// A `Cookie` header that sends back a session id and a refresh token, in the
/// form `session_id=<id>; refresh_token=<token>`, yields both of them.
pub proof fn law_auth_header_round_trip(id: Seq<char>, token: Seq<char>)
    requires
        !id.contains(';'),
        !token.contains(';'),
    ensures
        auth_cookies("session_id="@ + id + "; refresh_token="@ + token) == (Some(id), Some(token)),
{
    reveal_strlit("session_id=");
    reveal_strlit("refresh_token=");
    reveal_strlit("; refresh_token=");
    let n1 = "session_id="@;
    let n2 = "refresh_token="@;
    let tail = "; refresh_token="@ + token;
    let s = n1 + id + "; refresh_token="@ + token;
    assert(s =~= n1 + id + tail);
    assert(tail[0] == ';');
    lemma_leading_pair(n1, id, tail);
    let u = tail.drop_first();
    assert(u[0] == ' ');
    assert(u.drop_first() =~= n2 + token + Seq::<char>::empty());
    lemma_leading_pair(n2, token, Seq::<char>::empty());
    assert forall|j: int| 0 <= j < u.len() implies u[j] != ';' by {
        assert(u[j] == tail[j + 1]);
        if j + 1 < 16 {
            assert(tail[j + 1] == "; refresh_token="@[j + 1]);
        } else {
            assert(tail[j + 1] == token[j + 1 - 16]);
        }
    }
    assert(first_semicolon(u) == u.len()) by {
        crate::cookie::lemma_no_semicolon(u);
    }
    assert(u.take(u.len() as int) =~= u);
    assert(is_white_space(u[0]));
    assert(trim_start(u) == trim_start(u.drop_first()));
    assert(first_semicolon(u.drop_first()) == u.drop_first().len()) by {
        crate::cookie::lemma_no_semicolon(u.drop_first());
    }
    assert(u.drop_first().take(u.drop_first().len() as int) =~= u.drop_first());
    assert(first_pair(u) == n2 + token);
    assert((n2 + token)[0] == 'r');
    assert(!n1.is_prefix_of(n2 + token)) by {
        if n1.is_prefix_of(n2 + token) {
            assert((n2 + token).subrange(0, n1.len() as int)[0] == n1[0]);
        }
    }
    assert(n2.is_prefix_of(n2 + token)) by {
        assert(n2 =~= (n2 + token).subrange(0, n2.len() as int));
    }
    assert((n2 + token).skip(n2.len() as int) =~= token);
    assert(auth_cookies_from(u, Some(id), None, n1, n2) == (Some(id), Some(token)));
    assert(s.skip(first_semicolon(s) + 1int) =~= u);
}

} // verus!
