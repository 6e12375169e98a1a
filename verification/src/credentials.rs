use vstd::prelude::*;
use crate::authcookie::{cookie_of, header_text, AuthCookie, AuthCookieView};
use crate::authentication::{EAuthentication, Tokens};
use crate::text::concat;

verus! {

/// Why no credential could be made.
#[derive(Debug, Clone, Copy, PartialEq, Eq, Structural)]
pub enum AuthError {
    /// The platform gave no guest token.
    NoGuestToken,
    /// No cookie of a signed-in session is stored.
    NoCookie,
}

impl AuthError {
    pub open spec fn text(self) -> Seq<char> {
        match self {
            AuthError::NoGuestToken => "Failed to request guest token"@,
            AuthError::NoCookie => "No Twitter cookie found"@,
        }
    }

    pub fn message(&self) -> (r: &'static str)
        ensures
            r@ == self.text(),
    {
        match self {
            AuthError::NoGuestToken => "Failed to request guest token",
            AuthError::NoCookie => "No Twitter cookie found",
        }
    }
}

/// What a request to the platform is signed with.
#[derive(Debug)]
pub struct AuthCredential {
    /// The bearer token.
    pub token: String,
    pub guest_token: Option<String>,
    /// The token against request forgery.
    pub csrf_token: Option<String>,
    pub cookie: Option<AuthCookie>,
    pub auth_type: EAuthentication,
}

/// A credential as a mathematical value.
pub struct AuthCredentialView {
    pub token: Seq<char>,
    pub guest_token: Option<Seq<char>>,
    pub csrf_token: Option<Seq<char>>,
    pub cookie: Option<AuthCookieView>,
    pub auth_type: EAuthentication,
}

impl DeepView for AuthCredential {
    type V = AuthCredentialView;

    open spec fn deep_view(&self) -> AuthCredentialView {
        AuthCredentialView {
            token: self.token@,
            guest_token: self.guest_token.deep_view(),
            csrf_token: self.csrf_token.deep_view(),
            cookie: self.cookie.deep_view(),
            auth_type: self.auth_type,
        }
    }
}

/// The credential of a guest with the guest token `guest_token`: the
/// bearer token of the web client and the guest token.
pub open spec fn guest_credential(guest_token: Seq<char>) -> AuthCredentialView {
    AuthCredentialView {
        token: Tokens::AuthToken.text(),
        guest_token: Some(guest_token),
        csrf_token: None,
        cookie: None,
        auth_type: EAuthentication::Guest,
    }
}

/// The credential of the user whose stored cookie text is `raw_cookie`: the
/// bearer token of the web client, the cookies, and the cookie `ct0` as the
/// token against request forgery.
pub open spec fn user_credential(raw_cookie: Seq<char>) -> AuthCredentialView {
    AuthCredentialView {
        token: Tokens::AuthToken.text(),
        guest_token: None,
        csrf_token: cookie_of(raw_cookie).ct0,
        cookie: Some(cookie_of(raw_cookie)),
        auth_type: EAuthentication::User,
    }
}

impl AuthCredential {
    /// The credential of a guest, from the guest token.
    pub fn guest(guest_token: String) -> (r: AuthCredential)
        ensures
            r.deep_view() == guest_credential(guest_token@),
    {
        AuthCredential {
            token: String::from_str(Tokens::AuthToken.as_str()),
            guest_token: Some(guest_token),
            csrf_token: None,
            cookie: None,
            auth_type: EAuthentication::Guest,
        }
    }

    /// The credential of a signed-in user, from the stored cookie text. The
    /// token against request forgery is the cookie `ct0`.
    pub fn user(raw_cookie: String) -> (r: Result<AuthCredential, AuthError>)
        ensures
            r is Ok,
            r->Ok_0.deep_view() == user_credential(raw_cookie@),
    {
        let parsed = AuthCookie::parse(raw_cookie.as_str());
        let ct0 = match &parsed.ct0 {
            Some(v) => Some(v.clone()),
            None => None,
        };
        Ok(
            AuthCredential {
                token: String::from_str(Tokens::AuthToken.as_str()),
                guest_token: None,
                csrf_token: ct0,
                cookie: Some(parsed),
                auth_type: EAuthentication::User,
            },
        )
    }

    pub fn kind(&self) -> (r: EAuthentication)
        ensures
            r == self.auth_type,
    {
        self.auth_type
    }

    /// The headers that a request is sent with, as names and values, in
    /// this order: the bearer token; the guest token if there is one; the
    /// token against request forgery if there is one; the cookies that a
    /// request needs if there is a cookie.
    pub open spec fn header_list(self) -> Seq<(Seq<char>, Seq<char>)> {
        let a = seq![("authorization"@, "Bearer "@ + self.token@)];
        let b = match self.guest_token {
            Some(t) => a.push(("x-guest-token"@, t@)),
            None => a,
        };
        let c = match self.csrf_token {
            Some(t) => b.push(("x-csrf-token"@, t@)),
            None => b,
        };
        match self.cookie {
            Some(cookie) => c.push(("cookie"@, header_text(cookie.fields()))),
            None => c,
        }
    }

    /// The headers that a request is sent with, as names and values.
    pub fn header_pairs(&self) -> (r: Vec<(String, String)>)
        ensures
            r.deep_view() == self.header_list(),
            r@.len() <= 4,
            forall|k: int|
                0 <= k < self.header_list().len() ==> crate::headers::known_name(
                    #[trigger] self.header_list()[k].0,
                ),
    {
        let mut r: Vec<(String, String)> = Vec::new();
        r.push((String::from_str("authorization"), concat("Bearer ", self.token.as_str())));
        assert(r.deep_view() =~= seq![("authorization"@, "Bearer "@ + self.token@)]);
        let ghost a = r.deep_view();
        match &self.guest_token {
            Some(t) => {
                r.push((String::from_str("x-guest-token"), t.clone()));
                assert(r.deep_view() =~= a.push(("x-guest-token"@, t@)));
            },
            None => {},
        }
        let ghost b = r.deep_view();
        match &self.csrf_token {
            Some(t) => {
                r.push((String::from_str("x-csrf-token"), t.clone()));
                assert(r.deep_view() =~= b.push(("x-csrf-token"@, t@)));
            },
            None => {},
        }
        let ghost c = r.deep_view();
        match &self.cookie {
            Some(cookie) => {
                let fields = cookie.collect_fields();
                r.push((String::from_str("cookie"), fields));
                assert(r.deep_view() =~= c.push(("cookie"@, header_text(cookie.fields()))));
            },
            None => {},
        }
        r
    }
}

} // verus!
