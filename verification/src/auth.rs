use vstd::prelude::*;
use crate::authentication::EAuthentication;
use crate::credentials::{
    guest_credential, user_credential, AuthCredential, AuthCredentialView, AuthError,
};

verus! {

/// A source of credentials. Asking the platform or the store is the
/// runtime's part; the generator makes the credential of what came back.
pub trait AuthGenerator {
    /// The kind of credential that the generator makes.
    spec fn makes(&self) -> EAuthentication;

    fn auth_type(&self) -> (r: EAuthentication)
        ensures
            r == self.makes(),
    ;

    /// The name of the generator that does the work.
    spec fn named(&self) -> Seq<char>;

    fn generator_name(&self) -> (r: &'static str)
        ensures
            r@ == self.named(),
    ;

    /// The credential that the generator makes of what its source
    /// answered, or the error of no answer.
    spec fn made(&self, answer: Option<Seq<char>>) -> Result<AuthCredentialView, AuthError>;

    /// The credential made of what its source answered: the guest token of
    /// the platform, or the stored cookie text. No answer gives no
    /// credential.
    fn generate(&self, answer: Option<String>) -> (r: Result<AuthCredential, AuthError>)
        ensures
            match r {
                Ok(credential) => self.made(answer.deep_view()) == Ok::<
                    AuthCredentialView,
                    AuthError,
                >(credential.deep_view()),
                Err(e) => self.made(answer.deep_view()) == Err::<AuthCredentialView, AuthError>(e),
            },
            answer is None <==> r is Err,
    ;
}

/// Makes the credential of a guest.
#[derive(Debug, Clone, Copy)]
pub struct GuestAuth;

/// Makes the credential of the signed-in user.
#[derive(Debug, Clone, Copy)]
pub struct UserAuth;

impl AuthGenerator for GuestAuth {
    open spec fn makes(&self) -> EAuthentication {
        EAuthentication::Guest
    }

    fn auth_type(&self) -> (r: EAuthentication) {
        EAuthentication::Guest
    }

    open spec fn named(&self) -> Seq<char> {
        "GuestAuth"@
    }

    fn generator_name(&self) -> (r: &'static str) {
        "GuestAuth"
    }

    open spec fn made(&self, answer: Option<Seq<char>>) -> Result<AuthCredentialView, AuthError> {
        match answer {
            Some(token) => Ok(guest_credential(token)),
            None => Err(AuthError::NoGuestToken),
        }
    }

    fn generate(&self, answer: Option<String>) -> (r: Result<AuthCredential, AuthError>) {
        match answer {
            Some(token) => Ok(AuthCredential::guest(token)),
            None => Err(AuthError::NoGuestToken),
        }
    }
}

impl AuthGenerator for UserAuth {
    open spec fn makes(&self) -> EAuthentication {
        EAuthentication::User
    }

    fn auth_type(&self) -> (r: EAuthentication) {
        EAuthentication::User
    }

    open spec fn named(&self) -> Seq<char> {
        "UserAuth"@
    }

    fn generator_name(&self) -> (r: &'static str) {
        "UserAuth"
    }

    open spec fn made(&self, answer: Option<Seq<char>>) -> Result<AuthCredentialView, AuthError> {
        match answer {
            Some(cookie) => Ok(user_credential(cookie)),
            None => Err(AuthError::NoCookie),
        }
    }

    fn generate(&self, answer: Option<String>) -> (r: Result<AuthCredential, AuthError>) {
        match answer {
            Some(cookie) => AuthCredential::user(cookie),
            None => Err(AuthError::NoCookie),
        }
    }
}

/// One of two generators, chosen when the program runs.
#[derive(Debug)]
pub enum AuthChoice<G, U> {
    Guest(G),
    User(U),
}

impl<G: AuthGenerator, U: AuthGenerator> AuthGenerator for AuthChoice<G, U> {
    open spec fn makes(&self) -> EAuthentication {
        match self {
            AuthChoice::Guest(g) => g.makes(),
            AuthChoice::User(u) => u.makes(),
        }
    }

    fn auth_type(&self) -> (r: EAuthentication) {
        match self {
            AuthChoice::Guest(g) => g.auth_type(),
            AuthChoice::User(u) => u.auth_type(),
        }
    }

    open spec fn named(&self) -> Seq<char> {
        match self {
            AuthChoice::Guest(g) => g.named(),
            AuthChoice::User(u) => u.named(),
        }
    }

    fn generator_name(&self) -> (r: &'static str) {
        match self {
            AuthChoice::Guest(g) => g.generator_name(),
            AuthChoice::User(u) => u.generator_name(),
        }
    }

    open spec fn made(&self, answer: Option<Seq<char>>) -> Result<AuthCredentialView, AuthError> {
        match self {
            AuthChoice::Guest(g) => g.made(answer),
            AuthChoice::User(u) => u.made(answer),
        }
    }

    fn generate(&self, answer: Option<String>) -> (r: Result<AuthCredential, AuthError>) {
        match self {
            AuthChoice::Guest(g) => g.generate(answer),
            AuthChoice::User(u) => u.generate(answer),
        }
    }
}

/// The generator for a kind of authentication.
pub fn auth_generator_for(auth_type: EAuthentication) -> (r: Box<AuthChoice<GuestAuth, UserAuth>>)
    ensures
        r.makes() == auth_type,
        auth_type == EAuthentication::Guest ==> *r == AuthChoice::<GuestAuth, UserAuth>::Guest(GuestAuth),
        auth_type == EAuthentication::User ==> *r == AuthChoice::<GuestAuth, UserAuth>::User(UserAuth),
{
    match auth_type {
        EAuthentication::Guest => Box::new(AuthChoice::Guest(GuestAuth)),
        EAuthentication::User => Box::new(AuthChoice::User(UserAuth)),
    }
}

} // verus!
