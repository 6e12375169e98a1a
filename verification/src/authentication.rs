use vstd::prelude::*;

verus! {

/// How requests to the platform are authenticated.
#[derive(Debug, Clone, Copy, PartialEq, Eq, Structural)]
pub enum EAuthentication {
    Guest,
    User,
}

impl EAuthentication {
    pub open spec fn name(self) -> Seq<char> {
        match self {
            EAuthentication::Guest => "guest"@,
            EAuthentication::User => "user"@,
        }
    }

    pub fn as_str(&self) -> (r: &'static str)
        ensures
            r@ == self.name(),
    {
        match self {
            EAuthentication::Guest => "guest",
            EAuthentication::User => "user",
        }
    }
}

/// The addresses of the platform's login flow.
#[derive(Debug, Clone, Copy, PartialEq, Eq, Structural)]
pub enum ELoginUrls {
    GuestToken,
    InitiateLogin,
    LoginSubtask,
}

impl ELoginUrls {
    pub open spec fn address(self) -> Seq<char> {
        match self {
            ELoginUrls::GuestToken => "https://api.twitter.com/1.1/guest/activate.json"@,
            ELoginUrls::InitiateLogin => "https://api.twitter.com/1.1/onboarding/task.json?flow_name=login"@,
            ELoginUrls::LoginSubtask => "https://api.twitter.com/1.1/onboarding/task.json"@,
        }
    }

    pub fn as_str(&self) -> (r: &'static str)
        ensures
            r@ == self.address(),
    {
        match self {
            ELoginUrls::GuestToken => "https://api.twitter.com/1.1/guest/activate.json",
            ELoginUrls::InitiateLogin => "https://api.twitter.com/1.1/onboarding/task.json?flow_name=login",
            ELoginUrls::LoginSubtask => "https://api.twitter.com/1.1/onboarding/task.json",
        }
    }
}

/// The tokens that the platform's web client sends with every request.
#[derive(Debug, Clone, Copy, PartialEq, Eq, Structural)]
pub enum Tokens {
    AuthToken,
}

impl Tokens {
    pub open spec fn text(self) -> Seq<char> {
        match self {
            Tokens::AuthToken => "AAAAAAAAAAAAAAAAAAAAANRILgAAAAAAnNwIzUejRCOuH5E6I8xnZz4puTs%3D1Zv7ttfk8LF81IUq16cHjhLTvJu4FA33AGWWjCpTnA"@,
        }
    }

    pub fn as_str(&self) -> (r: &'static str)
        ensures
            r@ == self.text(),
    {
        match self {
            Tokens::AuthToken => "AAAAAAAAAAAAAAAAAAAAANRILgAAAAAAnNwIzUejRCOuH5E6I8xnZz4puTs%3D1Zv7ttfk8LF81IUq16cHjhLTvJu4FA33AGWWjCpTnA",
        }
    }
}

} // verus!
