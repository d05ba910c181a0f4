//! The registration payload: what a user submits, and what the provider's
//! administrative endpoint expects for it.

use vstd::prelude::*;
use vstd::std_specs::convert::FromSpecImpl;
use vstd::string::*;

verus! {

/// The kind of credential a registration sets: a password.
pub const PASSWORD_CREDENTIAL: &'static str = "password";

/// A registration as the gateway receives it.
#[derive(Debug, PartialEq, Eq)]
pub struct ProxyRegisterRequest {
    pub first_name: String,
    pub last_name: String,
    pub username: String,
    pub email: String,
    pub password: String,
}

/// One credential of a new user.
#[derive(Debug, PartialEq, Eq)]
pub struct Credentials {
    pub kind: String,
    pub value: String,
}

/// A registration as the provider expects it.
#[derive(Debug, PartialEq, Eq)]
pub struct RegisterRequest {
    pub first_name: String,
    pub last_name: String,
    pub email: String,
    pub enabled: bool,
    pub username: String,
    pub credentials: Vec<Credentials>,
}

/// The mathematical content of a [`ProxyRegisterRequest`].
pub struct ProxyRegistrationView {
    pub first_name: Seq<char>,
    pub last_name: Seq<char>,
    pub username: Seq<char>,
    pub email: Seq<char>,
    pub password: Seq<char>,
}

/// The mathematical content of a [`Credentials`].
pub struct CredentialsView {
    pub kind: Seq<char>,
    pub value: Seq<char>,
}

/// The mathematical content of a [`RegisterRequest`].
pub struct RegistrationView {
    pub first_name: Seq<char>,
    pub last_name: Seq<char>,
    pub email: Seq<char>,
    pub enabled: bool,
    pub username: Seq<char>,
    pub credentials: Seq<CredentialsView>,
}

impl View for ProxyRegisterRequest {
    type V = ProxyRegistrationView;

    open spec fn view(&self) -> ProxyRegistrationView {
        ProxyRegistrationView {
            first_name: self.first_name@,
            last_name: self.last_name@,
            username: self.username@,
            email: self.email@,
            password: self.password@,
        }
    }
}

impl View for Credentials {
    type V = CredentialsView;

    open spec fn view(&self) -> CredentialsView {
        CredentialsView { kind: self.kind@, value: self.value@ }
    }
}

impl View for RegisterRequest {
    type V = RegistrationView;

    open spec fn view(&self) -> RegistrationView {
        RegistrationView {
            first_name: self.first_name@,
            last_name: self.last_name@,
            email: self.email@,
            enabled: self.enabled,
            username: self.username@,
            credentials: Seq::new(self.credentials@.len(), |i: int| self.credentials@[i]@),
        }
    }
}

impl ProxyRegistrationView {
    /// The registration that the provider gets for this submission: the same
    /// names, enabled, with the password as the one credential.
    pub open spec fn provider_form(self) -> RegistrationView {
        RegistrationView {
            first_name: self.first_name,
            last_name: self.last_name,
            email: self.email,
            enabled: true,
            username: self.username,
            credentials: seq![CredentialsView { kind: PASSWORD_CREDENTIAL@, value: self.password }],
        }
    }
}

impl From<ProxyRegisterRequest> for RegisterRequest {
    /// Puts a submitted registration into the provider's form.
    fn from(proxy: ProxyRegisterRequest) -> (r: RegisterRequest)
        ensures
            r@ == proxy@.provider_form(),
    {
        let mut credentials: Vec<Credentials> = Vec::new();
        credentials.push(
            Credentials { kind: String::from_str(PASSWORD_CREDENTIAL), value: proxy.password },
        );
        let r = RegisterRequest {
            first_name: proxy.first_name,
            last_name: proxy.last_name,
            email: proxy.email,
            enabled: true,
            username: proxy.username,
            credentials,
        };
        assert(r@.credentials =~= proxy@.provider_form().credentials);
        r
    }
}

/// The conversion is stated over views, on `from` itself: its result holds a
/// vector, which no specification expression can build.
impl FromSpecImpl<ProxyRegisterRequest> for RegisterRequest {
    open spec fn obeys_from_spec() -> bool {
        false
    }

    open spec fn from_spec(proxy: ProxyRegisterRequest) -> RegisterRequest {
        arbitrary()
    }
}

} // verus!
