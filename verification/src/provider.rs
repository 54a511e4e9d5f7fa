//! The calls the account handlers send to the identity provider.

use vstd::prelude::*;
use vstd::string::*;
use crate::config::{Config, ConfigView};
use crate::schema::{ConfirmUserSchema, LoginSchema, SignupSchema};
use crate::secret::{generate_secret_hash, hashable, secret_hash};

verus! {

/// A named value sent to the provider.
#[derive(Debug, Clone, PartialEq, Eq)]
pub struct Parameter {
    pub name: String,
    pub value: String,
}

impl View for Parameter {
    type V = (Seq<char>, Seq<char>);

    open spec fn view(&self) -> (Seq<char>, Seq<char>) {
        (self.name@, self.value@)
    }
}

/// The views of a list of parameters, in order.
pub open spec fn parameter_views(parameters: Seq<Parameter>) -> Seq<(Seq<char>, Seq<char>)> {
    parameters.map_values(|parameter: Parameter| parameter@)
}

/// How a login proves the caller's identity.
#[derive(Debug, Clone, Copy, PartialEq, Eq, Structural)]
pub enum AuthFlow {
    UserPasswordAuth,
}

/// A request to start authentication.
#[derive(Debug, Clone, PartialEq, Eq)]
pub struct InitiateAuthRequest {
    pub client_id: String,
    pub auth_flow: AuthFlow,
    pub auth_parameters: Vec<Parameter>,
}

/// What an `InitiateAuthRequest` is, mathematically.
pub struct InitiateAuthView {
    pub client_id: Seq<char>,
    pub auth_flow: AuthFlow,
    pub auth_parameters: Seq<(Seq<char>, Seq<char>)>,
}

impl View for InitiateAuthRequest {
    type V = InitiateAuthView;

    open spec fn view(&self) -> InitiateAuthView {
        InitiateAuthView {
            client_id: self.client_id@,
            auth_flow: self.auth_flow,
            auth_parameters: parameter_views(self.auth_parameters@),
        }
    }
}

/// A request to register a user.
#[derive(Debug, Clone, PartialEq, Eq)]
pub struct SignUpRequest {
    pub client_id: String,
    pub secret_hash: String,
    pub username: String,
    pub password: String,
    pub user_attributes: Vec<Parameter>,
}

/// What a `SignUpRequest` is, mathematically.
pub struct SignUpView {
    pub client_id: Seq<char>,
    pub secret_hash: Seq<char>,
    pub username: Seq<char>,
    pub password: Seq<char>,
    pub user_attributes: Seq<(Seq<char>, Seq<char>)>,
}

impl View for SignUpRequest {
    type V = SignUpView;

    open spec fn view(&self) -> SignUpView {
        SignUpView {
            client_id: self.client_id@,
            secret_hash: self.secret_hash@,
            username: self.username@,
            password: self.password@,
            user_attributes: parameter_views(self.user_attributes@),
        }
    }
}

/// A request to confirm a registration.
#[derive(Debug, Clone, PartialEq, Eq)]
pub struct ConfirmSignUpRequest {
    pub client_id: String,
    pub secret_hash: String,
    pub username: String,
    pub confirmation_code: String,
}

/// What a `ConfirmSignUpRequest` is, mathematically.
pub struct ConfirmSignUpView {
    pub client_id: Seq<char>,
    pub secret_hash: Seq<char>,
    pub username: Seq<char>,
    pub confirmation_code: Seq<char>,
}

impl View for ConfirmSignUpRequest {
    type V = ConfirmSignUpView;

    open spec fn view(&self) -> ConfirmSignUpView {
        ConfirmSignUpView {
            client_id: self.client_id@,
            secret_hash: self.secret_hash@,
            username: self.username@,
            confirmation_code: self.confirmation_code@,
        }
    }
}

/// The authentication request for a user name and password.
pub open spec fn login_request_view(
    config: ConfigView,
    username: Seq<char>,
    password: Seq<char>,
) -> InitiateAuthView {
    InitiateAuthView {
        client_id: config.client_id,
        auth_flow: AuthFlow::UserPasswordAuth,
        auth_parameters: seq![
            ("USERNAME"@, username),
            ("PASSWORD"@, password),
            ("SECRET_HASH"@, secret_hash(config.client_secret, username, config.client_id)),
        ],
    }
}

/// The registration request for a user name, e-mail address and password.
pub open spec fn signup_request_view(
    config: ConfigView,
    username: Seq<char>,
    email: Seq<char>,
    password: Seq<char>,
) -> SignUpView {
    SignUpView {
        client_id: config.client_id,
        secret_hash: secret_hash(config.client_secret, username, config.client_id),
        username,
        password,
        user_attributes: seq![("email"@, email)],
    }
}

/// The confirmation request for a user name and the code the user received.
pub open spec fn confirm_request_view(
    config: ConfigView,
    username: Seq<char>,
    confirmation_code: Seq<char>,
) -> ConfirmSignUpView {
    ConfirmSignUpView {
        client_id: config.client_id,
        secret_hash: secret_hash(config.client_secret, username, config.client_id),
        username,
        confirmation_code,
    }
}

fn parameter(name: &str, value: String) -> (parameter: Parameter)
    ensures
        parameter@ == (name@, value@),
{
    Parameter { name: String::from_str(name), value }
}

/// What a login sends to the provider: the password flow, with the user name,
/// the password and the secret hash as its parameters.
pub fn login_request(config: &Config, body: &LoginSchema) -> (request: InitiateAuthRequest)
    requires
        hashable(config.client_secret@, body.username@, config.client_id@),
    ensures
        request@ == login_request_view(config@, body.username@, body.password@),
{
    let hash = generate_secret_hash(
        config.client_secret.as_str(),
        body.username.as_str(),
        config.client_id.as_str(),
    );
    let mut auth_parameters: Vec<Parameter> = Vec::new();
    auth_parameters.push(parameter("USERNAME", body.username.clone()));
    auth_parameters.push(parameter("PASSWORD", body.password.clone()));
    auth_parameters.push(parameter("SECRET_HASH", hash));
    let request = InitiateAuthRequest {
        client_id: config.client_id.clone(),
        auth_flow: AuthFlow::UserPasswordAuth,
        auth_parameters,
    };
    assert(request@.auth_parameters =~= login_request_view(
        config@,
        body.username@,
        body.password@,
    ).auth_parameters);
    request
}

/// What a registration sends to the provider: the credentials, the secret
/// hash, and the e-mail address as the one user attribute.
pub fn signup_request(config: &Config, body: &SignupSchema) -> (request: SignUpRequest)
    requires
        hashable(config.client_secret@, body.username@, config.client_id@),
    ensures
        request@ == signup_request_view(config@, body.username@, body.email@, body.password@),
{
    let secret_hash = generate_secret_hash(
        config.client_secret.as_str(),
        body.username.as_str(),
        config.client_id.as_str(),
    );
    let mut user_attributes: Vec<Parameter> = Vec::new();
    user_attributes.push(parameter("email", body.email.clone()));
    let request = SignUpRequest {
        client_id: config.client_id.clone(),
        secret_hash,
        username: body.username.clone(),
        password: body.password.clone(),
        user_attributes,
    };
    assert(request@.user_attributes =~= seq![("email"@, body.email@)]);
    request
}

/// What a confirmation sends to the provider.
pub fn confirm_request(config: &Config, body: &ConfirmUserSchema) -> (request:
    ConfirmSignUpRequest)
    requires
        hashable(config.client_secret@, body.username@, config.client_id@),
    ensures
        request@ == confirm_request_view(config@, body.username@, body.confirmation_code@),
{
    let secret_hash = generate_secret_hash(
        config.client_secret.as_str(),
        body.username.as_str(),
        config.client_id.as_str(),
    );
    ConfirmSignUpRequest {
        client_id: config.client_id.clone(),
        secret_hash,
        username: body.username.clone(),
        confirmation_code: body.confirmation_code.clone(),
    }
}

} // verus!
