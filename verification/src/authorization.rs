//! Authentication of incoming requests and the decision whether a token grants access to the
//! kernel, from the answer of the authorization service.
use vstd::prelude::*;

use crate::logging::TracingContext;

verus! {

/// The authentication provided by an incoming request: a token, or none.
#[derive(Debug, Clone, PartialEq, Eq)]
pub struct Authentication(pub Option<String>);

impl Authentication {
    /// Authentication with the given token.
    pub fn new(token: String) -> (a: Authentication)
        ensures
            a.0 == Some(token),
    {
        Authentication(Some(token))
    }

    /// No authentication.
    pub fn none() -> (a: Authentication)
        ensures
            a.0 is None,
    {
        Authentication(None)
    }

    /// The token, if there is one.
    pub fn into_maybe_string(self) -> (t: Option<String>)
        ensures
            t == self.0,
    {
        self.0
    }
}

/// Failures which occur when checking token validity.
#[derive(Debug, Clone, PartialEq, Eq, Structural)]
pub enum AuthorizationClientError {
    /// The authorization service could not be asked or gave no usable answer; asking again later
    /// may succeed.
    Recoverable,
}

impl AuthorizationClientError {
    /// The text of the error.
    pub fn message(&self) -> (m: &'static str)
        ensures
            m@ == "Failed to check token validity against the authorization service. You should try again later,\n        if the problem persists you may want to contact the operators."@,
    {
        "Failed to check token validity against the authorization service. You should try again later,\n        if the problem persists you may want to contact the operators."
    }
}

/// A permission that the authorization service grants.
#[derive(Debug, Clone, Copy, PartialEq, Eq, Structural)]
pub enum Permission {
    KernelAccess,
}

/// The permissions the kernel asks the authorization service for.
pub fn required_permissions() -> (p: Vec<Permission>)
    ensures
        p@ == seq![Permission::KernelAccess],
{
    vec![Permission::KernelAccess]
}

/// The request to the authorization service for a token: the URL of its `check_user` endpoint
/// and the bearer token. Without a token there is nothing to ask.
pub fn check_user_request(authorization_url: &str, auth: &Authentication) -> (r: Option<(String, String)>)
    ensures
        match auth.0 {
            None => r is None,
            Some(token) => r matches Some((url, t)) && url@ == authorization_url@ + "/check_user"@ && t
                == token,
        },
{
    match &auth.0 {
        None => None,
        Some(token) => {
            let mut url = authorization_url.to_owned();
            url.append("/check_user");
            Some((url, token.clone()))
        },
    }
}

/// What came back from the authorization service.
#[derive(Debug, Clone, PartialEq, Eq)]
pub enum AuthorizationResponse {
    /// No request was made: the authentication carries no token.
    NotAsked,
    /// The request could not be sent or no answer arrived.
    SendFailed,
    /// An answer with an HTTP status code, and the permissions its body lists where the body
    /// could be read as a list of permissions.
    Answer { status: u16, permissions: Option<Vec<Permission>> },
}

/// Whether the answer of the authorization service grants access.
///
/// Without a token no request is made and access is denied. `401` and `403` deny access. Any
/// other client or server error, an answer that could not be had or a body that could not be read
/// is an error worth retrying. Otherwise access is granted exactly when the service grants the
/// kernel access permission and nothing else.
pub open spec fn spec_token_valid(response: AuthorizationResponse) -> Result<bool, AuthorizationClientError> {
    match response {
        AuthorizationResponse::NotAsked => Ok(false),
        AuthorizationResponse::SendFailed => Err(AuthorizationClientError::Recoverable),
        AuthorizationResponse::Answer { status, permissions } => if status == 401 || status == 403 {
            Ok(false)
        } else if 400 <= status < 600 {
            Err(AuthorizationClientError::Recoverable)
        } else {
            match permissions {
                None => Err(AuthorizationClientError::Recoverable),
                Some(p) => Ok(p@ == seq![Permission::KernelAccess]),
            }
        },
    }
}

/// Whether the answer of the authorization service grants access.
pub fn token_valid_from_response(response: AuthorizationResponse) -> (r: Result<bool, AuthorizationClientError>)
    ensures
        r == spec_token_valid(response),
{
    match response {
        AuthorizationResponse::NotAsked => Ok(false),
        AuthorizationResponse::SendFailed => Err(AuthorizationClientError::Recoverable),
        AuthorizationResponse::Answer { status, permissions } => {
            if status == 401 || status == 403 {
                Ok(false)
            } else if 400 <= status && status < 600 {
                Err(AuthorizationClientError::Recoverable)
            } else {
                match permissions {
                    None => Err(AuthorizationClientError::Recoverable),
                    Some(p) => {
                        let granted = p.len() == 1 && p[0] == Permission::KernelAccess;
                        assert(granted == (p@ == seq![Permission::KernelAccess])) by {
                            if p@ == seq![Permission::KernelAccess] {
                                assert(p@[0] == Permission::KernelAccess);
                            }
                            if granted {
                                assert(p@ =~= seq![Permission::KernelAccess]);
                            }
                        }
                        Ok(granted)
                    },
                }
            }
        },
    }
}

/// Checks whether a token grants access to the kernel.
pub trait AuthorizationClient {
    /// Whether the authentication grants access, or an error worth retrying.
    fn token_valid(&self, auth: Authentication, context: TracingContext) -> Result<
        bool,
        AuthorizationClientError,
    >;
}

/// Asks whether an authentication grants access to the kernel.
pub trait AuthorizationApi {
    /// Whether the authentication grants access, or an error worth retrying.
    fn check_permission(&self, auth: Authentication, context: TracingContext) -> Result<
        bool,
        AuthorizationClientError,
    >;
}

/// The client used where no authorization service is configured: every request is granted.
pub struct AlwaysValidClient;

impl AuthorizationClient for AlwaysValidClient {
    fn token_valid(&self, _auth: Authentication, _context: TracingContext) -> (r: Result<
        bool,
        AuthorizationClientError,
    >)
        ensures
            r == Ok::<bool, AuthorizationClientError>(true),
    {
        Ok(true)
    }
}

/// The authorization API as part of the state of the HTTP shell.
pub struct AuthorizationState<M>(pub M);

} // verus!
