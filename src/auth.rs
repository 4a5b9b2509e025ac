//! The bearer-token handshake: tokens, challenges, scopes and the decision
//! of what to request next.

use vstd::prelude::*;

verus! {

/// The operation a token is requested for.
#[derive(Debug, Clone, Copy, PartialEq, Eq)]
pub enum RegistryOperation {
    Pull,
    Push,
}

/// The credentials presented to a token endpoint.
#[derive(Debug, Clone)]
pub enum RegistryAuth {
    /// No credentials.
    Anonymous,
    /// HTTP Basic credentials: user name and password.
    Basic(String, String),
}

/// A token granted by a registry's token endpoint.
#[derive(Debug, Clone)]
pub struct RegistryToken {
    pub token: String,
}

/// The characters of `Bearer `.
pub open spec fn bearer_prefix() -> Seq<char> {
    seq!['B', 'e', 'a', 'r', 'e', 'r', ' ']
}

impl RegistryToken {
    /// Wraps the token text.
    pub fn new(token: String) -> (r: Self)
        ensures
            r.token@ == token@,
    {
        RegistryToken { token }
    }

    /// The value of the `Authorization` header: `Bearer <token>`.
    pub fn bearer_token(&self) -> (r: String)
        ensures
            r@ == bearer_prefix() + self.token@,
    {
        let mut r = String::from_str("Bearer ");
        proof {
            reveal_strlit("Bearer ");
            assert(r@ =~= bearer_prefix());
        }
        r.append(self.token.as_str());
        r
    }
}

/// The fields of a `Bearer` challenge in a `WWW-Authenticate` header.
#[derive(Debug, Clone)]
pub struct BearerChallenge {
    pub realm: Option<String>,
    pub service: Option<String>,
    pub scope: Option<String>,
}

/// What the client asks a token endpoint for.
#[derive(Debug, Clone)]
pub struct TokenRequest {
    /// The URL of the token endpoint.
    pub realm: String,
    /// The `service` query parameter.
    pub service: String,
    /// The `scope` query parameter.
    pub scope: String,
}

/// Why a token could not be requested or obtained.
#[derive(Debug, Clone, PartialEq, Eq)]
pub enum AuthError {
    /// The bearer challenge names no realm.
    MissingRealm,
    /// The bearer challenge names no service.
    MissingService,
    /// The token endpoint answered with another status than 200.
    Rejected { status: u16, body: String },
    /// The token endpoint's answer held neither `token` nor `access_token`.
    UndecodableToken,
}

/// `repository:<repository>:pull`, or `...:pull,push` for a push.
pub open spec fn scope_spec(repository: Seq<char>, operation: RegistryOperation) -> Seq<char> {
    match operation {
        RegistryOperation::Pull => "repository:"@ + repository + ":pull"@,
        RegistryOperation::Push => "repository:"@ + repository + ":pull,push"@,
    }
}

/// Builds the scope requested for `operation` on `repository`.
pub fn scope_for(repository: &str, operation: RegistryOperation) -> (r: String)
    ensures
        r@ == scope_spec(repository@, operation),
{
    let mut r = String::from_str("repository:");
    r.append(repository);
    match operation {
        RegistryOperation::Pull => r.append(":pull"),
        RegistryOperation::Push => r.append(":pull,push"),
    }
    r
}

/// Decides, from the answer to `GET /v2/`, whether a token must be requested:
/// no `Bearer` challenge means anonymous access, and a challenge without
/// realm or service cannot be followed.
pub fn token_request(
    challenge: Option<BearerChallenge>,
    repository: &str,
    operation: RegistryOperation,
) -> (r: Result<Option<TokenRequest>, AuthError>)
    ensures
        challenge is None ==> r == Ok::<Option<TokenRequest>, AuthError>(None),
        challenge matches Some(c) ==> {
            &&& c.realm is None ==> r == Err::<Option<TokenRequest>, _>(AuthError::MissingRealm)
            &&& c.realm is Some && c.service is None ==> r == Err::<Option<TokenRequest>, _>(
                AuthError::MissingService,
            )
            &&& (c.realm is Some && c.service is Some) ==> (r matches Ok(Some(t)) && t.realm@
                == c.realm->0@ && t.service@ == c.service->0@ && t.scope@ == scope_spec(
                repository@,
                operation,
            ))
        },
{
    match challenge {
        None => Ok(None),
        Some(c) => match (c.realm, c.service) {
            (None, _) => Err(AuthError::MissingRealm),
            (Some(_), None) => Err(AuthError::MissingService),
            (Some(realm), Some(service)) => Ok(
                Some(TokenRequest { realm, service, scope: scope_for(repository, operation) }),
            ),
        },
    }
}

/// Picks the bearer token from the decoded fields of a token response:
/// registries name it `token` or `access_token`.
pub fn select_token(token: Option<String>, access_token: Option<String>) -> (r: Option<
    RegistryToken,
>)
    ensures
        token matches Some(t) ==> (r matches Some(x) && x.token@ == t@),
        token is None && access_token is Some ==> (r matches Some(x) && x.token@
            == access_token->0@),
        token is None && access_token is None ==> r is None,
{
    match token {
        Some(t) => Some(RegistryToken::new(t)),
        None => match access_token {
            Some(a) => Some(RegistryToken::new(a)),
            None => None,
        },
    }
}

/// Decides the outcome of a token request from the endpoint's status, the
/// token found in its body, and the body itself.
pub fn token_response(status: u16, token: Option<RegistryToken>, body: String) -> (r: Result<
    RegistryToken,
    AuthError,
>)
    ensures
        status == 200 && token is Some ==> (r matches Ok(t) && t.token@ == token->0.token@),
        status == 200 && token is None ==> r == Err::<RegistryToken, _>(
            AuthError::UndecodableToken,
        ),
        status != 200 ==> (r matches Err(AuthError::Rejected { status: s, body: b }) && s
            == status && b@ == body@),
{
    if status == 200 {
        match token {
            Some(t) => Ok(t),
            None => Err(AuthError::UndecodableToken),
        }
    } else {
        Err(AuthError::Rejected { status, body })
    }
}

} // verus!
