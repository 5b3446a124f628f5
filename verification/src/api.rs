//! The replies of the HTTP API, apart from the transport itself.
use vstd::prelude::*;
use crate::types::{EcosystemResponse, ErrorResponse, ProviderAccountResponse};

verus! {

/// `404 Not Found`.
pub const NOT_FOUND: u16 = 404;

/// `500 Internal Server Error`.
pub const INTERNAL_SERVER_ERROR: u16 = 500;

/// Body of the health check.
pub const HEALTHZ_BODY: &'static str = "ok\n";

/// Message of every reply to a failed store operation; the store's own
/// error is logged, never shown.
pub const DATABASE_FAILURE: &'static str = "registry database operation failed";

/// An error reply: its HTTP status and its body.
pub struct ApiError {
    pub status: u16,
    pub body: ErrorResponse,
}

/// The reply for something the registry does not know.
pub fn not_found(message: String) -> (e: ApiError)
    ensures
        e.status == NOT_FOUND,
        e.body.error == message,
{
    ApiError { status: NOT_FOUND, body: ErrorResponse { error: message } }
}

/// The reply when the store failed.
pub fn internal_error() -> (e: ApiError)
    ensures
        e.status == INTERNAL_SERVER_ERROR,
        e.body.error@ == DATABASE_FAILURE@,
{
    ApiError {
        status: INTERNAL_SERVER_ERROR,
        body: ErrorResponse { error: String::from_str(DATABASE_FAILURE) },
    }
}

/// The message for an unknown ecosystem `namespace/name`.
pub open spec fn unknown_ecosystem_message(namespace: Seq<char>, name: Seq<char>) -> Seq<char> {
    "unknown Vapor ecosystem `"@ + namespace + "/"@ + name + "`"@
}

/// The message for an unknown provider account `provider:login`.
pub open spec fn unknown_provider_account_message(provider: Seq<char>, login: Seq<char>) -> Seq<
    char,
> {
    "unknown Vapor provider account `"@ + provider + ":"@ + login + "`"@
}

/// The reply for an unknown ecosystem.
pub fn unknown_ecosystem(namespace: &str, name: &str) -> (e: ApiError)
    ensures
        e.status == NOT_FOUND,
        e.body.error@ == unknown_ecosystem_message(namespace@, name@),
{
    let mut message = String::from_str("unknown Vapor ecosystem `");
    message.append(namespace);
    message.append("/");
    message.append(name);
    message.append("`");
    not_found(message)
}

/// The reply for an unknown provider account.
pub fn unknown_provider_account(provider: &str, login: &str) -> (e: ApiError)
    ensures
        e.status == NOT_FOUND,
        e.body.error@ == unknown_provider_account_message(provider@, login@),
{
    let mut message = String::from_str("unknown Vapor provider account `");
    message.append(provider);
    message.append(":");
    message.append(login);
    message.append("`");
    not_found(message)
}

/// The reply to `GET /v1/ecosystems/{namespace}/{name}` once the lookup has
/// run: the ecosystem when found, else `404` naming it.
pub fn ecosystem_reply(namespace: &str, name: &str, found: Option<EcosystemResponse>) -> (r: Result<
    EcosystemResponse,
    ApiError,
>)
    ensures
        found matches Some(e) ==> r == Ok::<EcosystemResponse, ApiError>(e),
        found is None ==> (r matches Err(e) && e.status == NOT_FOUND && e.body.error@
            == unknown_ecosystem_message(namespace@, name@)),
{
    match found {
        Some(e) => Ok(e),
        None => Err(unknown_ecosystem(namespace, name)),
    }
}

/// The reply to `GET /v1/providers/{provider}/{login}` once the lookup has
/// run: the account when found, else `404` naming it.
pub fn provider_account_reply(
    provider: &str,
    login: &str,
    found: Option<ProviderAccountResponse>,
) -> (r: Result<ProviderAccountResponse, ApiError>)
    ensures
        found matches Some(a) ==> r == Ok::<ProviderAccountResponse, ApiError>(a),
        found is None ==> (r matches Err(e) && e.status == NOT_FOUND && e.body.error@
            == unknown_provider_account_message(provider@, login@)),
{
    match found {
        Some(a) => Ok(a),
        None => Err(unknown_provider_account(provider, login)),
    }
}

} // verus!
