use vstd::prelude::*;

use crate::server::errors::{ApiError, ApiResult, STATUS_FORBIDDEN, STATUS_INTERNAL_SERVER_ERROR};
use crate::server::sessions::{token_wf, Session, Sessions};

verus! {

/// Body of a login request: the shared gateway password.
pub struct LoginData {
    pub password: String,
}

/// Password login. A wrong password is refused outright and leaves the
/// session store untouched — no token is ever created for it. A right
/// password issues a fresh bearer token; the caller persists the store's
/// snapshot before handing the token out, so durability precedes
/// acknowledgment.
pub fn login(server_password: &str, data: &LoginData, sessions: &mut Sessions) -> (r: ApiResult<
    String,
>)
    requires
        old(sessions).wf(),
    ensures
        final(sessions).wf(),
        data.password@ != server_password@ ==> {
            &&& r is Err
            &&& r->Err_0.spec_code() == STATUS_FORBIDDEN
            &&& r->Err_0.spec_message() == "Invalid credentials provided"@
            &&& *final(sessions) == *old(sessions)
        },
        data.password@ == server_password@ ==> match r {
            Ok(id) => {
                &&& token_wf(id@)
                &&& !old(sessions).spec_tokens().contains(id@)
                &&& final(sessions).spec_tokens() == old(sessions).spec_tokens().push(id@)
            },
            Err(e) => {
                &&& e.spec_code() == STATUS_INTERNAL_SERVER_ERROR
                &&& e.spec_message() == "A session already exists with the provided ID!"@
                &&& *final(sessions) == *old(sessions)
            },
        },
{
    if !crate::server::text::string_eq(data.password.as_str(), server_password) {
        return Err(
            ApiError::new(STATUS_FORBIDDEN, String::from_str("Invalid credentials provided")),
        );
    }
    match sessions.insert() {
        Ok(id) => Ok(id),
        Err(msg) => Err(ApiError::new(STATUS_INTERNAL_SERVER_ERROR, msg)),
    }
}

/// Bearer-token check run before every route but the login: the token
/// authorizes the request exactly when the store knows it.
pub fn authorize(sessions: &Sessions, token: &str) -> (r: ApiResult<Session>)
    ensures
        r is Ok <==> sessions.spec_tokens().contains(token@),
        r is Err ==> {
            &&& r->Err_0.spec_code() == STATUS_FORBIDDEN
            &&& r->Err_0.spec_message() == "Invalid bearer token"@
        },
{
    match sessions.get(token) {
        Some(session) => Ok(session),
        None => Err(ApiError::new(STATUS_FORBIDDEN, String::from_str("Invalid bearer token"))),
    }
}

} // verus!
