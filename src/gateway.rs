//! The single authentication checkpoint of protected operations, and the
//! access decisions that handlers take from its verdict.

use vstd::prelude::*;
use crate::claims::{claims_view, decode_claims, decoded_claims, jwt_signed, Claims};
use crate::secret::{get_secret_key, opt_view, resolved_secret, ConfigError};
use crate::token::{get_jwt_token, opt_str_view, request_token};

verus! {

/// Why a request could not be authenticated.
#[derive(Debug, Clone, Copy, PartialEq, Eq, Structural)]
pub enum AppError {
    /// The request carries no token.
    TokenNotFound,
    /// The secret material could not be resolved.
    SecretUnavailable(ConfigError),
    /// The token does not verify under the secret.
    InvalidToken,
}

/// Authenticates a request from the text of its `Cookie` header, the text of
/// its proxy authorization header, and the configured secret: locates the
/// token, resolves the secret, and verifies the token's claims. The result
/// depends on its arguments alone, and no role is checked.
pub fn verify(cookie: Option<&str>, auth_header: Option<&str>, secret_config: Option<&str>) -> (r: Result<Claims, AppError>)
    ensures
        request_token(opt_str_view(cookie), opt_str_view(auth_header)) is None
            ==> r == Err::<Claims, AppError>(AppError::TokenNotFound),
        request_token(opt_str_view(cookie), opt_str_view(auth_header)) is Some ==> (resolved_secret(
            opt_view(secret_config),
        ) matches Err(e) ==> r == Err::<Claims, AppError>(AppError::SecretUnavailable(e))),
        request_token(opt_str_view(cookie), opt_str_view(auth_header)) matches Some(t) ==> (resolved_secret(
            opt_view(secret_config),
        ) matches Ok(k) ==> match decoded_claims(t, k) {
            Some(v) => r matches Ok(c) && claims_view(c) == v,
            None => r == Err::<Claims, AppError>(AppError::InvalidToken),
        }),
        request_token(opt_str_view(cookie), opt_str_view(auth_header)) matches Some(t) ==> (resolved_secret(
            opt_view(secret_config),
        ) matches Ok(k) ==> forall|sub: Seq<char>, exp: u64, is_admin: bool|
            t == #[trigger] jwt_signed(sub, exp, is_admin, k) ==> (r matches Ok(c) && claims_view(c) == (
            sub,
            exp,
            is_admin,
        ))),
{
    let token = match get_jwt_token(cookie, auth_header) {
        Some(t) => t,
        None => return Err(AppError::TokenNotFound),
    };
    let key = match get_secret_key(secret_config) {
        Ok(k) => k,
        Err(e) => return Err(AppError::SecretUnavailable(e)),
    };
    match decode_claims(token.as_str(), &key) {
        Ok(c) => Ok(c),
        Err(_) => Err(AppError::InvalidToken),
    }
}

/// What a handler does with a request.
#[derive(Debug, Clone, Copy, PartialEq, Eq, Structural)]
pub enum Access {
    /// Proceed.
    Granted,
    /// Refuse: the request is not authenticated.
    Unauthorized,
    /// Refuse: the bearer is authenticated but lacks the role.
    Forbidden,
}

/// The access that an operation open to every authenticated bearer grants.
pub open spec fn member_access_of(verdict: Result<Claims, AppError>) -> Access {
    match verdict {
        Ok(_) => Access::Granted,
        Err(_) => Access::Unauthorized,
    }
}

/// The access that an operation reserved to administrators grants.
pub open spec fn admin_access_of(verdict: Result<Claims, AppError>) -> Access {
    match verdict {
        Ok(c) => if c.is_admin {
            Access::Granted
        } else {
            Access::Forbidden
        },
        Err(_) => Access::Unauthorized,
    }
}

/// Decides an operation open to every authenticated bearer.
pub fn member_access(verdict: &Result<Claims, AppError>) -> (r: Access)
    ensures
        r == member_access_of(*verdict),
{
    match verdict {
        Ok(_) => Access::Granted,
        Err(_) => Access::Unauthorized,
    }
}

/// Decides an operation reserved to administrators.
pub fn admin_access(verdict: &Result<Claims, AppError>) -> (r: Access)
    ensures
        r == admin_access_of(*verdict),
{
    match verdict {
        Ok(c) => if c.is_admin {
            Access::Granted
        } else {
            Access::Forbidden
        },
        Err(_) => Access::Unauthorized,
    }
}

} // verus!
