//! The registration and login use cases. The user store stays outside: the
//! caller runs the lookup and the insert, and hands their outcome in.

use vstd::prelude::*;
use crate::claims::{encode_claims, jwt_signed, Claims};
use crate::password::{decrypt_password, encrypt_password, opened_password, sealed_password, DecryptError,
    IV_LEN};
use crate::secret::{get_secret_key, opt_view, resolved_secret, ConfigError};
use crate::text::matches_word;
use crate::token::opt_string_view;
use vstd::string::StrSliceExecFns;

verus! {

/// A user record, as submitted and as stored; `password` holds the sealed
/// password once stored.
#[derive(Debug, Clone)]
pub struct User {
    pub username: Option<String>,
    pub email: Option<String>,
    pub password: String,
    pub profile_pic: Option<String>,
    pub is_admin: Option<bool>,
}

/// A field that the caller must supply and did not.
#[derive(Debug, Clone, Copy, PartialEq, Eq, Structural)]
pub enum MissingField {
    /// The password is empty.
    Password,
    /// Neither email nor username is given.
    Identifier,
}

/// Why registration or login failed.
#[derive(Debug, Clone, PartialEq, Eq)]
pub enum CredentialError {
    /// The request lacks a required field.
    Validation(MissingField),
    /// Unknown user or wrong password; the two are not told apart.
    InvalidCredentials,
    /// The secret material could not be resolved.
    Config(ConfigError),
    /// The user store failed, with its message.
    Persistence(String),
}

/// How the user store is searched at login.
#[derive(Debug, Clone, PartialEq, Eq)]
pub enum UserFilter {
    ByEmail(String),
    ByUsername(String),
}

/// The view of a filter: whether it is by email, and the value sought.
pub open spec fn filter_view(f: UserFilter) -> (bool, Seq<char>) {
    match f {
        UserFilter::ByEmail(e) => (true, e@),
        UserFilter::ByUsername(u) => (false, u@),
    }
}

/// The lookup that a login request asks for, or the field it lacks.
pub open spec fn login_filter_of(u: User) -> Result<(bool, Seq<char>), MissingField> {
    if u.password@.len() == 0 {
        Err(MissingField::Password)
    } else {
        match u.email {
            Some(e) => Ok((true, e@)),
            None => match u.username {
                Some(n) => Ok((false, n@)),
                None => Err(MissingField::Identifier),
            },
        }
    }
}

/// The subject that a stored user's token names: the email, or empty.
pub open spec fn subject_of(u: User) -> Seq<char> {
    match u.email {
        Some(e) => e@,
        None => Seq::empty(),
    }
}

/// The admin flag that a stored user's token carries: unset counts as not.
pub open spec fn admin_of(u: User) -> bool {
    match u.is_admin {
        Some(a) => a,
        None => false,
    }
}

fn copy_text(s: &Option<String>) -> (r: Option<String>)
    ensures
        opt_string_view(r) == opt_string_view(*s),
{
    match s {
        Some(t) => Some(t.clone()),
        None => None,
    }
}

/// Builds the record to store for a registration: the password sealed with
/// the configured secret and `iv`, the other fields as submitted, and the
/// admin flag cleared, whatever was asked for.
pub fn register_user(user_info: &User, secret_config: Option<&str>, iv: &[u8]) -> (r: Result<User, CredentialError>)
    requires
        iv@.len() == IV_LEN,
    ensures
        user_info.password@.len() == 0 ==> r == Err::<User, CredentialError>(
            CredentialError::Validation(MissingField::Password),
        ),
        user_info.password@.len() > 0 ==> match resolved_secret(opt_view(secret_config)) {
            Ok(k) => r matches Ok(u) && u.password@ == sealed_password(k, iv@, user_info.password@)
                && opt_string_view(u.username) == opt_string_view(user_info.username)
                && opt_string_view(u.email) == opt_string_view(user_info.email)
                && opt_string_view(u.profile_pic) == opt_string_view(user_info.profile_pic)
                && u.is_admin == Some(false),
            Err(e) => r == Err::<User, CredentialError>(CredentialError::Config(e)),
        },
{
    if user_info.password.as_str().is_empty() {
        return Err(CredentialError::Validation(MissingField::Password));
    }
    let sealed = match encrypt_password(user_info.password.as_str(), secret_config, iv) {
        Ok(t) => t,
        Err(e) => return Err(CredentialError::Config(e)),
    };
    Ok(User {
        username: copy_text(&user_info.username),
        email: copy_text(&user_info.email),
        password: sealed,
        profile_pic: copy_text(&user_info.profile_pic),
        is_admin: Some(false),
    })
}

/// The lookup that a login request asks for: by email where one is given,
/// else by username. An empty password is refused first.
pub fn login_filter(user_info: &User) -> (r: Result<UserFilter, CredentialError>)
    ensures
        match login_filter_of(*user_info) {
            Ok(f) => r matches Ok(g) && filter_view(g) == f,
            Err(m) => r == Err::<UserFilter, CredentialError>(CredentialError::Validation(m)),
        },
{
    if user_info.password.as_str().is_empty() {
        return Err(CredentialError::Validation(MissingField::Password));
    }
    match &user_info.email {
        Some(e) => Ok(UserFilter::ByEmail(e.clone())),
        None => match &user_info.username {
            Some(n) => Ok(UserFilter::ByUsername(n.clone())),
            None => Err(CredentialError::Validation(MissingField::Identifier)),
        },
    }
}

/// Whether opening the stored password gave the submitted one.
pub open spec fn opened_matches(opened: Result<String, DecryptError>, submitted: Seq<char>) -> bool {
    match opened {
        Ok(s) => s@ == submitted,
        Err(_) => false,
    }
}

/// The claims that a login earns, given what opening the stored user's
/// password gave: the user's email and admin flag, and the expiry granted,
/// where it gave the submitted password; otherwise the credentials are
/// refused, without telling why.
pub fn session_claims(
    stored: &User,
    opened: &Result<String, DecryptError>,
    submitted_password: &str,
    expires_at: u64,
) -> (r: Result<Claims, CredentialError>)
    ensures
        opened_matches(*opened, submitted_password@) ==> (r matches Ok(c) && c.sub@ == subject_of(*stored)
            && c.exp == expires_at && c.is_admin == admin_of(*stored)),
        !opened_matches(*opened, submitted_password@) ==> r == Err::<Claims, CredentialError>(
            CredentialError::InvalidCredentials,
        ),
{
    let same = match opened {
        Ok(p) => {
            let n = p.as_str().unicode_len();
            proof {
                assert(p@.subrange(0, n as int) =~= p@);
            }
            matches_word(p.as_str(), 0, n, submitted_password)
        },
        Err(_) => false,
    };
    if !same {
        return Err(CredentialError::InvalidCredentials);
    }
    let sub = match &stored.email {
        Some(e) => e.clone(),
        None => String::new(),
    };
    let is_admin = match stored.is_admin {
        Some(a) => a,
        None => false,
    };
    Ok(Claims { sub, exp: expires_at, is_admin })
}

/// Decides a login from the submitted record, the outcome of the user-store
/// lookup that [`login_filter`] asked for (`Err` with the store's message),
/// the configured secret, and the expiry to grant. Returns the signed token.
pub fn login_user(
    user_info: &User,
    found: Result<Option<User>, String>,
    secret_config: Option<&str>,
    expires_at: u64,
) -> (r: Result<String, CredentialError>)
    ensures
        login_filter_of(*user_info) matches Err(m) ==> r == Err::<String, CredentialError>(
            CredentialError::Validation(m),
        ),
        login_filter_of(*user_info) is Ok ==> (found matches Err(msg)
            ==> r matches Err(CredentialError::Persistence(m2)) && m2@ == msg@),
        login_filter_of(*user_info) is Ok ==> (found == Ok::<Option<User>, String>(None)
            ==> r == Err::<String, CredentialError>(CredentialError::InvalidCredentials)),
        login_filter_of(*user_info) is Ok ==> (found matches Ok(Some(u)) ==> match resolved_secret(
            opt_view(secret_config),
        ) {
            Err(e) => r == Err::<String, CredentialError>(CredentialError::Config(e)),
            Ok(k) => if opened_password(k, u.password@) == Some(user_info.password@) {
                r matches Ok(t) && t@ == jwt_signed(subject_of(u), expires_at, admin_of(u), k)
            } else {
                r == Err::<String, CredentialError>(CredentialError::InvalidCredentials)
            },
        }),
        login_filter_of(*user_info) is Ok ==> (found matches Ok(Some(u)) ==> (resolved_secret(
            opt_view(secret_config),
        ) matches Ok(k) ==> forall|iv: Seq<u8>, p: Seq<char>|
            iv.len() == IV_LEN && u.password@ == #[trigger] sealed_password(k, iv, p) ==> if p
                == user_info.password@ {
                r matches Ok(t) && t@ == jwt_signed(subject_of(u), expires_at, admin_of(u), k)
            } else {
                r == Err::<String, CredentialError>(CredentialError::InvalidCredentials)
            })),
{
    match login_filter(user_info) {
        Ok(_) => {},
        Err(e) => return Err(e),
    }
    let stored = match found {
        Ok(Some(u)) => u,
        Ok(None) => return Err(CredentialError::InvalidCredentials),
        Err(msg) => return Err(CredentialError::Persistence(msg)),
    };
    let key = match get_secret_key(secret_config) {
        Ok(k) => k,
        Err(e) => return Err(CredentialError::Config(e)),
    };
    let opened = decrypt_password(stored.password.as_str(), &key);
    let claims = match session_claims(&stored, &opened, user_info.password.as_str(), expires_at) {
        Ok(c) => c,
        Err(e) => return Err(e),
    };
    Ok(encode_claims(&claims, &key))
}

} // verus!
