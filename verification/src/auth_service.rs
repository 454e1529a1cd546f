//! Authentication: the claims a token carries, and the checks of logging
//! in, refreshing a token and updating a profile.
use vstd::prelude::*;

use crate::auth::UserRole;
use crate::error::{AppError, ErrorKind};
use crate::language::{language_of, normalize_or_default, normalized};
use crate::text::{chars_of, trim, trim_chars};

verus! {

/// Whether a token grants access or serves to obtain new tokens.
#[derive(Clone, Copy, Debug, PartialEq, Eq, Structural)]
pub enum TokenType {
    Access,
    Refresh,
}

/// What a token states: the user (`sub`), their email and role, the kind
/// of token, and when it expires and was issued (seconds since the epoch).
pub struct Claims {
    pub sub: String,
    pub email: String,
    pub role: UserRole,
    pub token_type: TokenType,
    pub exp: usize,
    pub iat: usize,
}

/// The two tokens handed out at login and on refresh.
pub struct TokenPair {
    pub access_token: String,
    pub refresh_token: String,
}

/// The current user as the application shows them.
pub struct AuthUser {
    pub id: String,
    pub email: String,
    pub full_name: String,
    pub language: String,
    pub avatar_url: Option<String>,
    pub role: String,
    pub permissions: String,
}

/// The authentication service: the decisions of login, refresh and
/// profile updates.
pub struct AuthService;

impl Claims {
    /// The claims of a token of kind `token_type` for a user, issued at
    /// `now` and valid for `expires_secs` seconds.
    pub fn issue(
        user_id: &str,
        email: &str,
        role: UserRole,
        token_type: TokenType,
        now: usize,
        expires_secs: usize,
    ) -> (r: Claims)
        requires
            now + expires_secs <= usize::MAX,
        ensures
            r.sub@ == user_id@,
            r.email@ == email@,
            r.role == role,
            r.token_type == token_type,
            r.iat == now,
            r.exp == now + expires_secs,
    {
        Claims {
            sub: user_id.to_owned(),
            email: email.to_owned(),
            role,
            token_type,
            exp: now + expires_secs,
            iat: now,
        }
    }
}

/// The name that a profile update keeps: the new one where it is not
/// blank.
pub open spec fn kept_name(full_name: Option<Seq<char>>) -> Option<Seq<char>> {
    match full_name {
        Some(n) => if trim(n).len() > 0 {
            Some(n)
        } else {
            None
        },
        None => None,
    }
}

/// The language stored for a requested one: its normalised code, else
/// English.
pub open spec fn stored_language(language: Seq<char>) -> Seq<char> {
    match normalized(Some(language)) {
        Some(code) => code,
        None => match language_of("en"@) {
            Some(code) => code,
            None => "en"@,
        },
    }
}

impl AuthService {
    /// The check on the user found by email at login: none found, or a
    /// disabled account, is refused.
    pub fn check_login_user(is_active: Option<bool>) -> (r: Result<(), AppError>)
        ensures
            match is_active {
                None => r matches Err(e) && e.kind_and_message() == (
                    ErrorKind::Unauthorized,
                    "Invalid credentials"@,
                ),
                Some(false) => r matches Err(e) && e.kind_and_message() == (
                    ErrorKind::Unauthorized,
                    "Account is disabled"@,
                ),
                Some(true) => r is Ok,
            },
    {
        match is_active {
            None => Err(AppError::Unauthorized("Invalid credentials".to_owned())),
            Some(false) => Err(AppError::Unauthorized("Account is disabled".to_owned())),
            Some(true) => Ok(()),
        }
    }

    /// The check on the password: a wrong one is refused with the same
    /// answer as an unknown email.
    pub fn check_password(valid: bool) -> (r: Result<(), AppError>)
        ensures
            valid ==> r is Ok,
            !valid ==> (r matches Err(e) && e.kind_and_message() == (
                ErrorKind::Unauthorized,
                "Invalid credentials"@,
            )),
    {
        if valid {
            Ok(())
        } else {
            Err(AppError::Unauthorized("Invalid credentials".to_owned()))
        }
    }

    /// Only a refresh token may be used to refresh.
    pub fn check_refresh_claims(claims: &Claims) -> (r: Result<(), AppError>)
        ensures
            claims.token_type == TokenType::Refresh ==> r is Ok,
            claims.token_type != TokenType::Refresh ==> (r matches Err(e) && e.kind_and_message()
                == (ErrorKind::Unauthorized, "Invalid token type"@)),
    {
        match claims.token_type {
            TokenType::Refresh => Ok(()),
            TokenType::Access => Err(AppError::Unauthorized("Invalid token type".to_owned())),
        }
    }

    /// The check on the user named by a refresh token: a user no longer
    /// found, or a disabled account, is refused.
    pub fn check_refresh_user(is_active: Option<bool>) -> (r: Result<(), AppError>)
        ensures
            match is_active {
                None => r matches Err(e) && e.kind_and_message() == (
                    ErrorKind::Unauthorized,
                    "User not found"@,
                ),
                Some(false) => r matches Err(e) && e.kind_and_message() == (
                    ErrorKind::Unauthorized,
                    "Account is disabled"@,
                ),
                Some(true) => r is Ok,
            },
    {
        match is_active {
            None => Err(AppError::Unauthorized("User not found".to_owned())),
            Some(false) => Err(AppError::Unauthorized("Account is disabled".to_owned())),
            Some(true) => Ok(()),
        }
    }

    /// The language stored when a user picks `language`.
    pub fn language_setting(language: &str) -> (r: String)
        ensures
            r@ == stored_language(language@),
    {
        normalize_or_default(Some(language), "en")
    }

    /// What a profile update changes: the full name where a non-blank one
    /// is given, and the language (normalised) where one is given.
    pub fn profile_changes(full_name: Option<String>, language: Option<String>) -> (r: (
        Option<String>,
        Option<String>,
    ))
        ensures
            crate::accounts_csv::opt_view(r.0) == kept_name(crate::accounts_csv::opt_view(full_name)),
            match language {
                Some(l) => r.1 matches Some(s) && s@ == stored_language(l@),
                None => r.1 is None,
            },
    {
        let name = match full_name {
            Some(n) => {
                let t = trim_chars(&chars_of(n.as_str()));
                if t.len() > 0 {
                    Some(n)
                } else {
                    None
                }
            },
            None => None,
        };
        let lang = match language {
            Some(l) => Some(Self::language_setting(l.as_str())),
            None => None,
        };
        (name, lang)
    }
}

} // verus!
