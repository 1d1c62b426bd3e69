//! HTTP basic authentication in front of an app: which credentials are
//! accepted when it is enabled, and what is stored and answered.
use vstd::prelude::*;
use crate::crypto::{argon2_verifies, hash_password};
use crate::error::ApiError;
use crate::text::{chars_of, owned, push_str, utf8_len, utf8_len_exceeds};
use crate::unicode::{char_is_alphanumeric, is_alnum};

verus! {

/// Basic auth settings of an app as answered.
pub struct BasicAuthStatusResponse {
    pub enabled: bool,
    pub username: Option<String>,
}

/// Request body for changing basic auth settings.
pub struct UpdateBasicAuthRequest {
    pub enabled: bool,
    pub username: Option<String>,
    pub password: Option<String>,
}

/// A character allowed in a basic auth user name.
pub open spec fn username_char(c: char) -> bool {
    is_alnum(c) || c == '_' || c == '-'
}

/// The text of an optional field, empty when absent.
pub open spec fn or_empty(s: Option<String>) -> Seq<char> {
    match s {
        Some(x) => x@,
        None => seq![],
    }
}

/// Why enabling basic auth is refused, if it is: `(field, message)`. The
/// user name must be 3 to 64 bytes of letters, digits, `_` and `-`; the
/// password at least 8 bytes. Disabling is never refused.
pub open spec fn spec_basic_auth_problem(req: UpdateBasicAuthRequest) -> Option<(Seq<char>, Seq<char>)> {
    let u = or_empty(req.username);
    let p = or_empty(req.password);
    if !req.enabled {
        None
    } else if u.len() == 0 {
        Some(("username"@, "Username is required when enabling basic auth"@))
    } else if utf8_len(u) < 3 {
        Some(("username"@, "Username must be at least 3 characters"@))
    } else if utf8_len(u) > 64 {
        Some(("username"@, "Username must be at most 64 characters"@))
    } else if !(forall|i: int| 0 <= i < u.len() ==> username_char(#[trigger] u[i])) {
        Some(("username"@, "Username can only contain letters, numbers, underscores, and dashes"@))
    } else if p.len() == 0 {
        Some(("password"@, "Password is required when enabling basic auth"@))
    } else if utf8_len(p) < 8 {
        Some(("password"@, "Password must be at least 8 characters"@))
    } else {
        None
    }
}

fn username_chars_ok(u: &str) -> (r: bool)
    ensures
        r == (forall|i: int| 0 <= i < u@.len() ==> username_char(#[trigger] u@[i])),
{
    let v = chars_of(u);
    let mut i: usize = 0;
    while i < v.len()
        invariant
            v@ == u@,
            i <= v@.len(),
            forall|j: int| 0 <= j < i ==> username_char(#[trigger] u@[j]),
        decreases v.len() - i,
    {
        let c = v[i];
        if !(char_is_alphanumeric(c) || c == '_' || c == '-') {
            assert(!username_char(u@[i as int]));
            return false;
        }
        i = i + 1;
    }
    true
}

/// Checks the credentials given when basic auth is enabled.
pub fn validate_basic_auth(req: &UpdateBasicAuthRequest) -> (r: Result<(), ApiError>)
    ensures
        match spec_basic_auth_problem(*req) {
            Some((f, m)) => r matches Err(ApiError::Validation { field, message }) && field@ == f
                && message@ == m,
            None => r is Ok,
        },
{
    if !req.enabled {
        return Ok(());
    }
    let empty = String::new();
    let u: &String = match &req.username {
        Some(x) => x,
        None => &empty,
    };
    let p: &String = match &req.password {
        Some(x) => x,
        None => &empty,
    };
    if u.as_str().is_empty() {
        return Err(
            ApiError::Validation {
                field: owned("username"),
                message: owned("Username is required when enabling basic auth"),
            },
        );
    }
    if !utf8_len_exceeds(u.as_str(), 2) {
        return Err(
            ApiError::Validation {
                field: owned("username"),
                message: owned("Username must be at least 3 characters"),
            },
        );
    }
    if utf8_len_exceeds(u.as_str(), 64) {
        return Err(
            ApiError::Validation {
                field: owned("username"),
                message: owned("Username must be at most 64 characters"),
            },
        );
    }
    if !username_chars_ok(u.as_str()) {
        return Err(
            ApiError::Validation {
                field: owned("username"),
                message: owned("Username can only contain letters, numbers, underscores, and dashes"),
            },
        );
    }
    if p.as_str().is_empty() {
        return Err(
            ApiError::Validation {
                field: owned("password"),
                message: owned("Password is required when enabling basic auth"),
            },
        );
    }
    if !utf8_len_exceeds(p.as_str(), 7) {
        return Err(
            ApiError::Validation {
                field: owned("password"),
                message: owned("Password must be at least 8 characters"),
            },
        );
    }
    Ok(())
}

/// The basic auth settings stored for an app.
pub struct BasicAuthSettings {
    pub enabled: bool,
    pub username: Option<String>,
    pub password_hash: Option<String>,
}

/// Applies a basic auth change: enabling stores the user name and an
/// Argon2 hash of the password (a failure to hash is an internal error);
/// disabling clears both. The answer shows whether basic auth is on and
/// under which user name, never the password.
pub fn update_basic_auth(req: UpdateBasicAuthRequest) -> (r: Result<
    (BasicAuthSettings, BasicAuthStatusResponse),
    ApiError,
>)
    ensures
        spec_basic_auth_problem(req) matches Some((f, m)) ==> (r matches Err(
            ApiError::Validation { field, message },
        ) && field@ == f && message@ == m),
        r matches Ok((s, a)) ==> {
            &&& spec_basic_auth_problem(req) is None
            &&& s.enabled == req.enabled && a.enabled == req.enabled
            &&& req.enabled ==> (s.username == req.username && a.username == req.username
                && (s.password_hash matches Some(h) && argon2_verifies(or_empty(req.password), h@)))
            &&& !req.enabled ==> s.username is None && s.password_hash is None && a.username is None
        },
        r matches Err(e) ==> spec_basic_auth_problem(req) is Some || (req.enabled && e is Internal),
        !req.enabled ==> r is Ok,
{
    validate_basic_auth(&req)?;
    if req.enabled {
        let pw = match &req.password {
            Some(p) => p.clone(),
            None => String::new(),
        };
        let hash = match hash_password(pw.as_str()) {
            Ok(h) => h,
            Err(e) => {
                let mut m = owned("Failed to hash password: ");
                push_str(&mut m, e.as_str());
                return Err(ApiError::Internal(m));
            },
        };
        let username = req.username.clone();
        Ok(
            (
                BasicAuthSettings { enabled: true, username, password_hash: Some(hash) },
                BasicAuthStatusResponse { enabled: true, username: req.username },
            ),
        )
    } else {
        Ok(
            (
                BasicAuthSettings { enabled: false, username: None, password_hash: None },
                BasicAuthStatusResponse { enabled: false, username: None },
            ),
        )
    }
}

} // verus!
