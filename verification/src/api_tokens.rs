//! Personal API tokens: what a new token is refused for, what is stored
//! of it, and what is answered about it.
use vstd::prelude::*;
use crate::crypto::{generate_api_token, hash_token, hex, spec_hash_token};
use crate::clock::now_rfc3339;
use crate::error::ApiError;
use crate::ids::{hyphenated_uuid, new_id};
use crate::text::{owned, str_eq, string_of, trim, trim_str};

verus! {

/// A stored API token.
pub struct ApiToken {
    pub id: String,
    pub name: String,
    pub token_hash: String,
    pub user_id: String,
    pub created_at: String,
    pub last_used_at: Option<String>,
    pub expires_at: Option<String>,
}

/// An API token as answered.
pub struct ApiTokenResponse {
    pub id: String,
    pub name: String,
    pub created_at: String,
    pub last_used_at: Option<String>,
    pub expires_at: Option<String>,
    /// Only populated on creation, never returned again.
    pub token: Option<String>,
}

/// Request body for creating an API token.
pub struct CreateApiTokenRequest {
    pub name: String,
    /// Optional ISO-8601 expiry date.
    pub expires_at: Option<String>,
}

/// A stored token as listed: never with its secret.
pub fn token_response(t: ApiToken) -> (r: ApiTokenResponse)
    ensures
        r.id == t.id,
        r.name == t.name,
        r.created_at == t.created_at,
        r.last_used_at == t.last_used_at,
        r.expires_at == t.expires_at,
        r.token is None,
{
    ApiTokenResponse {
        id: t.id,
        name: t.name,
        created_at: t.created_at,
        last_used_at: t.last_used_at,
        expires_at: t.expires_at,
        token: None,
    }
}

/// Why a token operation is refused for the built-in system user: it has
/// no stored account to hold tokens.
pub fn check_token_owner(user_id: &str, creating: bool) -> (r: Result<(), ApiError>)
    ensures
        r is Err <==> user_id@ == "system"@,
        r matches Err(e) ==> (e matches ApiError::Forbidden(m) && m@ == if creating {
            "Cannot create tokens for the admin API token user"@
        } else {
            "Cannot delete tokens for the admin API token user"@
        }),
{
    if str_eq(user_id, "system") {
        if creating {
            Err(ApiError::Forbidden(owned("Cannot create tokens for the admin API token user")))
        } else {
            Err(ApiError::Forbidden(owned("Cannot delete tokens for the admin API token user")))
        }
    } else {
        Ok(())
    }
}

/// A new token: the stored record (with the hash of the secret) and the
/// answer (with the secret, shown this once).
pub struct NewToken {
    pub record: ApiToken,
    pub response: ApiTokenResponse,
}

/// What a token issued to `user_id` for `req`, under the identifier `id`
/// at time `now`, is: the trimmed name, no last use, the requested expiry,
/// and a fresh `rvt_` secret of 32 random bytes in hexadecimal, answered
/// once and stored only as its hash.
pub open spec fn issued_token(
    t: NewToken,
    user_id: Seq<char>,
    req: CreateApiTokenRequest,
    id: String,
    now: String,
) -> bool {
    &&& t.record.id == id && t.response.id == id
    &&& t.record.name@ == trim(req.name@) && t.response.name@ == trim(req.name@)
    &&& t.record.user_id@ == user_id
    &&& t.record.created_at == now && t.response.created_at == now
    &&& t.record.expires_at == req.expires_at && t.response.expires_at == req.expires_at
    &&& t.record.last_used_at is None && t.response.last_used_at is None
    &&& t.response.token matches Some(p) && t.record.token_hash@ == spec_hash_token(p@) && exists|
        b: Seq<u8>,
    | b.len() == 32 && p@ == "rvt_"@ + hex(b)
}

/// Creates a token for a user under a given identifier and time: refused
/// for the system user and for a name that is blank once trimmed;
/// otherwise a fresh `rvt_` secret is drawn, its SHA-256 hash stored, and
/// the secret answered once.
pub fn create_token_with(user_id: &str, req: CreateApiTokenRequest, id: String, now: String) -> (r: Result<
    NewToken,
    ApiError,
>)
    ensures
        user_id@ == "system"@ ==> (r matches Err(ApiError::Forbidden(m)) && m@
            == "Cannot create tokens for the admin API token user"@),
        user_id@ != "system"@ && trim(req.name@).len() == 0 ==> (r matches Err(
            ApiError::Validation { field, message },
        ) && field@ == "name"@ && message@ == "Token name cannot be empty"@),
        r is Ok <==> user_id@ != "system"@ && trim(req.name@).len() > 0,
        r matches Ok(t) ==> issued_token(t, user_id@, req, id, now),
{
    if str_eq(user_id, "system") {
        return Err(ApiError::Forbidden(owned("Cannot create tokens for the admin API token user")));
    }
    let t = trim_str(req.name.as_str());
    if t.len() == 0 {
        return Err(
            ApiError::Validation {
                field: owned("name"),
                message: owned("Token name cannot be empty"),
            },
        );
    }
    let name = string_of(t.as_slice());
    let plaintext = generate_api_token();
    let token_hash = hash_token(plaintext.as_str());
    let record = ApiToken {
        id: id.clone(),
        name: name.clone(),
        token_hash,
        user_id: owned(user_id),
        created_at: now.clone(),
        last_used_at: None,
        expires_at: req.expires_at.clone(),
    };
    let response = ApiTokenResponse {
        id,
        name,
        created_at: now,
        last_used_at: None,
        expires_at: req.expires_at,
        token: Some(plaintext),
    };
    Ok(NewToken { record, response })
}

/// Creates a token for a user, as `create_token_with` does, under a fresh
/// random identifier (a hyphenated UUID) and the current time.
pub fn create_token(user_id: &str, req: CreateApiTokenRequest) -> (r: Result<NewToken, ApiError>)
    ensures
        user_id@ == "system"@ ==> (r matches Err(ApiError::Forbidden(m)) && m@
            == "Cannot create tokens for the admin API token user"@),
        user_id@ != "system"@ && trim(req.name@).len() == 0 ==> (r matches Err(
            ApiError::Validation { field, message },
        ) && field@ == "name"@ && message@ == "Token name cannot be empty"@),
        r is Ok <==> user_id@ != "system"@ && trim(req.name@).len() > 0,
        r matches Ok(t) ==> issued_token(t, user_id@, req, t.record.id, t.record.created_at)
            && hyphenated_uuid(t.record.id@),
{
    let id = new_id();
    let now = now_rfc3339();
    create_token_with(user_id, req, id, now)
}

} // verus!
