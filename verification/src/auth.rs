//! Authentication: password rules, setup and registration checks, and how
//! a presented token is read from a request and recognized.
use vstd::prelude::*;
use vstd::utf8::encode_utf8;
use crate::crypto::{is_admin_token, hash_token, spec_hash_token};
use crate::text::{
    chars_of, contains_seq, contains_str, find_from, has_prefix, owned, slice_to_vec, split_chars,
    split_on, starts_with, string_of, trim,
};
use crate::unicode::{
    char_is_alphanumeric, char_is_lowercase, char_is_uppercase, is_alnum, is_lower, is_upper,
    lowercase, to_lowercase,
};

verus! {

/// Response for setup status check.
pub struct SetupStatusResponse {
    pub needs_setup: bool,
}

/// Request for initial setup.
pub struct SetupRequest {
    pub email: String,
    pub password: String,
    pub name: String,
}

/// Request to register a new account with a team invitation.
pub struct RegisterWithInvitationRequest {
    pub token: String,
    pub name: String,
    pub password: String,
}

/// A user as shown to clients.
pub struct UserResponse {
    pub id: String,
    pub email: String,
    pub name: String,
    pub role: String,
    pub totp_enabled: bool,
}

/// A team membership together with the member's name and email.
pub struct TeamMemberWithUser {
    pub id: String,
    pub team_id: String,
    pub user_id: String,
    pub role: String,
    pub created_at: String,
    pub user_name: String,
    pub user_email: String,
}

/// Response to a registration with an invitation: the new session token,
/// the new user and the new membership.
pub struct RegisterWithInvitationResponse {
    pub token: String,
    pub user: UserResponse,
    pub member: TeamMemberWithUser,
}

/// Whether setup is still needed: no user exists yet.
pub fn setup_status(user_count: i64) -> (r: SetupStatusResponse)
    ensures
        r.needs_setup == (user_count == 0),
{
    SetupStatusResponse { needs_setup: user_count == 0 }
}

// ---------------------------------------------------------------------------
// Password strength
// ---------------------------------------------------------------------------

/// Passwords that are refused when they occur, in any letter case, inside
/// a password.
pub open spec fn common_passwords() -> Seq<Seq<char>> {
    seq![
        "password123!"@,
        "Password123!"@,
        "Admin123!@#"@,
        "Welcome123!"@,
        "Qwerty123!@#"@,
        "Changeme123!"@,
        "Letmein123!@"@,
        "123456789Ab!"@,
    ]
}

fn common_password(i: usize) -> (r: &'static str)
    requires
        i < 8,
    ensures
        r@ == common_passwords()[i as int],
{
    if i == 0 {
        "password123!"
    } else if i == 1 {
        "Password123!"
    } else if i == 2 {
        "Admin123!@#"
    } else if i == 3 {
        "Welcome123!"
    } else if i == 4 {
        "Qwerty123!@#"
    } else if i == 5 {
        "Changeme123!"
    } else if i == 6 {
        "Letmein123!@"
    } else {
        "123456789Ab!"
    }
}

/// Some character of `p` is uppercase.
pub open spec fn has_upper(p: Seq<char>) -> bool {
    exists|i: int| 0 <= i < p.len() && is_upper(#[trigger] p[i])
}

/// Some character of `p` is lowercase.
pub open spec fn has_lower(p: Seq<char>) -> bool {
    exists|i: int| 0 <= i < p.len() && is_lower(#[trigger] p[i])
}

/// Some character of `p` is an ASCII digit.
pub open spec fn has_digit(p: Seq<char>) -> bool {
    exists|i: int| 0 <= i < p.len() && crate::numbers::is_digit(#[trigger] p[i])
}

/// Some character of `p` is neither a letter nor a digit.
pub open spec fn has_special(p: Seq<char>) -> bool {
    exists|i: int| 0 <= i < p.len() && !is_alnum(#[trigger] p[i])
}

/// The password contains a common password, ignoring letter case.
pub open spec fn is_common(p: Seq<char>) -> bool {
    exists|i: int| 0 <= i < 8 && contains_seq(lowercase(p), lowercase(#[trigger] common_passwords()[i]))
}

/// Why a password is too weak, or `None` when it is strong enough: at
/// least 12 bytes, an uppercase and a lowercase letter, an ASCII digit, a
/// character that is not alphanumeric, and no common password inside.
pub open spec fn spec_password_problem(p: Seq<char>) -> Option<Seq<char>> {
    if encode_utf8(p).len() < 12 {
        Some("Password must be at least 12 characters"@)
    } else if !has_upper(p) {
        Some("Password must contain at least one uppercase letter"@)
    } else if !has_lower(p) {
        Some("Password must contain at least one lowercase letter"@)
    } else if !has_digit(p) {
        Some("Password must contain at least one digit"@)
    } else if !has_special(p) {
        Some("Password must contain at least one special character"@)
    } else if is_common(p) {
        Some("Password is too common. Please choose a stronger password."@)
    } else {
        None
    }
}

/// The classes of characters a password has: uppercase, lowercase, ASCII
/// digit, other than alphanumeric.
fn char_classes(p: &Vec<char>) -> (r: (bool, bool, bool, bool))
    ensures
        r.0 == has_upper(p@),
        r.1 == has_lower(p@),
        r.2 == has_digit(p@),
        r.3 == has_special(p@),
{
    let mut up = false;
    let mut low = false;
    let mut dig = false;
    let mut spec_c = false;
    let mut i: usize = 0;
    while i < p.len()
        invariant
            i <= p.len(),
            up == exists|j: int| 0 <= j < i && is_upper(#[trigger] p@[j]),
            low == exists|j: int| 0 <= j < i && is_lower(#[trigger] p@[j]),
            dig == exists|j: int| 0 <= j < i && crate::numbers::is_digit(#[trigger] p@[j]),
            spec_c == exists|j: int| 0 <= j < i && !is_alnum(#[trigger] p@[j]),
        decreases p.len() - i,
    {
        let c = p[i];
        if char_is_uppercase(c) {
            up = true;
        }
        if char_is_lowercase(c) {
            low = true;
        }
        if '0' <= c && c <= '9' {
            dig = true;
        }
        if !char_is_alphanumeric(c) {
            spec_c = true;
        }
        i = i + 1;
    }
    (up, low, dig, spec_c)
}

/// Validate password strength.
/// Returns None if valid, or Some(error_message) if invalid.
pub fn validate_password_strength(password: &str) -> (r: Option<String>)
    ensures
        match spec_password_problem(password@) {
            Some(m) => r matches Some(x) && x@ == m,
            None => r is None,
        },
{
    if password.as_bytes().len() < 12 {
        return Some(owned("Password must be at least 12 characters"));
    }
    let pv = chars_of(password);
    let (up, low, dig, special) = char_classes(&pv);
    if !up {
        return Some(owned("Password must contain at least one uppercase letter"));
    }
    if !low {
        return Some(owned("Password must contain at least one lowercase letter"));
    }
    if !dig {
        return Some(owned("Password must contain at least one digit"));
    }
    if !special {
        return Some(owned("Password must contain at least one special character"));
    }
    let lower = to_lowercase(password);
    let lv = chars_of(lower.as_str());
    let mut i: usize = 0;
    while i < 8
        invariant
            i <= 8,
            lv@ == lowercase(password@),
            encode_utf8(password@).len() >= 12,
            has_upper(password@),
            has_lower(password@),
            has_digit(password@),
            has_special(password@),
            forall|j: int|
                0 <= j < i ==> !contains_seq(lowercase(password@), lowercase(#[trigger] common_passwords()[j])),
        decreases 8 - i,
    {
        let common = to_lowercase(common_password(i));
        let cv = chars_of(common.as_str());
        if contains_str(lv.as_slice(), cv.as_slice()) {
            assert(contains_seq(lowercase(password@), lowercase(common_passwords()[i as int])));
            return Some(owned("Password is too common. Please choose a stronger password."));
        }
        i = i + 1;
    }
    None
}

/// The common-password check ignores letter case: when a password is
/// refused as too common, no password with the same lower-case form (the
/// same letters up to case) is accepted, and one that passes the other
/// checks is refused as too common as well.
pub proof fn law_common_check_ignores_case(p1: Seq<char>, p2: Seq<char>)
    requires
        lowercase(p1) == lowercase(p2),
        spec_password_problem(p1) == Some("Password is too common. Please choose a stronger password."@),
    ensures
        spec_password_problem(p2) is Some,
        encode_utf8(p2).len() >= 12 && has_upper(p2) && has_lower(p2) && has_digit(p2) && has_special(p2)
            ==> spec_password_problem(p2) == Some(
            "Password is too common. Please choose a stronger password."@,
        ),
{
    reveal_strlit("Password is too common. Please choose a stronger password.");
    reveal_strlit("Password must be at least 12 characters");
    reveal_strlit("Password must contain at least one uppercase letter");
    reveal_strlit("Password must contain at least one lowercase letter");
    reveal_strlit("Password must contain at least one digit");
    reveal_strlit("Password must contain at least one special character");
    let common = "Password is too common. Please choose a stronger password."@;
    assert(common.len() == 58);
    assert("Password must be at least 12 characters"@.len() != common.len());
    assert("Password must contain at least one uppercase letter"@.len() != common.len());
    assert("Password must contain at least one lowercase letter"@.len() != common.len());
    assert("Password must contain at least one digit"@.len() != common.len());
    assert("Password must contain at least one special character"@.len() != common.len());
    assert(is_common(p1));
    let i = choose|i: int| 0 <= i < 8 && contains_seq(lowercase(p1), lowercase(#[trigger] common_passwords()[i]));
    assert(contains_seq(lowercase(p2), lowercase(common_passwords()[i])));
    assert(is_common(p2));
}

// ---------------------------------------------------------------------------
// Setup and registration
// ---------------------------------------------------------------------------

/// Why a setup request is refused, or `None` when it is acceptable: an
/// email with an `@`, a strong password, a name.
pub open spec fn spec_setup_problem(email: Seq<char>, password: Seq<char>, name: Seq<char>) -> Option<
    Seq<char>,
> {
    if email.len() == 0 || !email.contains('@') {
        Some("Invalid email address"@)
    } else if spec_password_problem(password) is Some {
        spec_password_problem(password)
    } else if name.len() == 0 {
        Some("Name is required"@)
    } else {
        None
    }
}

/// Checks the input of the initial setup; a refusal is a 400 with its
/// reason.
pub fn validate_setup_request(req: &SetupRequest) -> (r: Result<(), (u16, String)>)
    ensures
        match spec_setup_problem(req.email@, req.password@, req.name@) {
            Some(m) => r matches Err((code, x)) && code == 400 && x@ == m,
            None => r is Ok,
        },
{
    let ev = chars_of(req.email.as_str());
    if ev.len() == 0 || !crate::text::contains_char(ev.as_slice(), '@') {
        return Err((400, owned("Invalid email address")));
    }
    if let Some(error) = validate_password_strength(req.password.as_str()) {
        return Err((400, error));
    }
    if req.name.as_str().is_empty() {
        return Err((400, owned("Name is required")));
    }
    Ok(())
}

/// Whether setup may go ahead, given the number of users already stored:
/// refused (403) once any user exists, whatever the request; otherwise
/// refused (400) exactly when the request is, as `validate_setup_request`
/// says.
pub fn check_setup(user_count: i64, req: &SetupRequest) -> (r: Result<(), (u16, String)>)
    ensures
        user_count > 0 ==> (r matches Err((code, m)) && code == 403 && m@
            == "Setup has already been completed"@),
        user_count <= 0 ==> match spec_setup_problem(req.email@, req.password@, req.name@) {
            Some(m) => r matches Err((code, x)) && code == 400 && x@ == m,
            None => r is Ok,
        },
{
    if user_count > 0 {
        return Err((403, owned("Setup has already been completed")));
    }
    validate_setup_request(req)
}

/// Why a registration with an invitation is refused, with its status: the
/// invitation must be unused (410) and unexpired (410), the name must not
/// be blank (400) and the password strong (400).
pub open spec fn spec_registration_problem(
    accepted: bool,
    expired: bool,
    name: Seq<char>,
    password: Seq<char>,
) -> Option<(u16, Seq<char>)> {
    if accepted {
        Some((410, "This invitation has already been accepted"@))
    } else if expired {
        Some((410, "This invitation has expired"@))
    } else if trim(name).len() == 0 {
        Some((400, "Name is required"@))
    } else if spec_password_problem(password) is Some {
        Some((400, spec_password_problem(password)->0))
    } else {
        None
    }
}

/// Checks a registration with an invitation, given whether the invitation
/// was already accepted and whether it has expired.
pub fn validate_registration(
    accepted: bool,
    expired: bool,
    req: &RegisterWithInvitationRequest,
) -> (r: Result<(), (u16, String)>)
    ensures
        match spec_registration_problem(accepted, expired, req.name@, req.password@) {
            Some((code, m)) => r matches Err((c, x)) && c == code && x@ == m,
            None => r is Ok,
        },
{
    if accepted {
        return Err((410, owned("This invitation has already been accepted")));
    }
    if expired {
        return Err((410, owned("This invitation has expired")));
    }
    let name = crate::text::trim_str(req.name.as_str());
    if name.len() == 0 {
        return Err((400, owned("Name is required")));
    }
    if let Some(err) = validate_password_strength(req.password.as_str()) {
        return Err((400, err));
    }
    Ok(())
}

// ---------------------------------------------------------------------------
// Reading the presented token
// ---------------------------------------------------------------------------

/// An optional string slice as plain characters.
pub open spec fn opt_str(s: Option<&str>) -> Option<Seq<char>> {
    match s {
        Some(x) => Some(x@),
        None => None,
    }
}

/// `h` without a leading `Bearer `, when it has one.
pub open spec fn after_bearer(h: Seq<char>) -> Option<Seq<char>> {
    if has_prefix(h, "Bearer "@) {
        Some(h.skip("Bearer "@.len() as int))
    } else {
        None
    }
}

fn strip_bearer(h: &str) -> (r: Option<String>)
    ensures
        match after_bearer(h@) {
            Some(t) => r matches Some(x) && x@ == t,
            None => r is None,
        },
{
    let hv = chars_of(h);
    let p = chars_of("Bearer ");
    if starts_with(hv.as_slice(), p.as_slice()) {
        let rest = slice_to_vec(hv.as_slice(), p.len(), hv.len());
        Some(string_of(rest.as_slice()))
    } else {
        None
    }
}

/// The token an API call presents: a `Bearer` token in the
/// `Authorization` header, else the `X-API-Key` header.
pub open spec fn spec_extract_token(authorization: Option<Seq<char>>, api_key: Option<Seq<char>>) -> Option<
    Seq<char>,
> {
    match authorization {
        Some(h) => match after_bearer(h) {
            Some(t) => Some(t),
            None => api_key,
        },
        None => api_key,
    }
}

/// Extract the token from the request's `Authorization` and `X-API-Key`
/// header values (each absent when missing or not visible ASCII).
pub fn extract_token(authorization: Option<&str>, api_key: Option<&str>) -> (r: Option<String>)
    ensures
        match spec_extract_token(opt_str(authorization), opt_str(api_key)) {
            Some(t) => r matches Some(x) && x@ == t,
            None => r is None,
        },
{
    if let Some(h) = authorization {
        if let Some(t) = strip_bearer(h) {
            return Some(t);
        }
    }
    match api_key {
        Some(k) => Some(owned(k)),
        None => None,
    }
}

/// The token of the `Authorization` header when it is a `Bearer` token.
pub fn bearer_token(authorization: Option<&str>) -> (r: Option<String>)
    ensures
        match authorization {
            Some(h) => match after_bearer(h@) {
                Some(t) => r matches Some(x) && x@ == t,
                None => r is None,
            },
            None => r is None,
        },
{
    match authorization {
        Some(h) => strip_bearer(h),
        None => None,
    }
}

/// The value of the first `token=` pair of a query string: pairs are
/// separated by `&`, and a pair's key is what comes before its first `=`.
pub open spec fn first_token_param(pairs: Seq<Seq<char>>) -> Option<Seq<char>>
    decreases pairs.len(),
{
    if pairs.len() == 0 {
        None
    } else {
        let p = pairs[0];
        match find_from(p, '=', 0) {
            Some(i) => if p.take(i) == "token"@ {
                Some(p.skip(i + 1))
            } else {
                first_token_param(pairs.drop_first())
            },
            None => first_token_param(pairs.drop_first()),
        }
    }
}

/// The `token` parameter of a query string, if any.
pub open spec fn spec_query_token(q: Seq<char>) -> Option<Seq<char>> {
    first_token_param(split_on(q, '&'))
}

fn find_char(s: &[char], c: char) -> (r: Option<usize>)
    ensures
        match r {
            Some(e) => e < s.len() && find_from(s@, c, 0) == Some(e as int),
            None => find_from(s@, c, 0) is None,
        },
{
    let mut i: usize = 0;
    while i < s.len()
        invariant
            i <= s.len(),
            find_from(s@, c, 0) == find_from(s@, c, i as int),
        decreases s.len() - i,
    {
        if s[i] == c {
            return Some(i);
        }
        i = i + 1;
    }
    None
}

/// The `token` parameter of a query string, if any.
pub fn query_token(q: &str) -> (r: Option<String>)
    ensures
        match spec_query_token(q@) {
            Some(t) => r matches Some(x) && x@ == t,
            None => r is None,
        },
{
    let qv = chars_of(q);
    let pairs = split_chars(qv.as_slice(), '&');
    let ghost pv = pairs@.map_values(|v: Vec<char>| v@);
    let key = chars_of("token");
    let mut i: usize = 0;
    assert(pv.skip(0) =~= pv);
    while i < pairs.len()
        invariant
            i <= pairs.len(),
            pv == pairs@.map_values(|v: Vec<char>| v@),
            pv == split_on(q@, '&'),
            key@ == "token"@,
            first_token_param(pv) == first_token_param(pv.skip(i as int)),
        decreases pairs.len() - i,
    {
        let p = &pairs[i];
        proof {
            assert(pv.skip(i as int)[0] == p@);
            assert(pv.skip(i as int).drop_first() =~= pv.skip(i + 1));
        }
        match find_char(p.as_slice(), '=') {
            Some(e) => {
                let k = slice_to_vec(p.as_slice(), 0, e);
                proof {
                    assert(k@ =~= p@.take(e as int));
                }
                if crate::text::seq_eq(k.as_slice(), key.as_slice()) {
                    let v = slice_to_vec(p.as_slice(), e + 1, p.len());
                    proof {
                        assert(v@ =~= p@.skip(e + 1));
                    }
                    return Some(string_of(v.as_slice()));
                }
            },
            None => {},
        }
        i = i + 1;
    }
    proof {
        assert(pv.skip(i as int).len() == 0);
    }
    None
}

/// The token a request presents to the authentication middleware: the
/// `Authorization` header (without a leading `Bearer `), else the
/// `X-API-Key` header, else the `token` query parameter (for event streams,
/// which cannot set headers).
pub open spec fn spec_request_token(
    authorization: Option<Seq<char>>,
    api_key: Option<Seq<char>>,
    query: Option<Seq<char>>,
) -> Option<Seq<char>> {
    match authorization {
        Some(h) => match after_bearer(h) {
            Some(t) => Some(t),
            None => Some(h),
        },
        None => match api_key {
            Some(k) => Some(k),
            None => match query {
                Some(q) => spec_query_token(q),
                None => None,
            },
        },
    }
}

/// Extract the token from a request the way the authentication middleware
/// does: `Authorization`, `X-API-Key`, or a `?token=` query parameter.
pub fn extract_request_token(authorization: Option<&str>, api_key: Option<&str>, query: Option<&str>) -> (r:
    Option<String>)
    ensures
        match spec_request_token(opt_str(authorization), opt_str(api_key), opt_str(query)) {
            Some(t) => r matches Some(x) && x@ == t,
            None => r is None,
        },
{
    if let Some(h) = authorization {
        return match strip_bearer(h) {
            Some(t) => Some(t),
            None => Some(owned(h)),
        };
    }
    if let Some(k) = api_key {
        return Some(owned(k));
    }
    match query {
        Some(q) => query_token(q),
        None => None,
    }
}

// ---------------------------------------------------------------------------
// Recognizing the token
// ---------------------------------------------------------------------------

/// How a presented token is checked.
pub enum TokenCheck {
    /// It is the configured admin token.
    Admin,
    /// A user API token (`rvt_` prefix): look up this hash among API tokens.
    ApiToken(String),
    /// Otherwise a session token: look up this hash among sessions.
    Session(String),
}

/// How a presented token is checked: the admin token is accepted at once;
/// other tokens are looked up by their stored hash, among API tokens when
/// they start with `rvt_` and among sessions otherwise.
pub fn classify_token(admin_token: &str, token: &str) -> (r: TokenCheck)
    ensures
        admin_token@ == token@ ==> r is Admin,
        admin_token@ != token@ && has_prefix(token@, "rvt_"@) ==> (r matches TokenCheck::ApiToken(h)
            && h@ == spec_hash_token(token@)),
        admin_token@ != token@ && !has_prefix(token@, "rvt_"@) ==> (r matches TokenCheck::Session(h)
            && h@ == spec_hash_token(token@)),
{
    if is_admin_token(admin_token, token) {
        return TokenCheck::Admin;
    }
    let h = hash_token(token);
    let tv = chars_of(token);
    let p = chars_of("rvt_");
    if starts_with(tv.as_slice(), p.as_slice()) {
        TokenCheck::ApiToken(h)
    } else {
        TokenCheck::Session(h)
    }
}

/// What a login leads to.
pub enum LoginStep {
    /// The password is right and two-factor authentication is on: a
    /// short-lived session for the second factor is opened.
    SecondFactor { session_minutes: u32 },
    /// The password is right: a session is opened.
    Session { session_minutes: u32 },
}

/// Decides a login from whether the user exists, whether the password
/// verified and whether two-factor authentication is on. Unknown users and
/// wrong passwords get the same answer, so that a caller cannot tell them
/// apart.
pub fn login_step(user_found: bool, password_ok: bool, totp_enabled: bool) -> (r: Result<LoginStep, (u16, String)>)
    ensures
        !(user_found && password_ok) ==> (r matches Err((c, m)) && c == 401 && m@ == "Invalid credentials"@),
        user_found && password_ok && totp_enabled ==> r == Ok::<LoginStep, (u16, String)>(
            LoginStep::SecondFactor { session_minutes: 5 },
        ),
        user_found && password_ok && !totp_enabled ==> r == Ok::<LoginStep, (u16, String)>(
            LoginStep::Session { session_minutes: 10080 },
        ),
{
    if !user_found || !password_ok {
        return Err((401, owned("Invalid credentials")));
    }
    if totp_enabled {
        Ok(LoginStep::SecondFactor { session_minutes: 5 })
    } else {
        Ok(LoginStep::Session { session_minutes: 10080 })
    }
}

} // verus!
