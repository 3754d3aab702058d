//! Accounts: who the caller is, signing up, logging in, and the profile.

use vstd::prelude::*;
use crate::error::{
    database_error_message, database_failure, fail, found_or, is_failure, written_or, ApiError, DbError, ErrorKind,
};
use crate::ids::Id;
use crate::jwt::{
    bcrypt_verdict, create_access_token, create_refresh_token, hash_password, issued_token, verify_password,
    verify_token, all_present, token_claims, Claims, PasswordError, TokenError, TokenKind,
};
use crate::time::{Timestamp, LATEST_MICROS};
use crate::state::{notice, Notice};
use crate::text::{owned, strip_prefix, text_eq};

verus! {

/// A request to open an account.
#[derive(Clone, Debug, PartialEq, Eq)]
pub struct SignupRequest {
    pub email: String,
    pub password: String,
    pub first_name: String,
    pub last_name: String,
}

/// A request to log in.
#[derive(Clone, Debug, PartialEq, Eq)]
pub struct LoginRequest {
    pub email: String,
    pub password: String,
}

/// The tokens of a session and the user that it belongs to.
#[derive(Clone, Debug, PartialEq, Eq)]
pub struct AuthResponse {
    pub access_token: String,
    pub refresh_token: String,
    pub user: UserResponse,
}

/// What a session shows of its user.
#[derive(Clone, Debug, PartialEq, Eq)]
pub struct UserResponse {
    pub user_id: Id,
    pub email: String,
    pub first_name: String,
    pub last_name: String,
}

/// The names of a profile that a request may change; an absent name stays.
#[derive(Clone, Debug, PartialEq, Eq)]
pub struct ProfileUpdateRequest {
    pub first_name: Option<String>,
    pub last_name: Option<String>,
}

/// A new access token, and how to present it.
#[derive(Clone, Debug, PartialEq, Eq)]
pub struct RefreshResponse {
    pub access_token: String,
    pub token_type: String,
}

/// An account that was accepted and is to be recorded.
#[derive(Clone, Debug, PartialEq, Eq)]
pub struct NewAccount {
    pub user_id: Id,
    pub email: String,
    pub password_hash: String,
    pub first_name: String,
    pub last_name: String,
}

/// What logging in reads of an account.
#[derive(Clone, Debug, PartialEq, Eq)]
pub struct Credentials {
    pub user_id: Id,
    pub password_hash: String,
}

/// The names in a profile.
#[derive(Clone, Debug, PartialEq, Eq)]
pub struct ProfileNames {
    pub first_name: String,
    pub last_name: String,
}

/// Why a caller could not be told from the `Authorization` header.
#[derive(Clone, Copy, Debug, PartialEq, Eq, Structural)]
pub enum AuthFailure {
    /// There is no header.
    MissingHeader,
    /// The header does not begin with `Bearer `.
    InvalidFormat,
    /// The token is not a valid token of this service.
    InvalidToken,
    /// The token is of another kind than the one asked for.
    InvalidTokenType,
    /// The subject of the token is no identifier.
    InvalidUserId,
}

// ---------------------------------------------------------------------------
// Who the caller is
// ---------------------------------------------------------------------------

/// The user that a subject names in claims of the given kind, where the kind
/// is the one asked for (any kind where none is asked for) and the subject is
/// an identifier.
pub open spec fn user_named_by(sub: Seq<char>, token_type: Seq<char>, required: Option<TokenKind>) -> Result<
    Id,
    AuthFailure,
> {
    if required matches Some(kind) && token_type != kind.spec_name() {
        Err(AuthFailure::InvalidTokenType)
    } else {
        match Id::spec_parse(sub) {
            Some(id) => Ok(id),
            None => Err(AuthFailure::InvalidUserId),
        }
    }
}

/// The user that `claims` name, where they are of the kind asked for (any
/// kind where none is asked for) and their subject is an identifier.
pub open spec fn user_named(claims: Claims, required: Option<TokenKind>) -> Result<Id, AuthFailure> {
    user_named_by(claims.sub@, claims.token_type@, required)
}

/// What a token that the decoder accepts says of its bearer: the user that
/// its claims name, or why they name none. `None` where the decoder accepts
/// the token at no time.
pub open spec fn token_user(token: Seq<char>, required: Option<TokenKind>) -> Option<Result<Id, AuthFailure>> {
    match token_claims(token) {
        Some(read) => match (read.0, read.3) {
            (Some(sub), Some(token_type)) if all_present(read) => Some(user_named_by(sub, token_type, required)),
            _ => Some(Err(AuthFailure::InvalidToken)),
        },
        None => None,
    }
}

/// The token in the text of an `Authorization` header: what follows
/// `Bearer `, or `None` where the text does not begin with it.
pub open spec fn bearer_of(header: Seq<char>) -> Option<Seq<char>> {
    if "Bearer "@.is_prefix_of(header) {
        Some(header.skip("Bearer "@.len() as int))
    } else {
        None
    }
}

/// True when `r` is an outcome that telling the caller from the header can
/// have. Without a header the caller is told that it is missing, and with
/// one that does not begin with `Bearer ` that its format is invalid. A
/// token that the decoder refuses is invalid. Of a token that it accepts,
/// the outcome is what the claims of the token say: `token_user`.
pub open spec fn identified(authorization: Option<&str>, required: Option<TokenKind>, r: Result<Id, AuthFailure>) -> bool {
    match authorization {
        None => r == Err::<Id, AuthFailure>(AuthFailure::MissingHeader),
        Some(header) => match bearer_of(header@) {
            None => r == Err::<Id, AuthFailure>(AuthFailure::InvalidFormat),
            Some(token) => r == Err::<Id, AuthFailure>(AuthFailure::InvalidToken) || token_user(token, required)
                == Some(r),
        },
    }
}

/// The user that `claims` name.
pub fn user_of_claims(claims: &Claims, required: Option<TokenKind>) -> (r: Result<Id, AuthFailure>)
    ensures
        r == user_named(*claims, required),
{
    match required {
        Some(kind) => {
            if !text_eq(claims.token_type.as_str(), kind.name()) {
                return Err(AuthFailure::InvalidTokenType);
            }
        },
        None => {},
    }
    match Id::parse(claims.sub.as_str()) {
        Some(id) => Ok(id),
        None => Err(AuthFailure::InvalidUserId),
    }
}

/// The user that the outcome of verifying a token names.
pub fn user_of_verified(verified: Result<Claims, TokenError>, required: Option<TokenKind>) -> (r: Result<
    Id,
    AuthFailure,
>)
    ensures
        match verified {
            Ok(claims) => r == user_named(claims, required),
            Err(_) => r == Err::<Id, AuthFailure>(AuthFailure::InvalidToken),
        },
{
    match verified {
        Ok(claims) => user_of_claims(&claims, required),
        Err(_) => Err(AuthFailure::InvalidToken),
    }
}

/// The token in an `Authorization` header: what follows `Bearer `.
pub fn bearer_token<'a>(authorization: Option<&'a str>) -> (r: Result<&'a str, AuthFailure>)
    ensures
        match authorization {
            None => r == Err::<&str, AuthFailure>(AuthFailure::MissingHeader),
            Some(header) => match r {
                Ok(token) => header@ == "Bearer "@ + token@,
                Err(e) => e == AuthFailure::InvalidFormat && !"Bearer "@.is_prefix_of(header@),
            },
        },
{
    match authorization {
        None => Err(AuthFailure::MissingHeader),
        Some(header) => match strip_prefix(header, "Bearer ") {
            Some(token) => Ok(token),
            None => Err(AuthFailure::InvalidFormat),
        },
    }
}

/// Tells the caller from the `Authorization` header: the token in it must be
/// a valid token of this service, of the kind asked for where one is, and
/// name a user. Whether the token is accepted is decided at the time of the
/// call; every outcome is one that `identified` allows.
pub fn identify(authorization: Option<&str>, required: Option<TokenKind>) -> (r: Result<Id, AuthFailure>)
    ensures
        identified(authorization, required, r),
        required is None ==> r != Err::<Id, AuthFailure>(AuthFailure::InvalidTokenType),
{
    let token = match bearer_token(authorization) {
        Ok(token) => token,
        Err(e) => {
            return Err(e);
        },
    };
    proof {
        let header = authorization->Some_0;
        assert(header@.subrange(0, "Bearer "@.len() as int) =~= "Bearer "@);
        assert(header@.skip("Bearer "@.len() as int) =~= token@);
        assert(bearer_of(header@) == Some(token@));
    }
    let verified = verify_token(token);
    user_of_verified(verified, required)
}

/// Tells the caller of a request about rentals or products: the bearer of a
/// token that is accepted, grants access and names a user. Whatever is wrong
/// with the header or the token, the caller is told no more than that the
/// request is unauthorized.
pub fn extract_user_id_from_token(authorization: Option<&str>) -> (r: Result<Id, ApiError>)
    ensures
        match r {
            Ok(id) => identified(authorization, Some(TokenKind::Access), Ok(id)),
            Err(_) => is_failure(r, ErrorKind::Unauthorized, "Unauthorized"@) && exists|failure: AuthFailure| #[trigger]
                identified(authorization, Some(TokenKind::Access), Err(failure)),
        },
{
    let identified = identify(authorization, Some(TokenKind::Access));
    unauthorized(identified)
}

/// Hides from the caller why it could not be identified.
pub fn unauthorized(identified: Result<Id, AuthFailure>) -> (r: Result<Id, ApiError>)
    ensures
        match identified {
            Ok(id) => r == Ok::<Id, ApiError>(id),
            Err(_) => is_failure(r, ErrorKind::Unauthorized, "Unauthorized"@),
        },
{
    match identified {
        Ok(id) => Ok(id),
        Err(_) => fail(ErrorKind::Unauthorized, "Unauthorized"),
    }
}

/// The message that tells the caller of a request about its own profile why
/// it could not be identified. A header without `Bearer ` counts as missing.
pub open spec fn profile_auth_message(failure: AuthFailure) -> Seq<char> {
    match failure {
        AuthFailure::MissingHeader => "Missing authorization header"@,
        AuthFailure::InvalidFormat => "Missing authorization header"@,
        AuthFailure::InvalidToken => "Invalid token"@,
        AuthFailure::InvalidTokenType => "Invalid token type"@,
        AuthFailure::InvalidUserId => "Invalid user ID in token"@,
    }
}

/// The message that tells the caller of any other request why it could not
/// be identified.
pub open spec fn auth_message(failure: AuthFailure) -> Seq<char> {
    match failure {
        AuthFailure::MissingHeader => "Missing authorization header"@,
        AuthFailure::InvalidFormat => "Invalid authorization header format"@,
        AuthFailure::InvalidToken => "Invalid token"@,
        AuthFailure::InvalidTokenType => "Invalid token type"@,
        AuthFailure::InvalidUserId => "Invalid user ID in token"@,
    }
}

/// Reports to the caller of a request about its own profile why it could not
/// be identified.
pub fn profile_caller(identified: Result<Id, AuthFailure>) -> (r: Result<Id, ApiError>)
    ensures
        match identified {
            Ok(id) => r == Ok::<Id, ApiError>(id),
            Err(failure) => is_failure(r, ErrorKind::Unauthorized, profile_auth_message(failure)),
        },
{
    match identified {
        Ok(id) => Ok(id),
        Err(AuthFailure::MissingHeader) => fail(ErrorKind::Unauthorized, "Missing authorization header"),
        Err(AuthFailure::InvalidFormat) => fail(ErrorKind::Unauthorized, "Missing authorization header"),
        Err(AuthFailure::InvalidToken) => fail(ErrorKind::Unauthorized, "Invalid token"),
        Err(AuthFailure::InvalidTokenType) => fail(ErrorKind::Unauthorized, "Invalid token type"),
        Err(AuthFailure::InvalidUserId) => fail(ErrorKind::Unauthorized, "Invalid user ID in token"),
    }
}

/// Reports to the caller why it could not be identified.
pub fn caller(identified: Result<Id, AuthFailure>) -> (r: Result<Id, ApiError>)
    ensures
        match identified {
            Ok(id) => r == Ok::<Id, ApiError>(id),
            Err(failure) => is_failure(r, ErrorKind::Unauthorized, auth_message(failure)),
        },
{
    match identified {
        Ok(id) => Ok(id),
        Err(AuthFailure::MissingHeader) => fail(ErrorKind::Unauthorized, "Missing authorization header"),
        Err(AuthFailure::InvalidFormat) => fail(ErrorKind::Unauthorized, "Invalid authorization header format"),
        Err(AuthFailure::InvalidToken) => fail(ErrorKind::Unauthorized, "Invalid token"),
        Err(AuthFailure::InvalidTokenType) => fail(ErrorKind::Unauthorized, "Invalid token type"),
        Err(AuthFailure::InvalidUserId) => fail(ErrorKind::Unauthorized, "Invalid user ID in token"),
    }
}

/// Tells the caller of a request about its own profile: the bearer of a
/// token that is accepted, grants access and names a user. A failure says
/// what is wrong, in the words of `profile_auth_message`.
pub fn authenticate_profile(authorization: Option<&str>) -> (r: Result<Id, ApiError>)
    ensures
        match r {
            Ok(id) => identified(authorization, Some(TokenKind::Access), Ok(id)),
            Err(e) => e.kind == ErrorKind::Unauthorized && exists|failure: AuthFailure| #[trigger]
                identified(authorization, Some(TokenKind::Access), Err(failure)) && e.message@
                    == profile_auth_message(failure),
        },
{
    profile_caller(identify(authorization, Some(TokenKind::Access)))
}

/// Tells the caller of a request about payments, subscriptions, messages or
/// reviews: the bearer of a token of either kind that is accepted and names
/// a user. A failure says what is wrong, in the words of `auth_message`.
pub fn authenticate(authorization: Option<&str>) -> (r: Result<Id, ApiError>)
    ensures
        match r {
            Ok(id) => identified(authorization, None, Ok(id)),
            Err(e) => e.kind == ErrorKind::Unauthorized && exists|failure: AuthFailure| #[trigger]
                identified(authorization, None, Err(failure)) && failure != AuthFailure::InvalidTokenType
                    && e.message@ == auth_message(failure),
        },
{
    caller(identify(authorization, None))
}

// ---------------------------------------------------------------------------
// Sessions
// ---------------------------------------------------------------------------

/// The session of `user`, from the outcomes of making its two tokens.
pub fn session_of(
    user: UserResponse,
    access: Result<String, TokenError>,
    refresh: Result<String, TokenError>,
) -> (r: Result<AuthResponse, ApiError>)
    ensures
        match (access, refresh) {
            (Ok(access_token), Ok(refresh_token)) => r == Ok::<AuthResponse, ApiError>(
                AuthResponse { access_token, refresh_token, user },
            ),
            (Err(_), _) => is_failure(r, ErrorKind::Internal, "Failed to create access token"@),
            (Ok(_), Err(_)) => is_failure(r, ErrorKind::Internal, "Failed to create refresh token"@),
        },
{
    let access_token = match access {
        Ok(token) => token,
        Err(_) => {
            return fail(ErrorKind::Internal, "Failed to create access token");
        },
    };
    let refresh_token = match refresh {
        Ok(token) => token,
        Err(_) => {
            return fail(ErrorKind::Internal, "Failed to create refresh token");
        },
    };
    Ok(AuthResponse { access_token, refresh_token, user })
}

/// Opens a session for `user`: an access token and a refresh token, issued
/// now.
pub fn open_session(user: UserResponse) -> (r: Result<AuthResponse, ApiError>)
    ensures
        match r {
            Ok(session) => {
                &&& session.user == user
                &&& exists|now: Timestamp| 0 <= now.micros <= LATEST_MICROS && #[trigger] issued_token(
                    user.user_id,
                    now,
                    TokenKind::Access,
                ) == Some(session.access_token@)
                &&& exists|now: Timestamp| 0 <= now.micros <= LATEST_MICROS && #[trigger] issued_token(
                    user.user_id,
                    now,
                    TokenKind::Refresh,
                ) == Some(session.refresh_token@)
            },
            Err(e) => e.kind == ErrorKind::Internal && ((e.message@ == "Failed to create access token"@
                && exists|now: Timestamp| 0 <= now.micros <= LATEST_MICROS && #[trigger] issued_token(
                    user.user_id,
                    now,
                    TokenKind::Access,
                ) is None) || (e.message@ == "Failed to create refresh token"@ && exists|now: Timestamp|
                0 <= now.micros <= LATEST_MICROS && #[trigger] issued_token(user.user_id, now, TokenKind::Refresh)
                    is None)),
        },
{
    let access = create_access_token(user.user_id);
    let refresh = create_refresh_token(user.user_id);
    session_of(user, access, refresh)
}

// ---------------------------------------------------------------------------
// Signing up
// ---------------------------------------------------------------------------

/// Decides on a request to open an account, given what was found under its
/// e-mail address, the outcome of hashing its password, and the identifier
/// for the account.
///
/// An address that could not be looked up is an internal failure, and one
/// that is taken is a conflict. A password that could not be hashed is an
/// internal failure.
pub fn signup_as(
    request: SignupRequest,
    existing: Result<Option<Id>, DbError>,
    hashed: Result<String, PasswordError>,
    user_id: Id,
) -> (r: Result<NewAccount, ApiError>)
    ensures
        match existing {
            Err(_) => is_failure(r, ErrorKind::Internal, database_error_message()),
            Ok(Some(_)) => is_failure(r, ErrorKind::Conflict, "User already exists"@),
            Ok(None) => match hashed {
                Ok(password_hash) => r == Ok::<NewAccount, ApiError>(
                    NewAccount {
                        user_id,
                        email: request.email,
                        password_hash,
                        first_name: request.first_name,
                        last_name: request.last_name,
                    },
                ),
                Err(_) => is_failure(r, ErrorKind::Internal, "Failed to hash password"@),
            },
        },
{
    match existing {
        Err(_) => {
            return database_failure();
        },
        Ok(Some(_)) => {
            return fail(ErrorKind::Conflict, "User already exists");
        },
        Ok(None) => {},
    }
    match hashed {
        Ok(password_hash) => Ok(
            NewAccount {
                user_id,
                email: request.email,
                password_hash,
                first_name: request.first_name,
                last_name: request.last_name,
            },
        ),
        Err(_) => fail(ErrorKind::Internal, "Failed to hash password"),
    }
}

/// Decides on a request to open an account, as `signup_as` does, with the
/// password hashed under a fresh salt and a fresh random identifier.
pub fn signup(request: SignupRequest, existing: Result<Option<Id>, DbError>) -> (r: Result<NewAccount, ApiError>)
    ensures
        match existing {
            Err(_) => is_failure(r, ErrorKind::Internal, database_error_message()),
            Ok(Some(_)) => is_failure(r, ErrorKind::Conflict, "User already exists"@),
            Ok(None) => match r {
                Ok(account) => {
                    &&& account.email == request.email
                    &&& account.first_name == request.first_name
                    &&& account.last_name == request.last_name
                    &&& bcrypt_verdict(request.password@, account.password_hash@) == Some(true)
                },
                Err(e) => e.kind == ErrorKind::Internal && e.message@ == "Failed to hash password"@,
            },
        },
{
    match existing {
        Err(_) => {
            return database_failure();
        },
        Ok(Some(_)) => {
            return fail(ErrorKind::Conflict, "User already exists");
        },
        Ok(None) => {},
    }
    let hashed = hash_password(request.password.as_str());
    let user_id = Id::random();
    signup_as(request, existing, hashed, user_id)
}

/// The outcome of recording the account.
pub fn user_created(written: Result<(), DbError>) -> (r: Result<(), ApiError>)
    ensures
        match written {
            Ok(_) => r is Ok,
            Err(_) => is_failure(r, ErrorKind::Internal, "Failed to create user"@),
        },
{
    written_or(written, "Failed to create user")
}

/// The outcome of recording the profile of the account.
pub fn profile_created(written: Result<(), DbError>) -> (r: Result<(), ApiError>)
    ensures
        match written {
            Ok(_) => r is Ok,
            Err(_) => is_failure(r, ErrorKind::Internal, "Failed to create user profile"@),
        },
{
    written_or(written, "Failed to create user profile")
}

/// What a session shows of a new account.
pub fn user_of_account(account: NewAccount) -> (user: UserResponse)
    ensures
        user == (UserResponse {
            user_id: account.user_id,
            email: account.email,
            first_name: account.first_name,
            last_name: account.last_name,
        }),
{
    UserResponse {
        user_id: account.user_id,
        email: account.email,
        first_name: account.first_name,
        last_name: account.last_name,
    }
}

// ---------------------------------------------------------------------------
// Logging in
// ---------------------------------------------------------------------------

/// True when the account exists and the password matches its hash.
pub open spec fn credentials_valid(password: Seq<char>, account: Result<Option<Credentials>, DbError>) -> bool {
    account matches Ok(Some(c)) && bcrypt_verdict(password, c.password_hash@) == Some(true)
}

/// Checks the password of a request to log in against the account found under
/// its e-mail address, and hands back the user.
///
/// An unknown address and a wrong password are told apart by nothing: both
/// are invalid credentials. A database failure, and a hash that no password
/// can be checked against, are internal failures.
pub fn login(request: &LoginRequest, account: Result<Option<Credentials>, DbError>) -> (r: Result<Id, ApiError>)
    ensures
        match account {
            Ok(Some(c)) => match bcrypt_verdict(request.password@, c.password_hash@) {
                Some(true) => r == Ok::<Id, ApiError>(c.user_id),
                Some(false) => is_failure(r, ErrorKind::Unauthorized, "Invalid credentials"@),
                None => is_failure(r, ErrorKind::Internal, "Password verification failed"@),
            },
            Ok(None) => is_failure(r, ErrorKind::Unauthorized, "Invalid credentials"@),
            Err(_) => is_failure(r, ErrorKind::Internal, "Database error"@),
        },
        r is Ok <==> credentials_valid(request.password@, account),
{
    let found = match account {
        Ok(Some(c)) => c,
        Ok(None) => {
            return fail(ErrorKind::Unauthorized, "Invalid credentials");
        },
        Err(_) => {
            return fail(ErrorKind::Internal, "Database error");
        },
    };
    match verify_password(request.password.as_str(), found.password_hash.as_str()) {
        Ok(true) => Ok(found.user_id),
        Ok(false) => fail(ErrorKind::Unauthorized, "Invalid credentials"),
        Err(_) => fail(ErrorKind::Internal, "Password verification failed"),
    }
}

/// What a session shows of the user who logged in, given the profile that
/// was read.
pub fn login_user(email: String, user_id: Id, profile: Result<Option<ProfileNames>, DbError>) -> (r: Result<
    UserResponse,
    ApiError,
>)
    ensures
        match profile {
            Ok(Some(names)) => r == Ok::<UserResponse, ApiError>(
                UserResponse { user_id, email, first_name: names.first_name, last_name: names.last_name },
            ),
            _ => is_failure(r, ErrorKind::Internal, "Failed to get user profile"@),
        },
{
    match profile {
        Ok(Some(names)) => Ok(
            UserResponse { user_id, email, first_name: names.first_name, last_name: names.last_name },
        ),
        _ => fail(ErrorKind::Internal, "Failed to get user profile"),
    }
}

// ---------------------------------------------------------------------------
// Refreshing
// ---------------------------------------------------------------------------

/// The user that a refresh token stands for, from the outcome of verifying
/// it.
pub fn refresh_user(verified: Result<Claims, TokenError>) -> (r: Result<Id, ApiError>)
    ensures
        match verified {
            Ok(claims) => match user_named(claims, Some(TokenKind::Refresh)) {
                Ok(id) => r == Ok::<Id, ApiError>(id),
                Err(AuthFailure::InvalidTokenType) => is_failure(r, ErrorKind::Unauthorized, "Invalid token type"@),
                Err(_) => is_failure(r, ErrorKind::Unauthorized, "Invalid user ID in token"@),
            },
            Err(_) => is_failure(r, ErrorKind::Unauthorized, "Invalid refresh token"@),
        },
{
    match verified {
        Ok(claims) => match user_of_claims(&claims, Some(TokenKind::Refresh)) {
            Ok(id) => Ok(id),
            Err(AuthFailure::InvalidTokenType) => fail(ErrorKind::Unauthorized, "Invalid token type"),
            Err(_) => fail(ErrorKind::Unauthorized, "Invalid user ID in token"),
        },
        Err(_) => fail(ErrorKind::Unauthorized, "Invalid refresh token"),
    }
}

/// The answer to a request for a new access token, from the outcome of
/// making one.
pub fn refreshed(access: Result<String, TokenError>) -> (r: Result<RefreshResponse, ApiError>)
    ensures
        match access {
            Ok(access_token) => r matches Ok(answer) && answer.access_token == access_token && answer.token_type@
                == "Bearer"@,
            Err(_) => is_failure(r, ErrorKind::Internal, "Failed to create access token"@),
        },
{
    match access {
        Ok(access_token) => Ok(RefreshResponse { access_token, token_type: owned("Bearer") }),
        Err(_) => fail(ErrorKind::Internal, "Failed to create access token"),
    }
}

/// True when `e` is a failure that exchanging `token` can end in: the
/// decoder refuses the token, or the token is incomplete; or the token is no
/// refresh token; or its subject is no identifier; or no access token could
/// be made for the user that it names.
pub open spec fn refresh_refused(token: Seq<char>, e: ApiError) -> bool {
    ||| e.kind == ErrorKind::Unauthorized && e.message@ == "Invalid refresh token"@
    ||| e.kind == ErrorKind::Unauthorized && e.message@ == "Invalid token type"@ && token_user(
        token,
        Some(TokenKind::Refresh),
    ) == Some(Err::<Id, AuthFailure>(AuthFailure::InvalidTokenType))
    ||| e.kind == ErrorKind::Unauthorized && e.message@ == "Invalid user ID in token"@ && token_user(
        token,
        Some(TokenKind::Refresh),
    ) == Some(Err::<Id, AuthFailure>(AuthFailure::InvalidUserId))
    ||| e.kind == ErrorKind::Internal && e.message@ == "Failed to create access token"@ && exists|
        user_id: Id,
        now: Timestamp,
    |
        token_user(token, Some(TokenKind::Refresh)) == Some(Ok::<Id, AuthFailure>(user_id)) && 0 <= now.micros
            <= LATEST_MICROS && #[trigger] issued_token(user_id, now, TokenKind::Access) is None
}

/// True when `answer` holds an access token, issued within the range of the
/// clock, for the user that the refresh token `token` names.
pub open spec fn refresh_granted(token: Seq<char>, answer: RefreshResponse) -> bool {
    &&& answer.token_type@ == "Bearer"@
    &&& exists|user_id: Id, now: Timestamp|
        token_user(token, Some(TokenKind::Refresh)) == Some(Ok::<Id, AuthFailure>(user_id)) && 0 <= now.micros
            <= LATEST_MICROS && #[trigger] issued_token(user_id, now, TokenKind::Access) == Some(
            answer.access_token@,
        )
}

/// Exchanges a refresh token for a new access token for the user that the
/// refresh token names. A request without a refresh token is invalid; a
/// token that is not an accepted refresh token of a user is unauthorized.
pub fn refresh(refresh_token: Option<&str>) -> (r: Result<RefreshResponse, ApiError>)
    ensures
        match refresh_token {
            None => is_failure(r, ErrorKind::InvalidState, "Refresh token required"@),
            Some(token) => match r {
                Ok(answer) => refresh_granted(token@, answer),
                Err(e) => refresh_refused(token@, e),
            },
        },
{
    let token = match refresh_token {
        Some(token) => token,
        None => {
            return fail(ErrorKind::InvalidState, "Refresh token required");
        },
    };
    let verified = verify_token(token);
    let ghost seen = verified;
    let user_id = match refresh_user(verified) {
        Ok(id) => id,
        Err(e) => {
            proof {
                if seen is Ok {
                    assert(token_user(token@, Some(TokenKind::Refresh)) == Some(
                        user_named(seen->Ok_0, Some(TokenKind::Refresh)),
                    ));
                }
            }
            return Err(e);
        },
    };
    assert(token_user(token@, Some(TokenKind::Refresh)) == Some(Ok::<Id, AuthFailure>(user_id)));
    refreshed(create_access_token(user_id))
}

// ---------------------------------------------------------------------------
// The profile
// ---------------------------------------------------------------------------

/// Hands the caller its profile; one that is missing is not found, and one
/// that could not be read is an internal failure.
pub fn get_profile<P>(profile: Result<Option<P>, DbError>) -> (r: Result<P, ApiError>)
    ensures
        match profile {
            Ok(Some(row)) => r == Ok::<P, ApiError>(row),
            Ok(None) => is_failure(r, ErrorKind::NotFound, "User not found"@),
            Err(_) => is_failure(r, ErrorKind::Internal, database_error_message()),
        },
{
    found_or(profile, ErrorKind::NotFound, "User not found")
}

/// The answer to a request to change the profile once the changes were
/// written, or were not.
pub fn update_profile(written: Result<(), DbError>) -> (r: Result<Notice, ApiError>)
    ensures
        match written {
            Ok(_) => r matches Ok(n) && n.message@ == "Profile updated successfully"@,
            Err(_) => is_failure(r, ErrorKind::Internal, "Failed to update profile"@),
        },
{
    match written_or(written, "Failed to update profile") {
        Ok(_) => Ok(notice("Profile updated successfully")),
        Err(e) => Err(e),
    }
}

/// A token issued to a user names that user: claims of any kind that were
/// made for `user_id` are told back as `user_id` when that kind, or any kind,
/// is asked for.
pub proof fn lemma_issued_claims_name_their_user(claims: Claims, user_id: Id, kind: TokenKind)
    requires
        claims.sub@ == user_id.text(),
        Id::spec_parse(user_id.text()) == Some(user_id),
        claims.token_type@ == kind.spec_name(),
    ensures
        user_named(claims, Some(kind)) == Ok::<Id, AuthFailure>(user_id),
        user_named(claims, None) == Ok::<Id, AuthFailure>(user_id),
{
}

/// A refresh token grants no access, and an access token cannot be exchanged:
/// claims of one kind are refused where the other is asked for.
pub proof fn lemma_token_kinds_are_not_interchangeable(claims: Claims)
    ensures
        claims.token_type@ == TokenKind::Refresh.spec_name() ==> user_named(claims, Some(TokenKind::Access)) == Err::<
            Id,
            AuthFailure,
        >(AuthFailure::InvalidTokenType),
        claims.token_type@ == TokenKind::Access.spec_name() ==> user_named(claims, Some(TokenKind::Refresh)) == Err::<
            Id,
            AuthFailure,
        >(AuthFailure::InvalidTokenType),
{
    reveal_strlit("access");
    reveal_strlit("refresh");
    assert("access"@.len() != "refresh"@.len());
}

} // verus!
