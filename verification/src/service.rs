//! Registration, login and refresh: the three operations of the service.
//!
//! Each operation ends in a pair of tokens or in one `ApiError`. Where an
//! operation needs the credential store, its decisions are functions of what
//! the store answered, so that they hold for a store kept anywhere; the
//! operations on a `CredentialStore` in memory are built from them.

use crate::clock::current_timestamp;
use crate::error::ApiError;
use crate::password::{
    argon2_phc, hash_password, hash_password_with_salt, hashing_result, is_fresh_salt,
    verification, verify_password,
};
use crate::store::{
    after_insert, found_view, insert_reply, lookup, Contents, CredentialStore, StoreFailure,
    UserRecord, UserRecordView,
};
use crate::token::{
    carries, generate_tokens, generate_tokens_at, issued_pair, jwt_decoded, pair_carries,
    pair_result, validate_jwt_at, validation_result, ClaimsView, TokenCodec, TokenResponse,
    TokenResponseView, TokenType,
};
use vstd::prelude::*;

verus! {

/// A candidate for registration, with the password in plaintext.
#[derive(Clone, Debug)]
pub struct User {
    pub name: String,
    pub email: String,
    pub username: String,
    pub password: String,
}

/// A candidate as mathematical values.
pub struct UserView {
    pub name: Seq<char>,
    pub email: Seq<char>,
    pub username: Seq<char>,
    pub password: Seq<char>,
}

impl View for User {
    type V = UserView;

    open spec fn view(&self) -> UserView {
        UserView {
            name: self.name@,
            email: self.email@,
            username: self.username@,
            password: self.password@,
        }
    }
}

/// What a user presents to log in; never stored.
#[derive(Clone, Debug)]
pub struct LoginCredentials {
    pub username: String,
    pub password: String,
}

/// Credentials as mathematical values.
pub struct LoginCredentialsView {
    pub username: Seq<char>,
    pub password: Seq<char>,
}

impl View for LoginCredentials {
    type V = LoginCredentialsView;

    open spec fn view(&self) -> LoginCredentialsView {
        LoginCredentialsView { username: self.username@, password: self.password@ }
    }
}

/// The view of a result that holds a record.
pub open spec fn record_result(r: Result<UserRecord, ApiError>) -> Result<
    UserRecordView,
    ApiError,
> {
    match r {
        Ok(record) => Ok(record@),
        Err(e) => Err(e),
    }
}

/// Whether `password` is the password that the encoded `hash` was made of.
pub open spec fn verifies(password: Seq<char>, hash: Seq<char>) -> bool {
    verification(password, hash) == Ok::<bool, ApiError>(true)
}

/// The record of `user` with `hash` in place of the password.
pub open spec fn record_of(user: UserView, hash: Seq<char>) -> UserRecordView {
    UserRecordView {
        name: user.name,
        email: user.email,
        username: user.username,
        password_hash: hash,
    }
}

/// The record to insert for `user`: none where the username is `taken`
/// (`UserExists`) or where hashing fails (`HashingError`).
pub open spec fn prepared(user: UserView, taken: bool, derived: Option<Seq<char>>) -> Result<
    UserRecordView,
    ApiError,
> {
    if taken {
        Err(ApiError::UserExists)
    } else {
        match hashing_result(user.password, derived) {
            Ok(hash) => Ok(record_of(user, hash)),
            Err(e) => Err(e),
        }
    }
}

/// How a registration ends once the store has answered the insertion: with
/// `tokens` where the record went in, with `UserExists` where the store
/// found the username taken, with `StoreError` where the store failed.
pub open spec fn registration_outcome(
    reply: Result<(), StoreFailure>,
    tokens: Result<TokenResponseView, ApiError>,
) -> Result<TokenResponseView, ApiError> {
    match reply {
        Ok(()) => tokens,
        Err(StoreFailure::UniquenessViolation) => Err(ApiError::UserExists),
        Err(StoreFailure::StoreError) => Err(ApiError::StoreError),
    }
}

/// Registration of `user` with a store holding `contents`, the salt `salt`
/// and the clock at `now`: what the store holds afterwards, and the answer.
pub open spec fn registered(
    key: Seq<char>,
    contents: Contents,
    user: UserView,
    salt: Seq<char>,
    now: int,
) -> (Contents, Result<TokenResponseView, ApiError>) {
    match prepared(user, contents.contains_key(user.username), argon2_phc(user.password, salt)) {
        Ok(record) => (
            after_insert(contents, record),
            registration_outcome(
                insert_reply(contents, record),
                issued_pair(key, user.username, now),
            ),
        ),
        Err(e) => (contents, Err(e)),
    }
}

/// How a login with `password` ends at `now` when the store answered the
/// lookup with `found`.
pub open spec fn authenticated(
    key: Seq<char>,
    password: Seq<char>,
    found: Option<UserRecordView>,
    now: int,
) -> Result<TokenResponseView, ApiError> {
    match found {
        Some(record) => match verification(password, record.password_hash) {
            Ok(matches) => if matches {
                issued_pair(key, record.username, now)
            } else {
                Err(ApiError::InvalidCredentials)
            },
            Err(e) => Err(e),
        },
        None => Err(ApiError::InvalidCredentials),
    }
}

/// How a refresh with `token` ends at `now`.
pub open spec fn refreshed(key: Seq<char>, token: Seq<char>, now: int) -> Result<
    TokenResponseView,
    ApiError,
> {
    match validation_result(jwt_decoded(key, token), now) {
        Ok(claims) => if claims.token_type == TokenType::Refresh {
            issued_pair(key, claims.sub, now)
        } else {
            Err(ApiError::InvalidToken)
        },
        Err(e) => Err(e),
    }
}

/// First step of a registration, with the salt given: decides on the answer
/// of the lookup (`taken`) and builds the record to insert, the password
/// replaced by its hash.
pub fn prepare_registration_with_salt(user: &User, taken: bool, salt: &str) -> (r: Result<
    UserRecord,
    ApiError,
>)
    ensures
        record_result(r) == prepared(user@, taken, argon2_phc(user.password@, salt@)),
        r matches Ok(record) ==> verifies(user.password@, record.password_hash@),
{
    if taken {
        return Err(ApiError::UserExists);
    }
    match hash_password_with_salt(user.password.as_str(), salt) {
        Ok(password_hash) => Ok(
            UserRecord {
                name: user.name.clone(),
                email: user.email.clone(),
                username: user.username.clone(),
                password_hash,
            },
        ),
        Err(e) => Err(e),
    }
}

/// First step of a registration, with a fresh salt.
///
/// Whatever salt was drawn: a taken username is `UserExists`; a returned
/// record is the user's, its hash is not the password and verifies against
/// it; the only other failure is `HashingError`.
pub fn prepare_registration(user: &User, taken: bool) -> (r: Result<UserRecord, ApiError>)
    ensures
        exists|salt: Seq<char>|
            is_fresh_salt(salt) && record_result(r) == prepared(
                user@,
                taken,
                #[trigger] argon2_phc(user.password@, salt),
            ),
        taken ==> r == Err::<UserRecord, ApiError>(ApiError::UserExists),
        r matches Ok(record) ==> record@ == record_of(user@, record.password_hash@)
            && record.password_hash@ != user.password@ && verifies(
            user.password@,
            record.password_hash@,
        ),
        r matches Err(e) ==> e == ApiError::UserExists || e == ApiError::HashingError,
{
    if taken {
        let ghost any_salt = Seq::new(22, |i: int| 'A');
        assert(is_fresh_salt(any_salt) && record_result(Err(ApiError::UserExists)) == prepared(
            user@,
            taken,
            argon2_phc(user.password@, any_salt),
        ));
        return Err(ApiError::UserExists);
    }
    match hash_password(user.password.as_str()) {
        Ok(password_hash) => Ok(
            UserRecord {
                name: user.name.clone(),
                email: user.email.clone(),
                username: user.username.clone(),
                password_hash,
            },
        ),
        Err(e) => Err(e),
    }
}

/// Last step of a registration, at the moment `now`: maps the store's
/// answer to the insertion and, where the record went in, issues the tokens.
pub fn complete_registration_at(
    codec: &TokenCodec,
    username: &str,
    reply: Result<(), StoreFailure>,
    now: i64,
) -> (r: Result<TokenResponse, ApiError>)
    ensures
        pair_result(r) == registration_outcome(
            reply,
            issued_pair(codec.key(), username@, now as int),
        ),
        reply is Ok && 0 <= now ==> r is Ok,
        r matches Ok(pair) ==> pair_carries(codec.key(), pair@, username@, now as int),
{
    match reply {
        Ok(()) => generate_tokens_at(codec, username, now),
        Err(StoreFailure::UniquenessViolation) => Err(ApiError::UserExists),
        Err(StoreFailure::StoreError) => Err(ApiError::StoreError),
    }
}

/// Last step of a registration, at the present moment, which is not before
/// the epoch: the pair is issued exactly where the record went in.
pub fn complete_registration(
    codec: &TokenCodec,
    username: &str,
    reply: Result<(), StoreFailure>,
) -> (r: Result<TokenResponse, ApiError>)
    ensures
        exists|now: i64|
            0 <= now && pair_result(r) == registration_outcome(
                reply,
                #[trigger] issued_pair(codec.key(), username@, now as int),
            ) && (r matches Ok(pair) ==> pair_carries(
                codec.key(),
                pair@,
                username@,
                now as int,
            )),
        r is Ok <==> reply is Ok,
{
    match reply {
        Ok(()) => generate_tokens(codec, username),
        Err(StoreFailure::UniquenessViolation) => {
            assert(pair_result(Err(ApiError::UserExists)) == registration_outcome(
                reply,
                issued_pair(codec.key(), username@, 0i64 as int),
            ));
            Err(ApiError::UserExists)
        },
        Err(StoreFailure::StoreError) => {
            assert(pair_result(Err(ApiError::StoreError)) == registration_outcome(
                reply,
                issued_pair(codec.key(), username@, 0i64 as int),
            ));
            Err(ApiError::StoreError)
        },
    }
}

/// Decides a login at the moment `now` from what the store answered the
/// lookup with.
///
/// An unknown user and a wrong password both end in `InvalidCredentials`; a
/// stored hash that does not parse ends in `HashingError`; a match issues a
/// fresh pair to the username of the record.
pub fn authenticate_at(
    codec: &TokenCodec,
    creds: &LoginCredentials,
    found: Option<&UserRecord>,
    now: i64,
) -> (r: Result<TokenResponse, ApiError>)
    ensures
        pair_result(r) == authenticated(
            codec.key(),
            creds.password@,
            found_view(found),
            now as int,
        ),
        r matches Ok(pair) ==> found matches Some(record) && pair_carries(
            codec.key(),
            pair@,
            record.username@,
            now as int,
        ),
{
    match found {
        Some(record) => match verify_password(
            creds.password.as_str(),
            record.password_hash.as_str(),
        ) {
            Ok(true) => generate_tokens_at(codec, record.username.as_str(), now),
            Ok(false) => Err(ApiError::InvalidCredentials),
            Err(e) => Err(e),
        },
        None => Err(ApiError::InvalidCredentials),
    }
}

/// Decides a login at the present moment, which is not before the epoch,
/// from what the store answered the lookup with. A returned pair carries the
/// username of the record.
pub fn authenticate(codec: &TokenCodec, creds: &LoginCredentials, found: Option<&UserRecord>) -> (r:
    Result<TokenResponse, ApiError>)
    ensures
        exists|now: i64|
            0 <= now && pair_result(r) == #[trigger] authenticated(
                codec.key(),
                creds.password@,
                found_view(found),
                now as int,
            ) && (r matches Ok(pair) ==> (found matches Some(record) && pair_carries(
                codec.key(),
                pair@,
                record.username@,
                now as int,
            ))),
        found is None ==> pair_result(r) == Err::<TokenResponseView, ApiError>(
            ApiError::InvalidCredentials,
        ),
        r is Ok <==> (found matches Some(record) && verifies(
            creds.password@,
            record.password_hash@,
        )),
{
    let now: i64 = current_timestamp();
    authenticate_at(codec, creds, found, now)
}

/// Logs a user in against the store, at the moment `now`.
pub fn login_user_at(
    store: &CredentialStore,
    codec: &TokenCodec,
    creds: &LoginCredentials,
    now: i64,
) -> (r: Result<TokenResponse, ApiError>)
    ensures
        pair_result(r) == authenticated(
            codec.key(),
            creds.password@,
            lookup(store@, creds.username@),
            now as int,
        ),
        r matches Ok(pair) ==> pair_carries(codec.key(), pair@, creds.username@, now as int),
{
    let found = store.find_by_username(creds.username.as_str());
    authenticate_at(codec, creds, found, now)
}

/// Logs a user in against the store, at the present moment, which is not
/// before the epoch. A returned pair carries the username.
pub fn login_user(store: &CredentialStore, codec: &TokenCodec, creds: &LoginCredentials) -> (r:
    Result<TokenResponse, ApiError>)
    ensures
        exists|now: i64|
            0 <= now && pair_result(r) == #[trigger] authenticated(
                codec.key(),
                creds.password@,
                lookup(store@, creds.username@),
                now as int,
            ) && (r matches Ok(pair) ==> pair_carries(
                codec.key(),
                pair@,
                creds.username@,
                now as int,
            )),
        !store@.contains_key(creds.username@) ==> pair_result(r) == Err::<
            TokenResponseView,
            ApiError,
        >(ApiError::InvalidCredentials),
        r is Ok <==> (lookup(store@, creds.username@) matches Some(record) && verifies(
            creds.password@,
            record.password_hash,
        )),
{
    let now: i64 = current_timestamp();
    login_user_at(store, codec, creds, now)
}

/// Exchanges a refresh token for a fresh pair, at the moment `now`.
///
/// The token must validate at `now` and be of the refresh type: an access
/// token is an `InvalidToken` here even if it is otherwise in order. The new
/// pair is issued to the subject of the token; the token itself stays valid
/// until it expires.
pub fn refresh_token_at(codec: &TokenCodec, token: &str, now: i64) -> (r: Result<
    TokenResponse,
    ApiError,
>)
    ensures
        pair_result(r) == refreshed(codec.key(), token@, now as int),
        r matches Ok(pair) ==> validation_result(
            jwt_decoded(codec.key(), token@),
            now as int,
        ) matches Ok(claims) && pair_carries(codec.key(), pair@, claims.sub, now as int),
{
    let claims = match validate_jwt_at(codec, token, now) {
        Ok(claims) => claims,
        Err(e) => {
            return Err(e);
        },
    };
    match claims.token_type {
        TokenType::Refresh => generate_tokens_at(codec, claims.sub.as_str(), now),
        TokenType::Access => Err(ApiError::InvalidToken),
    }
}

/// Exchanges a refresh token for a fresh pair, at the present moment, which
/// is not before the epoch. A returned pair carries the subject of the token.
pub fn refresh_token(codec: &TokenCodec, token: &str) -> (r: Result<
    TokenResponse,
    ApiError,
>)
    ensures
        exists|now: i64|
            0 <= now && pair_result(r) == #[trigger] refreshed(codec.key(), token@, now as int)
                && (r matches Ok(pair) ==> (validation_result(
                jwt_decoded(codec.key(), token@),
                now as int,
            ) matches Ok(claims) && pair_carries(codec.key(), pair@, claims.sub, now as int))),
{
    let now: i64 = current_timestamp();
    refresh_token_at(codec, token, now)
}

/// Registers `user` with the store, with the salt and the moment given.
///
/// A taken username ends in `UserExists` and leaves the store as it was.
/// Otherwise the password is hashed, the record inserted, and a fresh pair
/// issued to the username; the store refusing the insertion also ends in
/// `UserExists`. The stored hash is not the password, and the password
/// verifies against it.
pub fn register_user_with(
    store: &mut CredentialStore,
    codec: &TokenCodec,
    user: &User,
    salt: &str,
    now: i64,
) -> (r: Result<TokenResponse, ApiError>)
    ensures
        (final(store)@, pair_result(r)) == registered(
            codec.key(),
            old(store)@,
            user@,
            salt@,
            now as int,
        ),
        r matches Ok(pair) ==> pair_carries(codec.key(), pair@, user.username@, now as int),
        r matches Ok(_) ==> lookup(final(store)@, user.username@) matches Some(record) && record
            == record_of(user@, record.password_hash) && record.password_hash != user.password@
            && verifies(user.password@, record.password_hash),
{
    let taken = store.find_by_username(user.username.as_str()).is_some();
    let record = match prepare_registration_with_salt(user, taken, salt) {
        Ok(record) => record,
        Err(e) => {
            return Err(e);
        },
    };
    let reply = store.insert(record);
    complete_registration_at(codec, user.username.as_str(), reply, now)
}

/// Registers `user` with the store, with a fresh salt and at the present
/// moment, which is not before the epoch. A returned pair carries the
/// username.
pub fn register_user(store: &mut CredentialStore, codec: &TokenCodec, user: &User) -> (r: Result<
    TokenResponse,
    ApiError,
>)
    ensures
        exists|salt: Seq<char>, now: i64|
            is_fresh_salt(salt) && 0 <= now && (final(store)@, pair_result(r)) == #[trigger] registered(
                codec.key(),
                old(store)@,
                user@,
                salt,
                now as int,
            ) && (r matches Ok(pair) ==> pair_carries(
                codec.key(),
                pair@,
                user.username@,
                now as int,
            )),
        old(store)@.contains_key(user.username@) ==> final(store)@ == old(store)@ && pair_result(r)
            == Err::<TokenResponseView, ApiError>(ApiError::UserExists),
        r matches Ok(_) ==> lookup(final(store)@, user.username@) matches Some(record) && record
            == record_of(user@, record.password_hash) && record.password_hash != user.password@
            && verifies(user.password@, record.password_hash),
        r matches Err(e) ==> e == ApiError::UserExists || e == ApiError::HashingError,
{
    let taken = store.find_by_username(user.username.as_str()).is_some();
    let prepared_record = prepare_registration(user, taken);
    let ghost salt = choose|salt: Seq<char>|
        is_fresh_salt(salt) && record_result(prepared_record) == prepared(
            user@,
            taken,
            #[trigger] argon2_phc(user.password@, salt),
        );
    let record = match prepared_record {
        Ok(record) => record,
        Err(e) => {
            assert((store@, pair_result(Err(e))) == registered(
                codec.key(),
                old(store)@,
                user@,
                salt,
                0i64 as int,
            ));
            return Err(e);
        },
    };
    let reply = store.insert(record);
    let r = complete_registration(codec, user.username.as_str(), reply);
    proof {
        let now = choose|now: i64|
            0 <= now && pair_result(r) == registration_outcome(
                reply,
                #[trigger] issued_pair(codec.key(), user.username@, now as int),
            ) && (r matches Ok(pair) ==> pair_carries(
                codec.key(),
                pair@,
                user.username@,
                now as int,
            ));
        assert((store@, pair_result(r)) == registered(
            codec.key(),
            old(store)@,
            user@,
            salt,
            now as int,
        ));
    }
    r
}

/// A second registration under a username ends in `UserExists` and leaves
/// the store as it was, whatever else the candidate holds.
pub proof fn lemma_taken_username_is_refused(
    key: Seq<char>,
    contents: Contents,
    user: UserView,
    salt: Seq<char>,
    now: int,
)
    requires
        contents.contains_key(user.username),
    ensures
        registered(key, contents, user, salt, now) == (
            contents,
            Err::<TokenResponseView, ApiError>(ApiError::UserExists),
        ),
{
}

/// After a registration that issued tokens, the username is taken: the
/// store holds the user's record under it, and a further registration under
/// it ends in `UserExists`.
pub proof fn lemma_registration_takes_username(
    key: Seq<char>,
    contents: Contents,
    user: UserView,
    salt: Seq<char>,
    now: int,
    next: UserView,
    next_salt: Seq<char>,
    later: int,
)
    requires
        registered(key, contents, user, salt, now).1 is Ok,
        next.username == user.username,
    ensures
        lookup(registered(key, contents, user, salt, now).0, user.username) matches Some(record)
            && record.username == user.username && record.name == user.name && record.email
            == user.email,
        registered(key, registered(key, contents, user, salt, now).0, next, next_salt, later) == (
            registered(key, contents, user, salt, now).0,
            Err::<TokenResponseView, ApiError>(ApiError::UserExists),
        ),
{
}

/// A login with the password that the stored hash was made of issues a
/// fresh pair to the user.
pub proof fn lemma_correct_password_logs_in(
    key: Seq<char>,
    password: Seq<char>,
    record: UserRecordView,
    now: int,
)
    requires
        verifies(password, record.password_hash),
    ensures
        authenticated(key, password, Some(record), now) == issued_pair(key, record.username, now),
{
}

/// A login under an unknown username and a login with a wrong password end
/// in the same failure, `InvalidCredentials`.
pub proof fn lemma_unknown_user_and_wrong_password_alike(
    key: Seq<char>,
    password: Seq<char>,
    record: UserRecordView,
    now: int,
)
    requires
        verification(password, record.password_hash) == Ok::<bool, ApiError>(false),
    ensures
        authenticated(key, password, None, now) == Err::<TokenResponseView, ApiError>(
            ApiError::InvalidCredentials,
        ),
        authenticated(key, password, Some(record), now) == authenticated(
            key,
            password,
            None,
            now,
        ),
{
}

/// Of two registrations under one username that both found it free, the
/// store takes the record of the one whose insertion comes first, and that
/// one goes on to its tokens; the other ends in `UserExists` and leaves no
/// trace in the store.
pub proof fn lemma_one_registration_wins(
    contents: Contents,
    first: UserRecordView,
    second: UserRecordView,
    first_tokens: Result<TokenResponseView, ApiError>,
    second_tokens: Result<TokenResponseView, ApiError>,
)
    requires
        first.username == second.username,
        !contents.contains_key(first.username),
    ensures
        registration_outcome(insert_reply(contents, first), first_tokens) == first_tokens,
        registration_outcome(insert_reply(after_insert(contents, first), second), second_tokens)
            == Err::<TokenResponseView, ApiError>(ApiError::UserExists),
        after_insert(after_insert(contents, first), second) == after_insert(contents, first),
        lookup(after_insert(contents, first), first.username) == Some(first),
{
}

/// An access token is refused by refresh, even where it is otherwise in
/// order.
pub proof fn lemma_refresh_refuses_access_token(
    key: Seq<char>,
    token: Seq<char>,
    claims: ClaimsView,
    now: int,
)
    requires
        carries(key, token, claims),
        claims.token_type == TokenType::Access,
    ensures
        refreshed(key, token, now) == Err::<TokenResponseView, ApiError>(ApiError::InvalidToken),
{
    crate::token::lemma_issued_token_validates(key, token, claims, now);
}

/// A refresh token that has not expired buys exactly the pair that would be
/// issued to its subject at that moment, and from the epoch on that pair is
/// issued.
pub proof fn lemma_refresh_reissues(key: Seq<char>, token: Seq<char>, claims: ClaimsView, now: int)
    requires
        carries(key, token, claims),
        claims.token_type == TokenType::Refresh,
        now <= claims.exp,
    ensures
        refreshed(key, token, now) == issued_pair(key, claims.sub, now),
        0 <= now <= i64::MAX ==> refreshed(key, token, now) is Ok,
{
    crate::token::lemma_issued_token_validates(key, token, claims, now);
}

/// Where time has moved on since a pair was issued, the access token that its
/// refresh token buys validates to the same subject and expires strictly
/// later than the access token of the pair.
pub proof fn lemma_refresh_extends_expiry(
    key: Seq<char>,
    subject: Seq<char>,
    then: int,
    now: int,
    pair: TokenResponseView,
    renewed: TokenResponseView,
)
    requires
        issued_pair(key, subject, then) == Ok::<TokenResponseView, ApiError>(pair),
        pair_carries(key, pair, subject, then),
        refreshed(key, pair.refresh_token, now) == Ok::<TokenResponseView, ApiError>(renewed),
        pair_carries(key, renewed, subject, now),
        then < now,
    ensures
        validation_result(jwt_decoded(key, pair.access_token), then) matches Ok(old_claims)
            && validation_result(jwt_decoded(key, renewed.access_token), now) matches Ok(
            new_claims,
        ) && new_claims.sub == subject && new_claims.token_type == TokenType::Access
            && old_claims.exp < new_claims.exp,
{
    crate::token::lemma_issued_pair_validates(key, subject, then, pair);
    let refresh_claims = ClaimsView {
        sub: subject,
        exp: crate::token::expiry(then, crate::token::REFRESH_MINUTES as int) as u64,
        token_type: TokenType::Refresh,
    };
    crate::token::lemma_issued_token_validates(key, pair.refresh_token, refresh_claims, now);
    crate::token::lemma_issued_pair_validates(key, subject, now, renewed);
}

/// One of two registrations that run at the same time: the record it would
/// insert, the tokens it would be issued, and how far it has come.
pub struct Attempt {
    pub record: UserRecordView,
    pub tokens: Result<TokenResponseView, ApiError>,
    /// What its lookup found: whether the username was taken.
    pub taken: bool,
    /// How it ended, once it has.
    pub outcome: Option<Result<TokenResponseView, ApiError>>,
}

/// The attempt after its lookup in a store holding `contents`.
pub open spec fn looked(contents: Contents, attempt: Attempt) -> Attempt {
    Attempt { taken: contents.contains_key(attempt.record.username), ..attempt }
}

/// The store and the attempt after its second step: an attempt that found the
/// username taken ends in `UserExists` without touching the store, any other
/// inserts its record and ends as the store's answer decides.
pub open spec fn finished(contents: Contents, attempt: Attempt) -> (Contents, Attempt) {
    if attempt.taken {
        (
            contents,
            Attempt {
                outcome: Some(Err::<TokenResponseView, ApiError>(ApiError::UserExists)),
                ..attempt
            },
        )
    } else {
        (
            after_insert(contents, attempt.record),
            Attempt {
                outcome: Some(
                    registration_outcome(insert_reply(contents, attempt.record), attempt.tokens),
                ),
                ..attempt
            },
        )
    }
}

/// The six orders in which the steps of two registrations can reach the
/// store, each registration looking the username up before it inserts.
pub enum Interleaving {
    /// The first looks and inserts, then the second looks and inserts.
    FirstBeforeSecond,
    /// The second looks and inserts, then the first looks and inserts.
    SecondBeforeFirst,
    /// Both look, the first before the second; then the first inserts, then
    /// the second.
    FirstLooksFirstInserts,
    /// Both look, the first before the second; then the second inserts, then
    /// the first.
    FirstLooksSecondInserts,
    /// Both look, the second before the first; then the first inserts, then
    /// the second.
    SecondLooksFirstInserts,
    /// Both look, the second before the first; then the second inserts, then
    /// the first.
    SecondLooksSecondInserts,
}

/// The store and the two attempts after their four steps in the given order.
pub open spec fn raced(
    order: Interleaving,
    contents: Contents,
    first: Attempt,
    second: Attempt,
) -> (Contents, Attempt, Attempt) {
    match order {
        Interleaving::FirstBeforeSecond => {
            let (c1, a) = finished(contents, looked(contents, first));
            let (c2, b) = finished(c1, looked(c1, second));
            (c2, a, b)
        },
        Interleaving::SecondBeforeFirst => {
            let (c1, b) = finished(contents, looked(contents, second));
            let (c2, a) = finished(c1, looked(c1, first));
            (c2, a, b)
        },
        Interleaving::FirstLooksFirstInserts | Interleaving::SecondLooksFirstInserts => {
            let a0 = looked(contents, first);
            let b0 = looked(contents, second);
            let (c1, a) = finished(contents, a0);
            let (c2, b) = finished(c1, b0);
            (c2, a, b)
        },
        Interleaving::FirstLooksSecondInserts | Interleaving::SecondLooksSecondInserts => {
            let a0 = looked(contents, first);
            let b0 = looked(contents, second);
            let (c1, b) = finished(contents, b0);
            let (c2, a) = finished(c1, a0);
            (c2, a, b)
        },
    }
}

/// Whether the first registration is the one whose record the store takes:
/// the one that inserts first.
pub open spec fn first_wins(order: Interleaving) -> bool {
    order is FirstBeforeSecond || order is FirstLooksFirstInserts || order
        is SecondLooksFirstInserts
}

/// Two registrations under one free username, their steps in any order:
/// exactly one goes on to its tokens, the one that inserts first; the other
/// ends in `UserExists`; and the store holds one record under the username,
/// the winner's.
pub proof fn lemma_simultaneous_registrations(
    order: Interleaving,
    contents: Contents,
    first: Attempt,
    second: Attempt,
)
    requires
        first.record.username == second.record.username,
        !contents.contains_key(first.record.username),
    ensures
        ({
            let (after, a, b) = raced(order, contents, first, second);
            let failure = Some(Err::<TokenResponseView, ApiError>(ApiError::UserExists));
            if first_wins(order) {
                &&& a.outcome == Some(first.tokens)
                &&& b.outcome == failure
                &&& after == contents.insert(first.record.username, first.record)
            } else {
                &&& b.outcome == Some(second.tokens)
                &&& a.outcome == failure
                &&& after == contents.insert(second.record.username, second.record)
            }
        }),
{
}

} // verus!
