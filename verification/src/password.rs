//! Salted, memory-hard password hashes: deriving one and checking a password
//! against one.
//!
//! A hash is a self-contained text in PHC format: it names the algorithm and
//! its parameters and embeds the salt and the digest, so checking needs
//! nothing but the password and the text.

use crate::error::{text_result, ApiError};
use crate::text::same_text;
use argon2::password_hash::rand_core::OsRng;
use argon2::password_hash::{PasswordHash, PasswordHasher, PasswordVerifier, SaltString};
use argon2::Argon2;
use vstd::prelude::*;

verus! {

/// The error type of the hashing crate, carried through unopened.
#[verifier::external_type_specification]
#[verifier::external_body]
pub struct ExPasswordHashError(argon2::password_hash::Error);

/// The PHC text that Argon2id with its default parameters derives from a
/// password and a B64 salt; `None` where the salt is refused or the digest
/// cannot be computed.
pub uninterp spec fn argon2_phc(password: Seq<char>, salt: Seq<char>) -> Option<Seq<char>>;

/// What Argon2 finds of a password and an encoded hash: `None` where the text
/// does not parse as a PHC hash, otherwise whether recomputing the digest
/// with the embedded parameters and salt gives the embedded digest.
pub uninterp spec fn argon2_match(password: Seq<char>, encoded: Seq<char>) -> Option<bool>;

/// The parameters of an encoded hash in the order of the text, each as its
/// name and, where its value is a decimal number of 32 bits, that number;
/// `None` where the text does not parse as a PHC hash.
pub uninterp spec fn phc_params(encoded: Seq<char>) -> Option<Seq<(Seq<char>, Option<u32>)>>;

/// One parameter of an encoded hash.
#[derive(Clone, Debug)]
pub struct HashParameter {
    pub name: String,
    /// The value, where it is a decimal number.
    pub decimal: Option<u32>,
}

impl View for HashParameter {
    type V = (Seq<char>, Option<u32>);

    open spec fn view(&self) -> (Seq<char>, Option<u32>) {
        (self.name@, self.decimal)
    }
}

/// The parameters by view.
pub open spec fn parameters_view(parameters: Seq<HashParameter>) -> Seq<(Seq<char>, Option<u32>)> {
    parameters.map_values(|p: HashParameter| p@)
}

/// Whether a character belongs to the B64 alphabet: a letter, a digit, `+`
/// or `/`.
pub open spec fn is_b64_char(c: char) -> bool {
    ||| 'a' <= c <= 'z'
    ||| 'A' <= c <= 'Z'
    ||| '0' <= c <= '9'
    ||| c == '+'
    ||| c == '/'
}

/// Whether a text has the form of a freshly drawn salt: sixteen bytes in B64
/// without padding, which is 22 characters of the alphabet.
pub open spec fn is_fresh_salt(salt: Seq<char>) -> bool {
    &&& salt.len() == 22
    &&& forall|i: int| 0 <= i < salt.len() ==> is_b64_char(#[trigger] salt[i])
}

/// Draws a salt by `SaltString::generate` from the operating system's random
/// source. Each call gives another salt; all that is claimed is its form:
/// sixteen random bytes encoded in B64 without padding.
#[verifier::external_body]
fn fresh_salt() -> (r: String)
    ensures
        is_fresh_salt(r@),
{
    SaltString::generate(&mut OsRng).as_str().to_owned()
}

/// Parses the salt by `SaltString::from_b64` and derives the hash by
/// `Argon2::default().hash_password`. The contract names the result, and adds
/// what the crate documents of it: the text verifies against the password it
/// was derived from, and it holds the default parameters, of which the
/// parallelism is 1.
#[verifier::external_body]
fn argon2_hash(password: &str, salt: &str) -> (r: Result<String, argon2::password_hash::Error>)
    ensures
        r is Ok <==> argon2_phc(password@, salt@) is Some,
        r matches Ok(h) ==> argon2_phc(password@, salt@) == Some(h@),
        r matches Ok(h) ==> argon2_match(password@, h@) == Some(true),
        r matches Ok(h) ==> phc_params(h@) matches Some(parameters) && parallelism_of(parameters)
            == Some(1u32),
{
    let salt = SaltString::from_b64(salt)?;
    Ok(Argon2::default().hash_password(password.as_bytes(), &salt)?.to_string())
}

/// Parses the text by `PasswordHash::new` and hands out its parameters as
/// `ParamsString::iter` gives them, each with its name and with what
/// `Value::decimal` reads of its value.
#[verifier::external_body]
fn phc_parameters(encoded: &str) -> (r: Result<Vec<HashParameter>, argon2::password_hash::Error>)
    ensures
        r is Ok <==> phc_params(encoded@) is Some,
        r matches Ok(parameters) ==> phc_params(encoded@) == Some(parameters_view(parameters@)),
{
    let parsed = PasswordHash::new(encoded)?;
    let mut parameters = Vec::new();
    for (name, value) in parsed.params.iter() {
        parameters.push(HashParameter { name: name.as_str().to_owned(), decimal: value.decimal().ok() });
    }
    Ok(parameters)
}

/// Parses the text by `PasswordHash::new` and checks the password by
/// `Argon2::default().verify_password`; any refusal of the parsed hash counts
/// as a mismatch, a text that does not parse is the error.
///
/// The call multiplies the parallelism that the text ends on by eight, in 32
/// bits, before it compares it with Argon2's maximum, and does not return
/// where that overflows: a text whose parallelism is beyond the maximum is
/// left out.
#[verifier::external_body]
fn argon2_check(password: &str, encoded: &str) -> (r: Result<bool, argon2::password_hash::Error>)
    requires
        phc_params(encoded@) matches Some(parameters) ==> !beyond_maximum(
            parallelism_of(parameters),
        ),
    ensures
        r is Ok <==> argon2_match(password@, encoded@) is Some,
        r matches Ok(b) ==> argon2_match(password@, encoded@) == Some(b),
{
    let parsed = PasswordHash::new(encoded)?;
    Ok(Argon2::default().verify_password(password.as_bytes(), &parsed).is_ok())
}

impl From<argon2::password_hash::Error> for ApiError {
    fn from(_err: argon2::password_hash::Error) -> (r: ApiError) {
        ApiError::HashingError
    }
}

impl vstd::std_specs::convert::FromSpecImpl<argon2::password_hash::Error> for ApiError {
    open spec fn obeys_from_spec() -> bool {
        true
    }

    open spec fn from_spec(err: argon2::password_hash::Error) -> ApiError {
        ApiError::HashingError
    }
}

/// What hashing answers for a derived text: the text, unless none was derived
/// or it equals the password.
pub open spec fn hashing_result(password: Seq<char>, derived: Option<Seq<char>>) -> Result<
    Seq<char>,
    ApiError,
> {
    match derived {
        Some(h) => if h == password {
            Err(ApiError::HashingError)
        } else {
            Ok(h)
        },
        None => Err(ApiError::HashingError),
    }
}

/// The result of verification for what Argon2 found: the match or mismatch,
/// or `HashingError` where the stored text is no hash at all.
pub open spec fn verification_result(found: Option<bool>) -> Result<bool, ApiError> {
    match found {
        Some(b) => Ok(b),
        None => Err(ApiError::HashingError),
    }
}

/// The largest parallelism that Argon2 accepts: 2^24 - 1.
pub const MAX_PARALLELISM: u32 = 0xFF_FFFF;

/// The parallelism that the parameters end on: the number of the last
/// parameter named `p`; none where there is no such parameter or its value is
/// no decimal number.
pub open spec fn parallelism_of(parameters: Seq<(Seq<char>, Option<u32>)>) -> Option<u32>
    decreases parameters.len(),
{
    if parameters.len() == 0 {
        None
    } else if parameters.last().0 == "p"@ {
        parameters.last().1
    } else {
        parallelism_of(parameters.drop_last())
    }
}

/// Whether a parallelism is beyond Argon2's maximum.
pub open spec fn beyond_maximum(parallelism: Option<u32>) -> bool {
    parallelism matches Some(p) && p > MAX_PARALLELISM
}

/// What checking `password` against `hash` answers: `HashingError` where the
/// text is no hash at all; a mismatch where its parallelism is beyond
/// Argon2's maximum, as no digest is computed under such a parameter;
/// otherwise what Argon2 finds.
pub open spec fn verification(password: Seq<char>, hash: Seq<char>) -> Result<bool, ApiError> {
    match phc_params(hash) {
        Some(parameters) => if beyond_maximum(parallelism_of(parameters)) {
            Ok(false)
        } else {
            verification_result(argon2_match(password, hash))
        },
        None => Err(ApiError::HashingError),
    }
}

/// The parallelism that the parameters end on.
pub fn parallelism(parameters: &Vec<HashParameter>) -> (r: Option<u32>)
    ensures
        r == parallelism_of(parameters_view(parameters@)),
{
    let ghost all = parameters_view(parameters@);
    let mut i: usize = parameters.len();
    assert(all.take(i as int) =~= all);
    while i > 0
        invariant
            i <= parameters.len(),
            all == parameters_view(parameters@),
            parallelism_of(all) == parallelism_of(all.take(i as int)),
        decreases i,
    {
        i -= 1;
        proof {
            let front = all.take(i + 1);
            assert(front.last() == parameters@[i as int]@);
            assert(front.drop_last() =~= all.take(i as int));
        }
        if same_text(parameters[i].name.as_str(), "p") {
            return parameters[i].decimal;
        }
    }
    assert(all.take(0).len() == 0);
    None
}

/// Whether a parallelism is beyond Argon2's maximum.
pub fn is_beyond_maximum(parallelism: Option<u32>) -> (r: bool)
    ensures
        r == beyond_maximum(parallelism),
{
    match parallelism {
        Some(p) => p > MAX_PARALLELISM,
        None => false,
    }
}

/// Accepts or refuses what the hashing crate returned for `password`.
///
/// A derived text is handed on, except one equal to the password itself: a
/// stored hash never is the plaintext. Every failure becomes `HashingError`.
pub fn accept_hash(password: &str, derived: Result<String, argon2::password_hash::Error>) -> (r:
    Result<String, ApiError>)
    ensures
        text_result(r) == hashing_result(
            password@,
            match derived {
                Ok(h) => Some(h@),
                Err(_) => None,
            },
        ),
{
    match derived {
        Ok(h) => {
            if same_text(h.as_str(), password) {
                Err(ApiError::HashingError)
            } else {
                Ok(h)
            }
        },
        Err(e) => Err(ApiError::from(e)),
    }
}

/// Hashes `password` with the given B64 salt.
///
/// The result is `Ok` exactly where Argon2 derives a text from the two and
/// that text differs from the password; it then verifies against `password`.
pub fn hash_password_with_salt(password: &str, salt: &str) -> (r: Result<String, ApiError>)
    ensures
        text_result(r) == hashing_result(password@, argon2_phc(password@, salt@)),
        r matches Ok(h) ==> verification(password@, h@) == Ok::<bool, ApiError>(true),
{
    let derived = argon2_hash(password, salt);
    accept_hash(password, derived)
}

/// Hashes `password` with a fresh random salt.
///
/// Whatever salt was drawn: a returned hash was derived from `password` and
/// a salt of sixteen bytes, is not the password, and verifies against it; the
/// only failure is `HashingError`.
pub fn hash_password(password: &str) -> (r: Result<String, ApiError>)
    ensures
        exists|salt: Seq<char>|
            is_fresh_salt(salt) && text_result(r) == hashing_result(
                password@,
                #[trigger] argon2_phc(password@, salt),
            ),
        r matches Ok(h) ==> h@ != password@,
        r matches Ok(h) ==> verification(password@, h@) == Ok::<bool, ApiError>(true),
        r matches Err(e) ==> e == ApiError::HashingError,
{
    let salt = fresh_salt();
    hash_password_with_salt(password, salt.as_str())
}

/// Checks `password` against an encoded hash.
///
/// `Ok(true)` on a match, `Ok(false)` on a mismatch, and `HashingError` where
/// `hash` does not parse as an encoded hash: a corrupt stored hash is told
/// apart from a wrong password. A hash whose parallelism is beyond Argon2's
/// maximum matches no password.
pub fn verify_password(password: &str, hash: &str) -> (r: Result<bool, ApiError>)
    ensures
        r == verification(password@, hash@),
{
    let parameters = match phc_parameters(hash) {
        Ok(parameters) => parameters,
        Err(e) => {
            return Err(ApiError::from(e));
        },
    };
    if is_beyond_maximum(parallelism(&parameters)) {
        return Ok(false);
    }
    match argon2_check(password, hash) {
        Ok(b) => Ok(b),
        Err(e) => Err(ApiError::from(e)),
    }
}

} // verus!
