use auth_core::error::ApiError;
use auth_core::password::{
    accept_hash, hash_password, hash_password_with_salt, is_beyond_maximum, parallelism,
    verify_password, HashParameter, MAX_PARALLELISM,
};

const SALT: &str = "c29tZXNhbHR2YWx1ZQ";
const HUNTER42: &str =
    "$argon2id$v=19$m=19456,t=2,p=1$c29tZXNhbHR2YWx1ZQ$A4+GeoKtWBIJ/2bjJS1hm4zTew8rEFFPce24cXKvfP8";

#[test]
fn hashed_password_verifies() {
    let hash = hash_password("correct horse").unwrap();
    assert_eq!(verify_password("correct horse", &hash), Ok(true));
}

#[test]
fn other_password_does_not_verify() {
    let hash = hash_password("correct horse").unwrap();
    assert_eq!(verify_password("battery staple", &hash), Ok(false));
}

#[test]
fn two_hashes_of_one_password_differ_and_both_verify() {
    let first = hash_password("same password").unwrap();
    let second = hash_password("same password").unwrap();
    assert_ne!(first, second);
    assert_eq!(verify_password("same password", &first), Ok(true));
    assert_eq!(verify_password("same password", &second), Ok(true));
}

#[test]
fn hash_is_self_contained_and_not_the_password() {
    let hash = hash_password("hunter42").unwrap();
    assert_ne!(hash, "hunter42");
    assert!(hash.starts_with("$argon2id$v=19$"));
    assert_eq!(hash.split('$').count(), 6);
}

#[test]
fn hash_with_given_salt_is_the_known_text() {
    assert_eq!(hash_password_with_salt("hunter42", SALT), Ok(HUNTER42.to_string()));
}

#[test]
fn known_hash_verifies_only_its_password() {
    assert_eq!(verify_password("hunter42", HUNTER42), Ok(true));
    assert_eq!(verify_password("hunter43", HUNTER42), Ok(false));
    assert_eq!(verify_password("", HUNTER42), Ok(false));
}

#[test]
fn same_salt_gives_same_hash_and_other_salt_another() {
    let first = hash_password_with_salt("pw", SALT).unwrap();
    let second = hash_password_with_salt("pw", SALT).unwrap();
    let third = hash_password_with_salt("pw", "YW5vdGhlcnNhbHQxMjM0").unwrap();
    assert_eq!(first, second);
    assert_ne!(first, third);
}

#[test]
fn refused_salt_is_a_hashing_error() {
    assert_eq!(hash_password_with_salt("pw", ""), Err(ApiError::HashingError));
    assert_eq!(hash_password_with_salt("pw", "abc"), Err(ApiError::HashingError));
    assert_eq!(hash_password_with_salt("pw", "not a salt!"), Err(ApiError::HashingError));
}

#[test]
fn malformed_hash_is_a_hashing_error_not_a_mismatch() {
    assert_eq!(verify_password("pw", ""), Err(ApiError::HashingError));
    assert_eq!(verify_password("pw", "pw"), Err(ApiError::HashingError));
    assert_eq!(verify_password("pw", "argon2id$v=19$m=19456"), Err(ApiError::HashingError));
}

#[test]
fn well_formed_hash_of_another_scheme_is_a_mismatch() {
    assert_eq!(verify_password("pw", "$unknown$c29tZXNhbHR2YWx1ZQ$AAAAAAAAAAAAAAAA"), Ok(false));
}

#[test]
fn empty_password_hashes_and_verifies() {
    let hash = hash_password_with_salt("", SALT).unwrap();
    assert_eq!(verify_password("", &hash), Ok(true));
    assert_eq!(verify_password("x", &hash), Ok(false));
}

#[test]
fn accept_hash_hands_a_derived_text_on() {
    assert_eq!(accept_hash("pw", Ok("$argon2id$x".to_string())), Ok("$argon2id$x".to_string()));
}

#[test]
fn accept_hash_refuses_the_plaintext_and_every_failure() {
    assert_eq!(accept_hash("pw", Ok("pw".to_string())), Err(ApiError::HashingError));
    assert_eq!(
        accept_hash("pw", Err(argon2::password_hash::Error::Password)),
        Err(ApiError::HashingError)
    );
    assert_eq!(
        ApiError::from(argon2::password_hash::Error::PhcStringField),
        ApiError::HashingError
    );
}

fn with_parameters(parameters: &str) -> String {
    format!(
        "$argon2id$v=19${}$c29tZXNhbHR2YWx1ZQ$A4+GeoKtWBIJ/2bjJS1hm4zTew8rEFFPce24cXKvfP8",
        parameters
    )
}

fn parameter(name: &str, decimal: Option<u32>) -> HashParameter {
    HashParameter { name: name.to_string(), decimal }
}

#[test]
fn hash_with_a_parallelism_beyond_the_maximum_matches_no_password() {
    for p in ["16777216", "536870911", "536870912", "536870913", "1073741824", "4294967295"] {
        let hash = with_parameters(&format!("m=19456,t=2,p={}", p));
        assert_eq!(verify_password("hunter42", &hash), Ok(false), "p={}", p);
        assert_eq!(verify_password("pw", &hash), Ok(false), "p={}", p);
    }
}

#[test]
fn hash_that_names_the_parallelism_twice_goes_by_the_last() {
    let ends_beyond = with_parameters("m=19456,t=2,p=1,p=536870912");
    assert_eq!(verify_password("hunter42", &ends_beyond), Ok(false));
    let ends_within = with_parameters("m=19456,t=2,p=536870912,p=1");
    assert_eq!(verify_password("hunter42", &ends_within), Ok(true));
    assert_eq!(verify_password("hunter43", &ends_within), Ok(false));
}

#[test]
fn hash_with_the_largest_parallelism_is_a_mismatch() {
    let hash = with_parameters("m=19456,t=2,p=16777215");
    assert_eq!(verify_password("hunter42", &hash), Ok(false));
}

#[test]
fn hash_of_another_scheme_with_a_parallelism_beyond_the_maximum_is_a_mismatch() {
    assert_eq!(
        verify_password("pw", "$unknown$p=536870912$c29tZXNhbHR2YWx1ZQ$AAAAAAAAAAAAAAAA"),
        Ok(false)
    );
}

#[test]
fn hash_with_parameters_that_are_no_numbers_is_a_mismatch() {
    for parameters in ["m=19456,t=2,p=x", "m=19456,t=2,p=01", "m=19456,t=2,p=4294967296", "p=536870912,p=x"] {
        assert_eq!(verify_password("hunter42", &with_parameters(parameters)), Ok(false));
    }
}

#[test]
fn text_that_is_no_hash_stays_a_hashing_error_whatever_its_parallelism() {
    assert_eq!(verify_password("pw", "p=536870912"), Err(ApiError::HashingError));
    assert_eq!(verify_password("pw", "$argon2id$p=536870912,,$x"), Err(ApiError::HashingError));
}

#[test]
fn fresh_hash_has_parallelism_one() {
    let hash = hash_password("hunter42").unwrap();
    assert!(hash.contains("$m=19456,t=2,p=1$"));
    assert_eq!(verify_password("hunter42", &hash), Ok(true));
}

#[test]
fn parallelism_is_the_number_of_the_last_parameter_named_p() {
    assert_eq!(parallelism(&vec![]), None);
    assert_eq!(parallelism(&vec![parameter("m", Some(8)), parameter("t", Some(2))]), None);
    assert_eq!(parallelism(&vec![parameter("m", Some(8)), parameter("p", Some(4))]), Some(4));
    assert_eq!(parallelism(&vec![parameter("p", Some(4)), parameter("m", Some(8))]), Some(4));
    assert_eq!(parallelism(&vec![parameter("p", Some(4)), parameter("p", Some(9))]), Some(9));
    assert_eq!(parallelism(&vec![parameter("p", Some(4)), parameter("p", None)]), None);
    assert_eq!(parallelism(&vec![parameter("p", None), parameter("p", Some(4))]), Some(4));
    assert_eq!(parallelism(&vec![parameter("P", Some(4)), parameter("pp", Some(5))]), None);
}

#[test]
fn maximum_parallelism_is_two_to_the_twenty_four_less_one() {
    assert_eq!(MAX_PARALLELISM, 16_777_215);
    assert!(!is_beyond_maximum(None));
    assert!(!is_beyond_maximum(Some(0)));
    assert!(!is_beyond_maximum(Some(1)));
    assert!(!is_beyond_maximum(Some(16_777_215)));
    assert!(is_beyond_maximum(Some(16_777_216)));
    assert!(is_beyond_maximum(Some(u32::MAX)));
}

#[test]
fn fresh_salt_is_twenty_two_characters_of_the_alphabet() {
    let hash = hash_password("hunter42").unwrap();
    let fields: Vec<&str> = hash.split('$').collect();
    let salt = fields[4];
    assert_eq!(salt.len(), 22);
    assert!(salt.chars().all(|c| c.is_ascii_alphanumeric() || c == '+' || c == '/'));
    assert_eq!(hash_password_with_salt("hunter42", salt), Ok(hash));
}
