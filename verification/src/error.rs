//! The failures that an authentication operation can end in.

use vstd::prelude::*;

verus! {

/// One kind of failure; every operation that fails reports exactly one.
#[derive(Clone, Copy, Debug, PartialEq, Eq, Structural)]
pub enum ApiError {
    /// The username is already registered.
    UserExists,
    /// Unknown user or wrong password; the two are deliberately not told apart.
    InvalidCredentials,
    /// The token is malformed, wrongly signed, expired or of the wrong type.
    InvalidToken,
    /// The password digest could not be computed, or a stored hash is corrupt.
    HashingError,
    /// The signing secret is absent or unusable.
    ConfigurationError,
    /// The credential store failed for a reason other than uniqueness.
    StoreError,
}

/// The status of a response that reports a failure of the environment.
pub const SERVER_FAILURE: u16 = 500;

impl ApiError {
    /// The message of the failure.
    pub open spec fn spec_message(self) -> Seq<char> {
        match self {
            ApiError::UserExists => "User already exists"@,
            ApiError::InvalidCredentials => "Invalid credentials"@,
            ApiError::InvalidToken => "Invalid token"@,
            ApiError::HashingError => "Password hashing error"@,
            ApiError::ConfigurationError => "Configuration error"@,
            ApiError::StoreError => "Credential store error"@,
        }
    }

    /// The message of the failure, as text to show.
    pub fn message(self) -> (r: String)
        ensures
            r@ == self.spec_message(),
    {
        match self {
            ApiError::UserExists => "User already exists".to_owned(),
            ApiError::InvalidCredentials => "Invalid credentials".to_owned(),
            ApiError::InvalidToken => "Invalid token".to_owned(),
            ApiError::HashingError => "Password hashing error".to_owned(),
            ApiError::ConfigurationError => "Configuration error".to_owned(),
            ApiError::StoreError => "Credential store error".to_owned(),
        }
    }

    /// Whether the failure is the caller's doing (a rejection) rather than
    /// a problem of the environment the service runs in.
    pub open spec fn spec_is_rejection(self) -> bool {
        self is UserExists || self is InvalidCredentials || self is InvalidToken
    }

    /// Rejections are answered to the client as such; every other failure is
    /// reported as a generic server-side failure.
    #[verifier::when_used_as_spec(spec_is_rejection)]
    pub fn is_rejection(self) -> (r: bool)
        ensures
            r == self.spec_is_rejection(),
    {
        match self {
            ApiError::UserExists | ApiError::InvalidCredentials | ApiError::InvalidToken => true,
            ApiError::HashingError | ApiError::ConfigurationError | ApiError::StoreError => false,
        }
    }

    /// The HTTP status that reports the failure: conflict for a taken
    /// username, unauthorized for bad credentials or a bad token, and the one
    /// status of a server-side failure for everything else.
    pub open spec fn spec_status(self) -> u16 {
        match self {
            ApiError::UserExists => 409,
            ApiError::InvalidCredentials => 401,
            ApiError::InvalidToken => 401,
            ApiError::HashingError => SERVER_FAILURE,
            ApiError::ConfigurationError => SERVER_FAILURE,
            ApiError::StoreError => SERVER_FAILURE,
        }
    }

    /// The HTTP status that reports the failure: a client error exactly for
    /// the rejections.
    pub fn status(self) -> (r: u16)
        ensures
            r == self.spec_status(),
            self.spec_is_rejection() <==> 400 <= r < 500,
            !self.spec_is_rejection() <==> r == SERVER_FAILURE,
    {
        match self {
            ApiError::UserExists => 409,
            ApiError::InvalidCredentials | ApiError::InvalidToken => 401,
            ApiError::HashingError | ApiError::ConfigurationError | ApiError::StoreError => {
                SERVER_FAILURE
            },
        }
    }

    /// The text that a response shows of the failure: its message for a
    /// rejection, and one generic text for every server-side failure, which
    /// tells the client nothing of the environment.
    pub open spec fn spec_response_text(self) -> Seq<char> {
        if self.spec_is_rejection() {
            self.spec_message()
        } else {
            "Internal server error"@
        }
    }

    /// The text that a response shows of the failure.
    pub fn response_text(self) -> (r: String)
        ensures
            r@ == self.spec_response_text(),
    {
        if self.is_rejection() {
            self.message()
        } else {
            "Internal server error".to_owned()
        }
    }
}

/// A result that holds a text, with the text taken by its view.
pub open spec fn text_result(r: Result<String, ApiError>) -> Result<Seq<char>, ApiError> {
    match r {
        Ok(s) => Ok(s@),
        Err(e) => Err(e),
    }
}

} // verus!
