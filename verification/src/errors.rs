//! The closed set of failures that a request can end in.

use vstd::prelude::*;

verus! {

/// `validator::ValidationError`: carried along, never looked into.
#[verifier::external_type_specification]
#[verifier::external_body]
pub struct ExValidationError(validator::ValidationError);

/// An unexpected failure. Its text is for the server's log.
#[derive(Debug)]
pub struct InternalError {
    message: String,
}

impl InternalError {
    /// The text that describes the failure.
    pub closed spec fn text(self) -> Seq<char> {
        self.message@
    }

    /// A failure described by `message`.
    pub fn new(message: String) -> (err: InternalError)
        ensures
            err.text() == message@,
    {
        InternalError { message }
    }

    /// The text that describes the failure.
    pub fn message(&self) -> (text: &str)
        ensures
            text@ == self.text(),
    {
        self.message.as_str()
    }
}

/// How a request fails. The caller is shown the kind, and what the kind carries.
#[derive(Debug)]
pub enum AppError {
    NotFound(String),
    BadRequest(String),
    ValidationError(validator::ValidationError),
    AuthorizationError(String),
    InternalError(InternalError),
}

/// Why a token was turned down, as far as the reason shown to the caller depends on it.
#[derive(Debug, Clone, Copy, PartialEq, Eq)]
pub enum TokenFailure {
    ExpiredSignature,
    InvalidToken,
    InvalidIssuer,
    InvalidAudience,
    Other,
}

/// Why a database call failed, as far as the answer to the caller depends on it.
#[derive(Debug, Clone, PartialEq, Eq)]
pub enum DatabaseFailure {
    RowNotFound,
    Other(String),
}

/// The reason that the caller is shown for a token that was turned down.
pub open spec fn token_failure_reason(kind: TokenFailure) -> Seq<char> {
    match kind {
        TokenFailure::ExpiredSignature => "Token expired"@,
        TokenFailure::InvalidToken => "Invalid token"@,
        TokenFailure::InvalidIssuer => "Invalid issuer"@,
        TokenFailure::InvalidAudience => "Invalid audience"@,
        TokenFailure::Other => "Invalid token"@,
    }
}

impl AppError {
    /// The request is turned down as unauthorized, with `reason` shown to the caller.
    pub open spec fn is_authorization(self, reason: Seq<char>) -> bool {
        self matches AppError::AuthorizationError(shown) && shown@ == reason
    }

    /// The request fails for a cause that is not the caller's, described by `text`.
    pub open spec fn is_internal(self, text: Seq<char>) -> bool {
        self matches AppError::InternalError(inner) && inner.text() == text
    }

    /// The request asks for something that is not there, described by `what`.
    pub open spec fn is_not_found(self, what: Seq<char>) -> bool {
        self matches AppError::NotFound(shown) && shown@ == what
    }

    /// `shown` is what the caller is shown of this failure: the failure
    /// itself, but of an internal failure no more than that there was one.
    pub open spec fn shown_as(self, shown: AppError) -> bool {
        match self {
            AppError::InternalError(_) => shown.is_internal("Internal server error"@),
            _ => shown == self,
        }
    }

    /// The HTTP status that stands for each kind of failure.
    pub open spec fn status(self) -> int {
        match self {
            AppError::NotFound(_) => 404,
            AppError::BadRequest(_) => 400,
            AppError::ValidationError(_) => 400,
            AppError::AuthorizationError(_) => 401,
            AppError::InternalError(_) => 500,
        }
    }

    /// The HTTP status under which the failure is sent.
    pub fn status_code(&self) -> (code: u16)
        ensures
            code == self.status(),
    {
        match self {
            AppError::NotFound(_) => 404,
            AppError::BadRequest(_) => 400,
            AppError::ValidationError(_) => 400,
            AppError::AuthorizationError(_) => 401,
            AppError::InternalError(_) => 500,
        }
    }

    /// A refusal as unauthorized, with `reason` shown to the caller.
    pub fn unauthorized(reason: &str) -> (err: AppError)
        ensures
            err.is_authorization(reason@),
    {
        AppError::AuthorizationError(reason.to_string())
    }

    /// An internal failure described by `text`.
    pub fn internal(text: String) -> (err: AppError)
        ensures
            err.is_internal(text@),
    {
        AppError::InternalError(InternalError::new(text))
    }

    /// What the caller is shown of the failure. The text of an internal
    /// failure is for the log and is not shown.
    pub fn for_caller(self) -> (shown: AppError)
        ensures
            self.shown_as(shown),
            shown.status() == self.status(),
    {
        match self {
            AppError::InternalError(_) => AppError::internal("Internal server error".to_string()),
            other => other,
        }
    }

    /// A token that was turned down is always an authorization failure; an
    /// expired token, a wrong issuer and a wrong audience each have a reason
    /// of their own, everything else reads "Invalid token".
    pub fn from_token_failure(kind: TokenFailure) -> (err: AppError)
        ensures
            err.is_authorization(token_failure_reason(kind)),
    {
        match kind {
            TokenFailure::ExpiredSignature => AppError::unauthorized("Token expired"),
            TokenFailure::InvalidToken => AppError::unauthorized("Invalid token"),
            TokenFailure::InvalidIssuer => AppError::unauthorized("Invalid issuer"),
            TokenFailure::InvalidAudience => AppError::unauthorized("Invalid audience"),
            TokenFailure::Other => AppError::unauthorized("Invalid token"),
        }
    }

    /// A missing row is the caller's "not found"; any other database failure is internal.
    pub fn from_database_failure(failure: DatabaseFailure) -> (err: AppError)
        ensures
            match failure {
                DatabaseFailure::RowNotFound => err.is_not_found("Resource not found"@),
                DatabaseFailure::Other(text) => err.is_internal(text@),
            },
    {
        match failure {
            DatabaseFailure::RowNotFound => AppError::NotFound("Resource not found".to_string()),
            DatabaseFailure::Other(text) => AppError::internal(text),
        }
    }
}

/// The reasons shown for an expired token, a wrong issuer and a wrong
/// audience differ from each other and from the two reasons that say no more
/// than that the token is not accepted.
pub proof fn lemma_specific_reasons_stand_apart()
    ensures
        token_failure_reason(TokenFailure::ExpiredSignature) != token_failure_reason(
            TokenFailure::InvalidIssuer,
        ),
        token_failure_reason(TokenFailure::ExpiredSignature) != token_failure_reason(
            TokenFailure::InvalidAudience,
        ),
        token_failure_reason(TokenFailure::InvalidIssuer) != token_failure_reason(
            TokenFailure::InvalidAudience,
        ),
        forall|kind: TokenFailure|
            kind is ExpiredSignature || kind is InvalidIssuer || kind is InvalidAudience ==> {
                &&& #[trigger] token_failure_reason(kind) != "Invalid token"@
                &&& token_failure_reason(kind) != "Unauthorized"@
                &&& token_failure_reason(kind) != "Invalid bearer token"@
            },
{
    reveal_strlit("Token expired");
    reveal_strlit("Invalid token");
    reveal_strlit("Invalid issuer");
    reveal_strlit("Invalid audience");
    reveal_strlit("Unauthorized");
    reveal_strlit("Invalid bearer token");
    assert("Token expired"@[0] == 'T');
    assert("Invalid token"@[8] == 't');
    assert("Invalid issuer"@[8] == 'i');
    assert("Invalid audience"@[8] == 'a');
    assert("Unauthorized"@[0] == 'U');
    assert("Invalid bearer token"@[8] == 'b');
}

/// Every kind of failure has one status, and only a failure that is not the
/// caller's is answered with a server error.
pub proof fn lemma_status_follows_kind(err: AppError)
    ensures
        err.status() == 404 <==> err is NotFound,
        err.status() == 400 <==> err is BadRequest || err is ValidationError,
        err.status() == 401 <==> err is AuthorizationError,
        err.status() == 500 <==> err is InternalError,
{
}

} // verus!
