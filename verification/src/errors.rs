//! Error and status-message vocabulary shared across the backend.

use vstd::prelude::*;

verus! {

/// Failures reported by the data layer and the request handlers.
#[derive(Debug, Clone, PartialEq)]
pub enum AppError {
    InvalidIdError,
    DataNotFoundError,
    UserNotFoundError,
    DeserializationError,
    DatabaseError,
    AccountNotFoundError,
    CustomError(String),
}

/// The user-facing text of an [`AppError`].
pub open spec fn app_error_text(e: AppError) -> Seq<char> {
    match e {
        AppError::InvalidIdError => "Invalid Id found"@,
        AppError::DataNotFoundError => "Data not found"@,
        AppError::UserNotFoundError => "User not found"@,
        AppError::DeserializationError => "Error while deserialize"@,
        AppError::DatabaseError => "Database Error"@,
        AppError::AccountNotFoundError => "User Account Not Found !"@,
        AppError::CustomError(msg) => msg@,
    }
}

impl AppError {
    /// The text shown to a caller when this error reaches a response body.
    pub fn message(&self) -> (r: String)
        ensures
            r@ == app_error_text(*self),
    {
        match self {
            AppError::InvalidIdError => "Invalid Id found".to_owned(),
            AppError::DataNotFoundError => "Data not found".to_owned(),
            AppError::UserNotFoundError => "User not found".to_owned(),
            AppError::DeserializationError => "Error while deserialize".to_owned(),
            AppError::DatabaseError => "Database Error".to_owned(),
            AppError::AccountNotFoundError => "User Account Not Found !".to_owned(),
            AppError::CustomError(msg) => msg.clone(),
        }
    }
}

/// Status messages used by the success paths of the handlers.
#[derive(Debug, Clone, PartialEq)]
pub enum Messages {
    DataFetchSuccess,
    DataFetchFailed,
    DataAddedSuccess,
    DataUpdateSuccess,
    DataUpdateFailed,
    DataDeleteSucess,
    DataDeleteFailed,
    CustomMessage(String),
}

/// The user-facing text of a [`Messages`] value.
pub open spec fn messages_text(m: Messages) -> Seq<char> {
    match m {
        Messages::DataFetchSuccess => "Data fetch successfully !"@,
        Messages::DataFetchFailed => "Failed to fetch data !"@,
        Messages::DataAddedSuccess => "Data Added successfully !"@,
        Messages::DataUpdateSuccess => "Data Update successfully !"@,
        Messages::DataUpdateFailed => "Failed to update data !"@,
        Messages::DataDeleteSucess => "Data Deleted successfully !"@,
        Messages::DataDeleteFailed => "failed to delete data !"@,
        Messages::CustomMessage(msg) => msg@,
    }
}

impl Messages {
    /// The text carried into a response body for this message.
    pub fn message(&self) -> (r: String)
        ensures
            r@ == messages_text(*self),
    {
        match self {
            Messages::DataFetchSuccess => "Data fetch successfully !".to_owned(),
            Messages::DataFetchFailed => "Failed to fetch data !".to_owned(),
            Messages::DataAddedSuccess => "Data Added successfully !".to_owned(),
            Messages::DataUpdateSuccess => "Data Update successfully !".to_owned(),
            Messages::DataUpdateFailed => "Failed to update data !".to_owned(),
            Messages::DataDeleteSucess => "Data Deleted successfully !".to_owned(),
            Messages::DataDeleteFailed => "failed to delete data !".to_owned(),
            Messages::CustomMessage(msg) => msg.clone(),
        }
    }
}

/// Reasons the authentication gate rejects a request.
#[derive(Debug, Clone, Copy, PartialEq, Eq, Structural)]
pub enum AuthError {
    /// No `Authorization` header on a protected path.
    MissingCredential,
    /// The header is present but its bytes are not a readable string.
    MalformedCredential,
    /// The token's signature does not match its payload.
    InvalidSignature,
    /// The token cannot be parsed into claims.
    Malformed,
    /// The token is structurally valid but past its expiry instant.
    Expired,
}

/// The plain-text body of the 401 response for each rejection reason.
pub open spec fn auth_error_text(e: AuthError) -> Seq<char> {
    match e {
        AuthError::MissingCredential => "Token not found"@,
        AuthError::MalformedCredential => "UnAuthorised Request"@,
        AuthError::InvalidSignature => "InvalidSignature"@,
        AuthError::Malformed => "InvalidToken"@,
        AuthError::Expired => "ExpiredSignature"@,
    }
}

impl AuthError {
    /// The plain-text body sent with the 401 rejection.
    pub fn message(&self) -> (r: String)
        ensures
            r@ == auth_error_text(*self),
    {
        match self {
            AuthError::MissingCredential => "Token not found".to_owned(),
            AuthError::MalformedCredential => "UnAuthorised Request".to_owned(),
            AuthError::InvalidSignature => "InvalidSignature".to_owned(),
            AuthError::Malformed => "InvalidToken".to_owned(),
            AuthError::Expired => "ExpiredSignature".to_owned(),
        }
    }
}

} // verus!
