//! The failures a request can end in, and how each is answered.

use crate::errors::auth_error::{auth_error_text, AuthError};
use crate::errors::config_error::{config_error_text, ConfigError};
use crate::errors::export_error::{export_error_text, ExportError};
use crate::validations::{error_lines, ValidationErrors};
use vstd::prelude::*;
use vstd::string::*;

verus! {

/// Every way a request can fail. Variants that wrap a failure of a
/// collaborator carry its description.
#[derive(Clone, Debug, PartialEq, Eq)]
pub enum ApiError {
    /// The relational store failed.
    DatabaseError(String),
    /// The request broke one or more input rules.
    ValidationError(ValidationErrors),
    /// Hashing a password failed.
    EncryptionError(String),
    /// A token could not be issued or did not verify.
    JWTError(String),
    /// A ticket could not be rendered.
    ExportError(ExportError),
    /// The HTTP layer failed.
    ServerError(String),
    /// The `Authorization` header could not be used.
    AuthError(AuthError),
    /// The process configuration is missing or malformed.
    ConfigError(ConfigError),
    NotFound,
    AlreadyExists,
    NotModified,
    Unauthorized,
    WrongPassword,
}

/// The body of an error answer.
#[derive(Clone, Debug, PartialEq, Eq)]
pub struct ErrorResponse {
    pub code: String,
    pub message: String,
    pub details: Option<String>,
}

/// The message of each failure.
pub open spec fn api_error_text(error: ApiError) -> Seq<char> {
    match error {
        ApiError::DatabaseError(cause) => "An error occurred while connecting to the database: "@
            + cause@,
        ApiError::ValidationError(errors) => "One or more validation errors occurred: "@
            + error_lines(errors@),
        ApiError::EncryptionError(cause) => "One or more encryption errors occurred: "@ + cause@,
        ApiError::JWTError(cause) => "One or more JWT errors occurred: "@ + cause@,
        ApiError::ExportError(cause) => "One or more export errors occurred: "@
            + export_error_text(cause),
        ApiError::ServerError(cause) => "One or more server errors occurred: "@ + cause@,
        ApiError::AuthError(cause) => "One or more auth errors occurred: "@ + auth_error_text(
            cause,
        ),
        ApiError::ConfigError(cause) => "One or more config errors occurred: "@
            + config_error_text(cause),
        ApiError::NotFound => "The provided data does not correspond to any existing resource."@,
        ApiError::AlreadyExists => "A resource with the provided name already exists."@,
        ApiError::NotModified => "No updates were made for the provided ID."@,
        ApiError::Unauthorized => "You are not allowed to continue."@,
        ApiError::WrongPassword => "Incorrect password! Try again."@,
    }
}

/// The HTTP status that answers each failure: 400 for a request that breaks
/// the input rules, 401 for a caller who is not let in, whether for the
/// token, the account or the password, 404 and 409 for what is not there or
/// is there already, 304 for a change of nothing, and 500 for a collaborator
/// that failed.
pub open spec fn status_of(error: ApiError) -> int {
    match error {
        ApiError::ValidationError(_) => 400,
        ApiError::AuthError(_) => 401,
        ApiError::Unauthorized => 401,
        ApiError::WrongPassword => 401,
        ApiError::NotFound => 404,
        ApiError::NotModified => 304,
        ApiError::AlreadyExists => 409,
        ApiError::DatabaseError(_) => 500,
        ApiError::EncryptionError(_) => 500,
        ApiError::JWTError(_) => 500,
        ApiError::ExportError(_) => 500,
        ApiError::ServerError(_) => 500,
        ApiError::ConfigError(_) => 500,
    }
}

/// The machine-readable code of each failure.
pub open spec fn code_of(error: ApiError) -> Seq<char> {
    match error {
        ApiError::DatabaseError(_) => "DATABASE_ERROR"@,
        ApiError::ValidationError(_) => "VALIDATION_ERROR"@,
        ApiError::EncryptionError(_) => "ENCRYPT_ERROR"@,
        ApiError::JWTError(_) => "JWT_ERROR"@,
        ApiError::ExportError(_) => "EXPORT_ERROR"@,
        ApiError::ServerError(_) => "SERVER_ERROR"@,
        ApiError::AuthError(_) => "AUTH_ERROR"@,
        ApiError::ConfigError(_) => "CONFIG_ERROR"@,
        ApiError::NotFound => "NOT_FOUND"@,
        ApiError::Unauthorized => "UNAUTHORIZED"@,
        ApiError::WrongPassword => "WRONG_PASSWORD"@,
        ApiError::NotModified => "NOT_MODIFIED"@,
        ApiError::AlreadyExists => "ALREADY_EXISTS"@,
    }
}

/// The sentence shown to the user for each failure.
pub open spec fn message_of(error: ApiError) -> Seq<char> {
    match error {
        ApiError::DatabaseError(_) => "An unexpected database error occurred."@,
        ApiError::ValidationError(_) => "One or more validation errors occurred."@,
        ApiError::EncryptionError(_) => "One or more encryption errors occurred."@,
        ApiError::JWTError(_) => "One or more JWT errors occurred."@,
        ApiError::ExportError(_) => "One or more export errors occurred."@,
        ApiError::ServerError(_) => "One or more server errors occurred."@,
        ApiError::AuthError(_) => "One or more auth errors occurred."@,
        ApiError::ConfigError(_) => "One or more config errors occurred."@,
        ApiError::NotFound => "The data provided does not exist."@,
        ApiError::Unauthorized => "You are not allowed to continue."@,
        ApiError::WrongPassword => "Incorrect password! Try again."@,
        ApiError::NotModified => "No updates were made for the provided ID."@,
        ApiError::AlreadyExists => "A resource with the provided details already exists."@,
    }
}

/// What is added to the sentence. A failure of the store is never described
/// to the user; a failure of another collaborator is shown as that
/// collaborator described it; the rest get a fixed hint.
pub open spec fn details_of(error: ApiError) -> Seq<char> {
    match error {
        ApiError::DatabaseError(_) => "Please try again later or contact support."@,
        ApiError::ValidationError(errors) => error_lines(errors@),
        ApiError::EncryptionError(cause) => cause@,
        ApiError::JWTError(cause) => cause@,
        ApiError::ExportError(cause) => export_error_text(cause),
        ApiError::ServerError(cause) => cause@,
        ApiError::AuthError(cause) => auth_error_text(cause),
        ApiError::ConfigError(cause) => config_error_text(cause),
        ApiError::NotFound => "Please check if the data is correct and try again."@,
        ApiError::Unauthorized => "Please try again later."@,
        ApiError::WrongPassword => "Please try again."@,
        ApiError::NotModified =>
            "The provided ID may not exist, or no fields were changed. Please verify the ID and the update values."@,
        ApiError::AlreadyExists => "Please choose a different name."@,
    }
}

impl ApiError {
    /// The message of this failure, as it is logged.
    pub fn to_string(&self) -> (text: String)
        ensures
            text@ == api_error_text(*self),
    {
        match self {
            ApiError::DatabaseError(cause) => String::from_str(
                "An error occurred while connecting to the database: ",
            ).concat(cause.as_str()),
            ApiError::ValidationError(errors) => String::from_str(
                "One or more validation errors occurred: ",
            ).concat(errors.to_string().as_str()),
            ApiError::EncryptionError(cause) => String::from_str(
                "One or more encryption errors occurred: ",
            ).concat(cause.as_str()),
            ApiError::JWTError(cause) => String::from_str(
                "One or more JWT errors occurred: ",
            ).concat(cause.as_str()),
            ApiError::ExportError(cause) => String::from_str(
                "One or more export errors occurred: ",
            ).concat(cause.to_string().as_str()),
            ApiError::ServerError(cause) => String::from_str(
                "One or more server errors occurred: ",
            ).concat(cause.as_str()),
            ApiError::AuthError(cause) => String::from_str(
                "One or more auth errors occurred: ",
            ).concat(cause.to_string().as_str()),
            ApiError::ConfigError(cause) => String::from_str(
                "One or more config errors occurred: ",
            ).concat(cause.to_string().as_str()),
            ApiError::NotFound => String::from_str(
                "The provided data does not correspond to any existing resource.",
            ),
            ApiError::AlreadyExists => String::from_str(
                "A resource with the provided name already exists.",
            ),
            ApiError::NotModified => String::from_str("No updates were made for the provided ID."),
            ApiError::Unauthorized => String::from_str("You are not allowed to continue."),
            ApiError::WrongPassword => String::from_str("Incorrect password! Try again."),
        }
    }

    /// The HTTP status that answers this failure.
    pub fn status_code(&self) -> (status: u16)
        ensures
            status == status_of(*self),
    {
        match self {
            ApiError::ValidationError(_) => 400,
            ApiError::AuthError(_) | ApiError::Unauthorized | ApiError::WrongPassword => 401,
            ApiError::NotFound => 404,
            ApiError::NotModified => 304,
            ApiError::AlreadyExists => 409,
            ApiError::DatabaseError(_)
            | ApiError::EncryptionError(_)
            | ApiError::JWTError(_)
            | ApiError::ExportError(_)
            | ApiError::ServerError(_)
            | ApiError::ConfigError(_) => 500,
        }
    }

    /// The machine-readable code of this failure.
    pub fn code(&self) -> (code: String)
        ensures
            code@ == code_of(*self),
    {
        match self {
            ApiError::DatabaseError(_) => String::from_str("DATABASE_ERROR"),
            ApiError::ValidationError(_) => String::from_str("VALIDATION_ERROR"),
            ApiError::EncryptionError(_) => String::from_str("ENCRYPT_ERROR"),
            ApiError::JWTError(_) => String::from_str("JWT_ERROR"),
            ApiError::ExportError(_) => String::from_str("EXPORT_ERROR"),
            ApiError::ServerError(_) => String::from_str("SERVER_ERROR"),
            ApiError::AuthError(_) => String::from_str("AUTH_ERROR"),
            ApiError::ConfigError(_) => String::from_str("CONFIG_ERROR"),
            ApiError::NotFound => String::from_str("NOT_FOUND"),
            ApiError::Unauthorized => String::from_str("UNAUTHORIZED"),
            ApiError::WrongPassword => String::from_str("WRONG_PASSWORD"),
            ApiError::NotModified => String::from_str("NOT_MODIFIED"),
            ApiError::AlreadyExists => String::from_str("ALREADY_EXISTS"),
        }
    }

    /// The sentence shown to the user for this failure.
    pub fn message(&self) -> (message: String)
        ensures
            message@ == message_of(*self),
    {
        match self {
            ApiError::DatabaseError(_) => String::from_str(
                "An unexpected database error occurred.",
            ),
            ApiError::ValidationError(_) => String::from_str(
                "One or more validation errors occurred.",
            ),
            ApiError::EncryptionError(_) => String::from_str(
                "One or more encryption errors occurred.",
            ),
            ApiError::JWTError(_) => String::from_str("One or more JWT errors occurred."),
            ApiError::ExportError(_) => String::from_str("One or more export errors occurred."),
            ApiError::ServerError(_) => String::from_str("One or more server errors occurred."),
            ApiError::AuthError(_) => String::from_str("One or more auth errors occurred."),
            ApiError::ConfigError(_) => String::from_str("One or more config errors occurred."),
            ApiError::NotFound => String::from_str("The data provided does not exist."),
            ApiError::Unauthorized => String::from_str("You are not allowed to continue."),
            ApiError::WrongPassword => String::from_str("Incorrect password! Try again."),
            ApiError::NotModified => String::from_str("No updates were made for the provided ID."),
            ApiError::AlreadyExists => String::from_str(
                "A resource with the provided details already exists.",
            ),
        }
    }

    /// What is added to the sentence for this failure.
    pub fn details(&self) -> (details: String)
        ensures
            details@ == details_of(*self),
    {
        match self {
            ApiError::DatabaseError(_) => String::from_str(
                "Please try again later or contact support.",
            ),
            ApiError::ValidationError(errors) => errors.to_string(),
            ApiError::EncryptionError(cause) => cause.clone(),
            ApiError::JWTError(cause) => cause.clone(),
            ApiError::ExportError(cause) => cause.to_string(),
            ApiError::ServerError(cause) => cause.clone(),
            ApiError::AuthError(cause) => cause.to_string(),
            ApiError::ConfigError(cause) => cause.to_string(),
            ApiError::NotFound => String::from_str(
                "Please check if the data is correct and try again.",
            ),
            ApiError::Unauthorized => String::from_str("Please try again later."),
            ApiError::WrongPassword => String::from_str("Please try again."),
            ApiError::NotModified => String::from_str(
                "The provided ID may not exist, or no fields were changed. Please verify the ID and the update values.",
            ),
            ApiError::AlreadyExists => String::from_str("Please choose a different name."),
        }
    }

    /// The answer to a request that failed: the HTTP status and the body.
    pub fn into_response(self) -> (response: (u16, ErrorResponse))
        ensures
            response.0 == status_of(self),
            response.1.code@ == code_of(self),
            response.1.message@ == message_of(self),
            response.1.details matches Some(details) && details@ == details_of(self),
    {
        let body = ErrorResponse {
            code: self.code(),
            message: self.message(),
            details: Some(self.details()),
        };
        (self.status_code(), body)
    }
}

} // verus!
