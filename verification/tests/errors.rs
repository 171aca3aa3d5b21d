use tickify_api::errors::api_error::ApiError;
use tickify_api::errors::auth_error::AuthError;
use tickify_api::errors::config_error::ConfigError;
use tickify_api::errors::export_error::ExportError;
use tickify_api::validations::ValidationErrors;

fn answer(error: ApiError) -> (u16, String, String, Option<String>) {
    let (status, body) = error.into_response();
    (status, body.code, body.message, body.details)
}

#[test]
fn not_found_is_answered_with_404() {
    let (status, code, message, details) = answer(ApiError::NotFound);
    assert_eq!(status, 404);
    assert_eq!(code, "NOT_FOUND");
    assert_eq!(message, "The data provided does not exist.");
    assert_eq!(
        details.as_deref(),
        Some("Please check if the data is correct and try again.")
    );
}

#[test]
fn database_error_hides_its_cause() {
    let (status, code, message, details) =
        answer(ApiError::DatabaseError("connection refused".to_string()));
    assert_eq!(status, 500);
    assert_eq!(code, "DATABASE_ERROR");
    assert_eq!(message, "An unexpected database error occurred.");
    assert_eq!(
        details.as_deref(),
        Some("Please try again later or contact support.")
    );
}

#[test]
fn validation_error_lists_the_broken_rules() {
    let mut errors = ValidationErrors::new();
    errors.add("title", "Title must be between 3 and 50 chars.");
    errors.add("description", "Description must be between 3 and 3000 chars.");
    let (status, code, message, details) = answer(ApiError::ValidationError(errors));
    assert_eq!(status, 400);
    assert_eq!(code, "VALIDATION_ERROR");
    assert_eq!(message, "One or more validation errors occurred.");
    assert_eq!(
        details.as_deref(),
        Some("title: Title must be between 3 and 50 chars.\ndescription: Description must be between 3 and 3000 chars.")
    );
}

#[test]
fn collaborator_errors_show_their_cause() {
    assert_eq!(
        answer(ApiError::EncryptionError("salt invalid".to_string())),
        (
            500,
            "ENCRYPT_ERROR".to_string(),
            "One or more encryption errors occurred.".to_string(),
            Some("salt invalid".to_string())
        )
    );
    assert_eq!(
        answer(ApiError::JWTError("InvalidSignature".to_string())),
        (
            500,
            "JWT_ERROR".to_string(),
            "One or more JWT errors occurred.".to_string(),
            Some("InvalidSignature".to_string())
        )
    );
    assert_eq!(
        answer(ApiError::ServerError("broken pipe".to_string())),
        (
            500,
            "SERVER_ERROR".to_string(),
            "One or more server errors occurred.".to_string(),
            Some("broken pipe".to_string())
        )
    );
    assert_eq!(
        answer(ApiError::ExportError(ExportError::PDFError("bad stream".to_string()))),
        (
            500,
            "EXPORT_ERROR".to_string(),
            "One or more export errors occurred.".to_string(),
            Some("Failed to generate PDF: bad stream".to_string())
        )
    );
    assert_eq!(
        answer(ApiError::ExportError(ExportError::CSVError("bad record".to_string()))),
        (
            500,
            "EXPORT_ERROR".to_string(),
            "One or more export errors occurred.".to_string(),
            Some("Failed to generate CSV: bad record".to_string())
        )
    );
    assert_eq!(
        answer(ApiError::ConfigError(ConfigError::EnvVarNotFound(
            "environment variable not found".to_string()
        ))),
        (
            500,
            "CONFIG_ERROR".to_string(),
            "One or more config errors occurred.".to_string(),
            Some("Failed to load environment variable: environment variable not found".to_string())
        )
    );
}

#[test]
fn auth_errors_are_answered_with_401() {
    assert_eq!(
        answer(ApiError::AuthError(AuthError::MissingToken)),
        (
            401,
            "AUTH_ERROR".to_string(),
            "One or more auth errors occurred.".to_string(),
            Some(
                "Authorization token is missing in the request. Please provide a valid JWT token."
                    .to_string()
            )
        )
    );
    assert_eq!(
        answer(ApiError::Unauthorized),
        (
            401,
            "UNAUTHORIZED".to_string(),
            "You are not allowed to continue.".to_string(),
            Some("Please try again later.".to_string())
        )
    );
}

#[test]
fn remaining_kinds_have_fixed_answers() {
    assert_eq!(
        answer(ApiError::WrongPassword),
        (
            401,
            "WRONG_PASSWORD".to_string(),
            "Incorrect password! Try again.".to_string(),
            Some("Please try again.".to_string())
        )
    );
    assert_eq!(
        answer(ApiError::NotModified),
        (
            304,
            "NOT_MODIFIED".to_string(),
            "No updates were made for the provided ID.".to_string(),
            Some("The provided ID may not exist, or no fields were changed. Please verify the ID and the update values.".to_string())
        )
    );
    assert_eq!(
        answer(ApiError::AlreadyExists),
        (
            409,
            "ALREADY_EXISTS".to_string(),
            "A resource with the provided details already exists.".to_string(),
            Some("Please choose a different name.".to_string())
        )
    );
}

#[test]
fn errors_describe_themselves() {
    assert_eq!(
        ApiError::NotFound.to_string(),
        "The provided data does not correspond to any existing resource."
    );
    assert_eq!(
        ApiError::AlreadyExists.to_string(),
        "A resource with the provided name already exists."
    );
    assert_eq!(
        ApiError::NotModified.to_string(),
        "No updates were made for the provided ID."
    );
    assert_eq!(ApiError::Unauthorized.to_string(), "You are not allowed to continue.");
    assert_eq!(ApiError::WrongPassword.to_string(), "Incorrect password! Try again.");
    assert_eq!(
        ApiError::DatabaseError("timeout".to_string()).to_string(),
        "An error occurred while connecting to the database: timeout"
    );
    assert_eq!(
        ApiError::AuthError(AuthError::EmptyHeader).to_string(),
        "One or more auth errors occurred: Authorization header cannot be empty. Please provide a valid JWT token."
    );
    assert_eq!(
        ApiError::AuthError(AuthError::InvalidToken).to_string(),
        "One or more auth errors occurred: Invalid JWT token. Please provide a valid token."
    );
    assert_eq!(
        ApiError::ConfigError(ConfigError::Dotenv("path not found".to_string())).to_string(),
        "One or more config errors occurred: Error loading .env file: path not found"
    );
    assert_eq!(
        ApiError::ConfigError(ConfigError::ParsingError("not a number".to_string())).to_string(),
        "One or more config errors occurred: Error parsing data: not a number"
    );
    assert_eq!(
        ApiError::ExportError(ExportError::CSVError("x".to_string())).to_string(),
        "One or more export errors occurred: Failed to generate CSV: x"
    );
}

#[test]
fn empty_list_of_broken_rules_is_shown_as_nothing() {
    let errors = ValidationErrors::new();
    assert!(errors.is_empty());
    assert_eq!(errors.to_string(), "");
    let mut one = ValidationErrors::new();
    one.check(true, "email", "Invalid email");
    assert!(one.is_empty());
    one.check(false, "email", "Invalid email");
    assert_eq!(one.to_string(), "email: Invalid email");
}
