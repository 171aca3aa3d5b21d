use tickify_api::config::Config;
use tickify_api::errors::api_error::ApiError;
use tickify_api::errors::auth_error::AuthError;
use tickify_api::errors::config_error::ConfigError;
use tickify_api::middlewares::authorization::{bearer_token, read_claims, read_header, AuthorizationHeader};
use tickify_api::models::auth::access::{require_active, require_privileged, AccessControl};
use tickify_api::models::user::{Role, Status, User};
use tickify_api::models::{Id, Timestamp};
use tickify_api::utils::hashing::{encrypt_password, verify_password};
use tickify_api::utils::jwt::{
    check_claims, decode_jwt, decode_jwt_at, generate_jwt, generate_jwt_at, new_claims,
    validate_jwt, validate_jwt_at, RawClaims,
};

fn config(secret: Option<&str>, lifetime: Option<&str>) -> Config {
    Config {
        host: None,
        database_url: None,
        postgres_db: None,
        jwt_secret: secret.map(String::from),
        jwt_expiration_time: lifetime.map(String::from),
    }
}

fn account(role: Role, status: Status) -> User {
    User {
        id: Id { value: 1 },
        username: "alice".to_string(),
        email: None,
        password_hash: String::new(),
        first_name: None,
        last_name: None,
        role,
        status,
        created_at: Timestamp { micros: 0 },
        updated_at: Timestamp { micros: 0 },
    }
}

#[test]
fn a_stored_password_is_recognised() {
    let hash = encrypt_password("correct horse").unwrap();
    assert!(hash.starts_with("$argon2"));
    assert_ne!(hash, "correct horse");
    assert_eq!(verify_password("correct horse", &hash).unwrap(), true);
}

#[test]
fn a_wrong_password_and_a_malformed_hash_look_the_same() {
    let hash = encrypt_password("correct horse").unwrap();
    assert!(matches!(
        verify_password("battery staple", &hash),
        Err(ApiError::WrongPassword)
    ));
    assert!(matches!(
        verify_password("correct horse", "not a hash"),
        Err(ApiError::WrongPassword)
    ));
    assert!(matches!(
        verify_password("correct horse", "correct horse"),
        Err(ApiError::WrongPassword)
    ));
    assert!(matches!(verify_password("", ""), Err(ApiError::WrongPassword)));
}

#[test]
fn hashing_is_salted() {
    let first = encrypt_password("correct horse").unwrap();
    let second = encrypt_password("correct horse").unwrap();
    assert_ne!(first, second);
    assert_eq!(verify_password("correct horse", &second).unwrap(), true);
}

#[test]
fn a_token_comes_back_with_its_claims() {
    let settings = config(Some("s3cret"), Some("3600"));
    let token = generate_jwt_at("alice", "user", &settings, 1_700_000_000).unwrap();
    assert_eq!(token.split('.').count(), 3);
    let claims = decode_jwt_at(&token, &settings, 1_700_000_001).unwrap();
    assert_eq!(claims.sub, "alice");
    assert_eq!(claims.role, "user");
    assert_eq!(claims.iat, 1_700_000_000);
    assert_eq!(claims.exp, 1_700_003_600);
    assert!(validate_jwt_at(&token, &settings, 1_700_003_599).is_ok());
}

#[test]
fn a_token_issued_now_is_valid_now() {
    let settings = config(Some("s3cret"), Some("60"));
    let token = generate_jwt("bob", "admin", &settings).unwrap();
    let claims = decode_jwt(token.clone(), &settings).unwrap();
    assert_eq!(claims.sub, "bob");
    assert_eq!(claims.role, "admin");
    assert_eq!(claims.exp - claims.iat, 60);
    assert!(validate_jwt(&token, &settings).is_ok());
}

#[test]
fn an_expired_token_is_refused() {
    let settings = config(Some("s3cret"), Some("3600"));
    let token = generate_jwt_at("alice", "user", &settings, 1_700_000_000).unwrap();
    assert!(matches!(
        decode_jwt_at(&token, &settings, 1_700_003_600),
        Err(ApiError::JWTError(_))
    ));
    assert!(matches!(
        validate_jwt_at(&token, &settings, 1_800_000_000),
        Err(ApiError::JWTError(_))
    ));
    // issued in the past with a short life: expired by the clock of today
    assert!(matches!(decode_jwt(token, &settings), Err(ApiError::JWTError(_))));
    // a lifetime below zero makes a token that is expired from the start
    let settings = config(Some("s3cret"), Some("-10"));
    let token = generate_jwt_at("alice", "user", &settings, 1_700_000_000).unwrap();
    assert!(matches!(
        decode_jwt_at(&token, &settings, 1_700_000_000),
        Err(ApiError::JWTError(_))
    ));
}

#[test]
fn a_tampered_token_is_refused() {
    let settings = config(Some("s3cret"), Some("3600"));
    let token = generate_jwt_at("alice", "user", &settings, 1_700_000_000).unwrap();
    let now = 1_700_000_001;
    let mut flipped = token.clone().into_bytes();
    let last = flipped.len() - 1;
    flipped[last] = if flipped[last] == b'A' { b'B' } else { b'A' };
    let flipped = String::from_utf8(flipped).unwrap();
    assert!(matches!(
        decode_jwt_at(&flipped, &settings, now),
        Err(ApiError::JWTError(_))
    ));
    let parts: Vec<&str> = token.split('.').collect();
    let other = generate_jwt_at("mallory", "admin", &settings, 1_700_000_000).unwrap();
    let other_parts: Vec<&str> = other.split('.').collect();
    let spliced = format!("{}.{}.{}", parts[0], other_parts[1], parts[2]);
    assert!(matches!(
        decode_jwt_at(&spliced, &settings, now),
        Err(ApiError::JWTError(_))
    ));
    assert!(matches!(
        decode_jwt_at(&token, &config(Some("other"), Some("3600")), now),
        Err(ApiError::JWTError(_))
    ));
    assert!(matches!(
        decode_jwt_at("a.jwt.token", &settings, now),
        Err(ApiError::JWTError(_))
    ));
    assert!(matches!(
        decode_jwt_at("", &settings, now),
        Err(ApiError::JWTError(_))
    ));
    assert!(matches!(
        decode_jwt_at(&token, &settings, now),
        Ok(_)
    ));
}

#[test]
fn issuing_needs_the_secret_and_the_lifetime() {
    assert!(matches!(
        generate_jwt_at("alice", "user", &config(None, Some("3600")), 0),
        Err(ApiError::ConfigError(ConfigError::EnvVarNotFound(_)))
    ));
    assert!(matches!(
        generate_jwt_at("alice", "user", &config(Some("s3cret"), None), 0),
        Err(ApiError::ConfigError(ConfigError::EnvVarNotFound(_)))
    ));
    assert!(matches!(
        generate_jwt_at("alice", "user", &config(Some("s3cret"), Some("soon")), 0),
        Err(ApiError::ConfigError(ConfigError::ParsingError(_)))
    ));
    assert!(matches!(
        generate_jwt_at("alice", "user", &config(Some("s3cret"), Some("-1")), 0),
        Err(ApiError::ConfigError(ConfigError::ParsingError(_)))
    ));
    assert!(matches!(
        generate_jwt_at("alice", "user", &config(Some("s3cret"), Some("1")), -5),
        Err(ApiError::ConfigError(ConfigError::ParsingError(_)))
    ));
    assert!(matches!(
        decode_jwt_at("a.b.c", &config(None, None), 0),
        Err(ApiError::ConfigError(ConfigError::EnvVarNotFound(_)))
    ));
}

#[test]
fn claims_are_made_from_the_moment_and_the_lifetime() {
    let claims = new_claims("alice", "moderator", 90, 1000).unwrap();
    assert_eq!(claims.iat, 1000);
    assert_eq!(claims.exp, 1090);
    assert_eq!(claims.sub, "alice");
    assert_eq!(claims.role, "moderator");
    let claims = new_claims("alice", "moderator", -1000, 1000).unwrap();
    assert_eq!(claims.exp, 0);
    assert!(new_claims("alice", "moderator", -1001, 1000).is_err());
    assert!(new_claims("alice", "moderator", 1, -1).is_err());
    assert!(new_claims("alice", "moderator", i64::MIN, 0).is_err());
}

#[test]
fn claims_are_judged_by_what_is_there_and_by_the_time() {
    let found = |iat: Option<u64>, sub: Option<&str>, exp: Option<u64>, role: Option<&str>| RawClaims {
        iat,
        sub: sub.map(String::from),
        exp,
        role: role.map(String::from),
    };
    let valid = check_claims(found(Some(1), Some("alice"), Some(10), Some("user")), 9).unwrap();
    assert_eq!((valid.iat, valid.exp), (1, 10));
    assert_eq!(valid.sub, "alice");
    assert_eq!(valid.role, "user");
    assert!(check_claims(found(Some(1), Some("alice"), Some(10), Some("user")), 10).is_err());
    assert!(check_claims(found(Some(1), Some("alice"), Some(10), Some("user")), -1).is_ok());
    assert!(check_claims(found(Some(1), Some("alice"), Some(0), Some("user")), -1).is_ok());
    assert!(check_claims(found(None, Some("alice"), Some(10), Some("user")), 0).is_err());
    assert!(check_claims(found(Some(1), None, Some(10), Some("user")), 0).is_err());
    assert!(check_claims(found(Some(1), Some("alice"), None, Some("user")), 0).is_err());
    assert!(matches!(
        check_claims(found(Some(1), Some("alice"), Some(10), None), 0),
        Err(ApiError::JWTError(_))
    ));
}

#[test]
fn the_token_is_the_second_word_of_the_header() {
    assert_eq!(bearer_token("Bearer abc.def.ghi").as_deref(), Some("abc.def.ghi"));
    assert_eq!(bearer_token("  Bearer \t abc  trailing").as_deref(), Some("abc"));
    assert_eq!(bearer_token("Bearer\u{a0}abc").as_deref(), Some("abc"));
    assert_eq!(bearer_token("Bearer"), None);
    assert_eq!(bearer_token("Bearer   "), None);
    assert_eq!(bearer_token(""), None);
    assert_eq!(bearer_token("   "), None);
    for header in ["Bearer x", " a  b c", "one", "", "\t\n", "a\u{3000}b", "é ü ö"] {
        assert_eq!(
            bearer_token(header),
            header.split_whitespace().nth(1).map(String::from),
            "{:?}",
            header
        );
    }
}

#[test]
fn a_header_without_a_token_is_named_for_what_it_lacks() {
    assert_eq!(read_header(&AuthorizationHeader::Missing), Err(AuthError::MissingToken));
    assert_eq!(read_header(&AuthorizationHeader::Unreadable), Err(AuthError::EmptyHeader));
    assert_eq!(
        read_header(&AuthorizationHeader::Text("".to_string())),
        Err(AuthError::EmptyHeader)
    );
    assert_eq!(
        read_header(&AuthorizationHeader::Text("  ".to_string())),
        Err(AuthError::EmptyHeader)
    );
    assert_eq!(
        read_header(&AuthorizationHeader::Text("Bearer".to_string())),
        Err(AuthError::MissingToken)
    );
    assert_eq!(
        read_header(&AuthorizationHeader::Text("Bearer abc".to_string())),
        Ok("abc".to_string())
    );
}

#[test]
fn a_token_that_does_not_check_out_is_invalid() {
    let settings = config(Some("s3cret"), Some("3600"));
    let token = generate_jwt_at("alice", "user", &settings, 1_700_000_000).unwrap();
    let header = AuthorizationHeader::Text(format!("Bearer {}", token));
    let claims = read_claims(&header, &settings, 1_700_000_500).unwrap();
    assert_eq!(claims.sub, "alice");
    assert!(matches!(
        read_claims(&header, &settings, 1_700_003_600),
        Err(ApiError::AuthError(AuthError::InvalidToken))
    ));
    assert!(matches!(
        read_claims(
            &AuthorizationHeader::Text("Bearer nonsense".to_string()),
            &settings,
            0
        ),
        Err(ApiError::AuthError(AuthError::InvalidToken))
    ));
    assert!(matches!(
        read_claims(&AuthorizationHeader::Missing, &settings, 0),
        Err(ApiError::AuthError(AuthError::MissingToken))
    ));
}

#[test]
fn only_active_accounts_are_admitted() {
    assert!(AccessControl::from_identity(Some(account(Role::User, Status::Active))).is_ok());
    assert!(matches!(
        AccessControl::from_identity(Some(account(Role::Admin, Status::Inactive))),
        Err(ApiError::Unauthorized)
    ));
    assert!(matches!(
        AccessControl::from_identity(None),
        Err(ApiError::Unauthorized)
    ));
    assert!(require_active(&account(Role::User, Status::Active)).is_ok());
    assert!(matches!(
        require_active(&account(Role::User, Status::Inactive)),
        Err(ApiError::Unauthorized)
    ));
}

#[test]
fn roles_gate_what_a_caller_may_do() {
    let user = AccessControl::from_identity(Some(account(Role::User, Status::Active))).unwrap();
    let moderator =
        AccessControl::from_identity(Some(account(Role::Moderator, Status::Active))).unwrap();
    let admin = AccessControl::from_identity(Some(account(Role::Admin, Status::Active))).unwrap();
    assert_eq!(user.user().username, "alice");
    assert!(user.require_role(Role::User).is_ok());
    assert!(matches!(
        user.require_role(Role::Admin),
        Err(ApiError::Unauthorized)
    ));
    assert!(admin.require_role(Role::Admin).is_ok());
    assert!(moderator
        .require_any_role(&[Role::Admin, Role::Moderator])
        .is_ok());
    assert!(admin.require_any_role(&[Role::Admin, Role::Moderator]).is_ok());
    assert!(matches!(
        user.require_any_role(&[Role::Admin, Role::Moderator]),
        Err(ApiError::Unauthorized)
    ));
    assert!(matches!(
        admin.require_any_role(&[]),
        Err(ApiError::Unauthorized)
    ));
    assert!(matches!(
        user.require_privileged(),
        Err(ApiError::Unauthorized)
    ));
    assert!(moderator.require_privileged().is_ok());
    assert!(admin.require_privileged().is_ok());
    assert!(require_privileged(&account(Role::Admin, Status::Inactive)).is_ok());
    assert!(!Role::User.is_privileged());
    assert!(Role::Moderator.is_privileged());
    assert!(Role::Admin.is_privileged());
    assert_eq!(Role::default(), Role::User);
    assert_eq!(Status::default(), Status::Active);
    assert_eq!(Role::User.to_string(), "user");
    assert_eq!(Role::Moderator.to_string(), "moderator");
    assert_eq!(Role::Admin.to_string(), "admin");
}
