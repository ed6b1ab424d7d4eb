use baserow_rs::api::authentication::{
    login_accepted, token_auth_status, TokenResponse, User,
};
use baserow_rs::api::client::Method;
use baserow_rs::api::file::{upload_status, upload_via_url_body};
use baserow_rs::error::{
    BaserowAuthenticationError, ConfigurationError, FileUploadError, LogLevel, TableError,
    TokenAuthError,
};
use baserow_rs::{Baserow, ConfigBuilder, Configuration};

fn configuration(base_url: &str) -> Configuration {
    Configuration {
        base_url: base_url.to_string(),
        database_token: Some("123".to_string()),
        email: None,
        password: None,
        jwt: None,
        access_token: None,
        refresh_token: None,
        user: None,
    }
}

#[test]
fn builder_collects_what_it_is_given() {
    let builder = ConfigBuilder::new();
    assert!(builder.base_url.is_none());
    assert!(builder.api_key.is_none());
    assert!(builder.email.is_none());
    assert!(builder.password.is_none());
    let configuration = builder
        .base_url("https://api.baserow.io")
        .api_key("your-api-key")
        .email("test@example.com")
        .password("password")
        .build();
    assert_eq!(configuration.base_url, "https://api.baserow.io");
    assert_eq!(configuration.database_token.as_deref(), Some("your-api-key"));
    assert_eq!(configuration.email.as_deref(), Some("test@example.com"));
    assert_eq!(configuration.password.as_deref(), Some("password"));
    assert!(configuration.jwt.is_none());
    assert!(configuration.access_token.is_none());
    assert!(configuration.refresh_token.is_none());
    assert!(configuration.user.is_none());
}

#[test]
fn try_build_reports_a_missing_base_url() {
    assert_eq!(ConfigBuilder::new().try_build().unwrap_err(), ConfigurationError::MissingBaseUrl);
    let outcome = ConfigBuilder::new().api_key("k").email("e").password("p").try_build();
    assert_eq!(outcome.unwrap_err(), ConfigurationError::MissingBaseUrl);
    assert_eq!(
        ConfigurationError::MissingBaseUrl.message(),
        "Configuration failed: Missing base URL"
    );
}

#[test]
fn try_build_gives_what_build_gives() {
    let configuration = ConfigBuilder::new()
        .base_url("https://api.baserow.io")
        .api_key("your-api-key")
        .email("test@example.com")
        .password("password")
        .try_build()
        .unwrap();
    assert_eq!(configuration.base_url, "https://api.baserow.io");
    assert_eq!(configuration.database_token.as_deref(), Some("your-api-key"));
    assert_eq!(configuration.email.as_deref(), Some("test@example.com"));
    assert_eq!(configuration.password.as_deref(), Some("password"));
    assert!(configuration.jwt.is_none());
    assert!(configuration.access_token.is_none());
    assert!(configuration.refresh_token.is_none());
    assert!(configuration.user.is_none());
    let empty = ConfigBuilder::new().base_url("").try_build().unwrap();
    assert_eq!(empty.base_url, "");
    assert!(empty.database_token.is_none());
}

#[test]
fn builder_keeps_the_last_value_of_a_setting() {
    let configuration = ConfigBuilder::new().base_url("a").base_url("b").build();
    assert_eq!(configuration.base_url, "b");
    assert!(configuration.database_token.is_none());
    assert!(configuration.email.is_none());
}

#[test]
fn client_setters_change_one_credential_each() {
    let baserow = Baserow::with_configuration(configuration("u"));
    let baserow = baserow.with_database_token("t".to_string());
    assert_eq!(baserow.configuration.database_token.as_deref(), Some("t"));
    let with_access = baserow.with_access_token("a".to_string());
    assert_eq!(with_access.configuration.access_token.as_deref(), Some("a"));
    assert_eq!(with_access.configuration.database_token.as_deref(), Some("t"));
    assert!(baserow.configuration.access_token.is_none());
    let with_refresh = baserow.with_refresh_token("r".to_string());
    assert_eq!(with_refresh.configuration.refresh_token.as_deref(), Some("r"));
    assert!(with_refresh.configuration.access_token.is_none());
    let with_user = baserow.with_user(User {
        first_name: "f".to_string(),
        username: "u".to_string(),
        language: "en".to_string(),
    });
    assert_eq!(with_user.configuration.user.as_ref().unwrap().username, "u");
    assert_eq!(with_user.get_configuration().base_url, "u");
}

#[test]
fn authorization_prefers_the_session_token() {
    let mut both = configuration("u");
    both.jwt = Some("session".to_string());
    assert_eq!(
        Baserow::with_configuration(both).authorization().as_deref(),
        Some("JWT session")
    );
    assert_eq!(
        Baserow::with_configuration(configuration("u")).authorization().as_deref(),
        Some("Token 123")
    );
    let mut none = configuration("u");
    none.database_token = None;
    assert_eq!(Baserow::with_configuration(none).authorization(), None);
    let mut only_session = configuration("u");
    only_session.database_token = None;
    only_session.jwt = Some("".to_string());
    assert_eq!(
        Baserow::with_configuration(only_session).authorization().as_deref(),
        Some("JWT ")
    );
}

#[test]
fn table_fields_request_needs_a_token() {
    let mut none = configuration("u");
    none.database_token = None;
    assert!(matches!(
        Baserow::with_configuration(none).table_fields_request(1),
        Err(TableError::MissingAuthentication)
    ));
}

#[test]
fn test_token_auth() {
    let configuration = ConfigBuilder::new()
        .base_url("http://localhost:1")
        .email("test@example.com")
        .password("password")
        .build();
    let baserow = Baserow::with_configuration(configuration);

    let (request, body) = baserow.token_auth_request().unwrap();
    assert_eq!(request.method, Method::Post);
    assert_eq!(request.url, "http://localhost:1/api/user/token-auth/");
    assert!(request.query.is_empty());
    assert_eq!(request.authorization, None);
    assert_eq!(body.email, "test@example.com");
    assert_eq!(body.password, "password");

    let result = token_auth_status(200, String::new());
    assert!(result.is_ok());

    let logged_in_baserow = baserow.token_auth(TokenResponse {
        user: User {
            first_name: "string".to_string(),
            username: "user@example.com".to_string(),
            language: "string".to_string(),
        },
        token: "string".to_string(),
        access_token: "string".to_string(),
        refresh_token: "string".to_string(),
    });
    assert_eq!(logged_in_baserow.get_configuration().database_token.unwrap(), "string");
}

#[test]
fn token_auth_fills_every_credential_of_the_response() {
    let baserow = Baserow::with_configuration(configuration("u"));
    let after = baserow.token_auth(TokenResponse {
        user: User {
            first_name: "Ada".to_string(),
            username: "ada@example.com".to_string(),
            language: "en".to_string(),
        },
        token: "T".to_string(),
        access_token: "A".to_string(),
        refresh_token: "R".to_string(),
    });
    assert_eq!(after.configuration.base_url, "u");
    assert_eq!(after.configuration.database_token.as_deref(), Some("T"));
    assert_eq!(after.configuration.access_token.as_deref(), Some("A"));
    assert_eq!(after.configuration.refresh_token.as_deref(), Some("R"));
    assert_eq!(after.configuration.user.as_ref().unwrap().first_name, "Ada");
    assert!(after.configuration.jwt.is_none());
    assert_eq!(baserow.configuration.database_token.as_deref(), Some("123"));
}

#[test]
fn token_auth_request_names_the_missing_credential() {
    let no_email = ConfigBuilder::new().base_url("u").password("p").build();
    match Baserow::with_configuration(no_email).token_auth_request() {
        Err(TokenAuthError::MissingCredentials(field)) => assert_eq!(field, "email"),
        _ => panic!("the e-mail address is missing"),
    }
    let no_password = ConfigBuilder::new().base_url("u").email("e").build();
    match Baserow::with_configuration(no_password).token_auth_request() {
        Err(TokenAuthError::MissingCredentials(field)) => assert_eq!(field, "password"),
        _ => panic!("the password is missing"),
    }
    let neither = ConfigBuilder::new().base_url("u").build();
    match Baserow::with_configuration(neither).token_auth_request() {
        Err(TokenAuthError::MissingCredentials(field)) => assert_eq!(field, "email"),
        _ => panic!("the e-mail address is missing"),
    }
}

#[test]
fn login_is_accepted_on_200_only() {
    assert!(login_accepted(200));
    for status in [0u16, 199, 201, 204, 299, 400, 401, 500, u16::MAX] {
        assert!(!login_accepted(status));
    }
    assert!(token_auth_status(200, "ignored".to_string()).is_ok());
}

#[test]
fn token_auth_status_accepts_200_only() {
    for status in [201u16, 204, 400, 401, 500] {
        match token_auth_status(status, "ERROR_INVALID_CREDENTIALS".to_string()) {
            Err(TokenAuthError::AuthenticationFailed(body)) => {
                assert_eq!(body, "ERROR_INVALID_CREDENTIALS")
            }
            _ => panic!("status {} is a refused login", status),
        }
    }
}

#[test]
fn test_upload_file_via_url() {
    let baserow = Baserow::with_configuration(configuration("http://localhost:1"));

    let result = baserow.upload_file_via_url_request("https://example.com/test.txt");
    assert!(result.is_ok());

    let (request, body) = result.unwrap();
    assert_eq!(request.method, Method::Post);
    assert_eq!(request.url, "http://localhost:1/api/user-files/upload-via-url/");
    assert_eq!(request.authorization.as_deref(), Some("Token 123"));
    assert!(request.query.is_empty());
    assert_eq!(body.url, "https://example.com/test.txt");
    assert!(upload_status(200).is_ok());
}

#[test]
fn upload_via_url_sends_the_normal_form_of_the_url() {
    let baserow = Baserow::with_configuration(configuration("u"));
    let (_, body) = baserow.upload_file_via_url_request("HTTPS://Example.COM").unwrap();
    assert_eq!(body.url, "https://example.com/");
    let (_, body) = baserow.upload_file_via_url_request("http://example.com:80/a/../b").unwrap();
    assert_eq!(body.url, "http://example.com/b");
}

#[test]
fn upload_via_url_refuses_what_is_no_url() {
    let baserow = Baserow::with_configuration(configuration("u"));
    for text in ["", "not a url", "/relative/path", "example.com/file.txt"] {
        match baserow.upload_file_via_url_request(text) {
            Err(FileUploadError::InvalidURL(given)) => assert_eq!(given, text),
            _ => panic!("{:?} is no URL", text),
        }
    }
}

#[test]
fn upload_via_url_body_follows_the_parsed_url() {
    let body = upload_via_url_body("x", Some("https://example.com/".to_string())).unwrap();
    assert_eq!(body.url, "https://example.com/");
    match upload_via_url_body("x y", None) {
        Err(FileUploadError::InvalidURL(given)) => assert_eq!(given, "x y"),
        _ => panic!("no URL was parsed"),
    }
}

#[test]
fn test_upload_file() {
    let baserow = Baserow::with_configuration(configuration("http://localhost:1"));

    let upload = baserow.upload_file_request("image.png".to_string());
    assert_eq!(upload.request.method, Method::Post);
    assert_eq!(upload.request.url, "http://localhost:1/api/user-files/upload-file/");
    assert_eq!(upload.request.authorization.as_deref(), Some("Token 123"));
    assert_eq!(upload.file_name, "image.png");
    assert_eq!(upload.content_type, "image/png");
    assert!(upload_status(200).is_ok());
}

#[test]
fn upload_guesses_the_content_type_from_the_name() {
    let baserow = Baserow::with_configuration(configuration("u"));
    assert_eq!(baserow.upload_file_request("a.txt".to_string()).content_type, "text/plain");
    assert_eq!(baserow.upload_file_request("a.JPG".to_string()).content_type, "image/jpeg");
    assert_eq!(
        baserow.upload_file_request("noextension".to_string()).content_type,
        "application/octet-stream"
    );
    assert_eq!(
        baserow.upload_file_request("a.unknownext".to_string()).content_type,
        "application/octet-stream"
    );
}

#[test]
fn upload_status_accepts_200_only() {
    for status in [201u16, 204, 302, 404, 413, 500] {
        match upload_status(status) {
            Err(FileUploadError::UnexpectedStatusCode(carried)) => assert_eq!(carried, status),
            _ => panic!("status {} is unexpected", status),
        }
    }
}

#[test]
fn authentication_errors_have_their_texts() {
    assert_eq!(
        BaserowAuthenticationError::InvalidCredentials.message(),
        "Authentication failed: Invalid credentials provided"
    );
    assert_eq!(
        BaserowAuthenticationError::DeactivatedUser.message(),
        "Authentication failed: User account is deactivated"
    );
    assert_eq!(
        BaserowAuthenticationError::AuthProviderDisabled.message(),
        "Authentication failed: Authentication provider is disabled"
    );
    assert_eq!(
        BaserowAuthenticationError::EmailVerificationRequired.message(),
        "Authentication failed: Email verification is required"
    );
}

#[test]
fn authentication_errors_are_logged_at_their_levels() {
    for (error, level, event) in [
        (
            BaserowAuthenticationError::InvalidCredentials,
            LogLevel::Warn,
            "Authentication attempt failed due to invalid credentials",
        ),
        (
            BaserowAuthenticationError::DeactivatedUser,
            LogLevel::Warn,
            "Authentication attempt failed due to deactivated user account",
        ),
        (
            BaserowAuthenticationError::AuthProviderDisabled,
            LogLevel::Error,
            "Authentication attempt failed due to disabled auth provider",
        ),
        (
            BaserowAuthenticationError::EmailVerificationRequired,
            LogLevel::Warn,
            "Authentication requires email verification",
        ),
    ] {
        let entry = error.log();
        assert_eq!(entry.level, level);
        assert_eq!(entry.event, event);
        assert_eq!(entry.error, error.message());
    }
}

#[test]
fn token_errors_have_their_texts_and_levels() {
    let missing = TokenAuthError::MissingCredentials("email");
    assert_eq!(missing.message(), "Authentication failed: Missing required email credentials");
    assert_eq!(missing.log().level, LogLevel::Warn);
    assert_eq!(missing.log().event, "Token authentication failed due to missing credentials");
    let failed = TokenAuthError::AuthenticationFailed("bad".to_string());
    assert_eq!(failed.message(), "Token authentication failed: bad");
    assert_eq!(failed.log().level, LogLevel::Error);
    assert_eq!(failed.log().event, "Token authentication failed");
    assert_eq!(failed.log().error, "Token authentication failed: bad");
}

#[test]
fn upload_errors_have_their_texts_and_levels() {
    let read = FileUploadError::FileReadError(std::io::Error::new(
        std::io::ErrorKind::NotFound,
        "gone",
    ));
    assert_eq!(read.message(), "File upload failed: Unable to read file - gone");
    assert_eq!(read.log().level, LogLevel::Error);
    assert_eq!(read.log().event, "File upload failed due to file read error");
    let kind = FileUploadError::InvalidContentType;
    assert_eq!(kind.message(), "File upload failed: Invalid content type provided");
    assert_eq!(kind.log().level, LogLevel::Warn);
    assert_eq!(kind.log().event, "File upload failed due to invalid content type");
    let status = FileUploadError::UnexpectedStatusCode(503);
    assert_eq!(
        status.message(),
        "File upload failed: Server responded with unexpected status code 503"
    );
    assert_eq!(status.log().level, LogLevel::Error);
    assert_eq!(status.log().event, "File upload failed with unexpected status code");
    let url = FileUploadError::InvalidURL("x y".to_string());
    assert_eq!(url.message(), "File upload failed: Invalid URL provided - x y");
    assert_eq!(url.log().level, LogLevel::Warn);
    assert_eq!(url.log().event, "File upload failed due to invalid URL");
}

#[test]
fn table_errors_have_their_texts() {
    assert_eq!(TableError::InvalidPageSize.message(), "page size must be positive");
    assert_eq!(TableError::InvalidPageNumber.message(), "page number must be positive");
    assert_eq!(TableError::MissingTableId.message(), "Table ID is missing");
    assert_eq!(TableError::MissingBaserow.message(), "Baserow instance is missing");
    assert_eq!(TableError::MissingAuthentication.message(), "No authentication token provided");
    assert_eq!(
        TableError::MissingMapper.message(),
        "schema mapping required for typed access; perform discovery first"
    );
    assert_eq!(
        TableError::Request { status: 404, body: "{}".to_string() }.message(),
        "Request failed (status: 404): {}"
    );
    let shape = serde_json::from_str::<u8>("true").unwrap_err();
    let text = shape.to_string();
    assert_eq!(
        TableError::Deserialization(shape).message(),
        format!("Response has an unexpected shape: {}", text)
    );
}
