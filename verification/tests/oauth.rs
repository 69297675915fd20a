use comparison_app::domain::{ApiConfigurationInput, ApiRegion, StoredApiConfiguration};
use comparison_app::error::ServiceError;
use comparison_app::oauth::{
    authorization_code, callback_code, callback_port, callback_response, first_line_of, prepare_api_configuration,
    split_words, OAuthService,
};
use comparison_app::oauth::{query_code, ParsedUrl};

fn stored(redirect_uri: &str) -> StoredApiConfiguration {
    StoredApiConfiguration {
        app_key: "APP KEY/1".into(),
        application_id: "5843".into(),
        region: ApiRegion::Europe,
        redirect_uri: redirect_uri.into(),
    }
}

fn input(app_key: &str, secret_key: &str, application_id: &str, redirect_uri: &str) -> ApiConfigurationInput {
    ApiConfigurationInput {
        app_key: app_key.into(),
        secret_key: secret_key.into(),
        application_id: application_id.into(),
        region: ApiRegion::China,
        redirect_uri: redirect_uri.into(),
    }
}

#[test]
fn portal_application_id_is_used_for_oauth() {
    let config = stored("http://127.0.0.1:42831/oauth/callback");
    let url = OAuthService::authorization_url(&config);
    assert!(url.contains("applicationId=5843"), "{url}");
    assert!(!url.contains("applicationId=APP"), "{url}");
    assert!(url.contains("cloudId=3"));
}

#[test]
fn authorization_url_is_written_out_in_full() {
    let mut config = stored("http://127.0.0.1:42831/oauth/callback");
    config.application_id = "a b&c".into();
    config.region = ApiRegion::Australia;
    assert_eq!(
        OAuthService::authorization_url(&config),
        "https://auweb3.isolarcloud.com/#/authorized-app?cloudId=7&applicationId=a+b%26c\
         &redirectUrl=http%3A%2F%2F127.0.0.1%3A42831%2Foauth%2Fcallback"
    );
}

#[test]
fn callback_server_accepts_the_real_http_redirect() {
    let request = b"GET /oauth/callback?code=test-code HTTP/1.1\r\nHost: 127.0.0.1\r\n\r\n";
    let code = callback_code(request).unwrap();
    let response = callback_response(code.is_some());
    assert!(response.starts_with("HTTP/1.1 200 OK"), "{response}");
    assert!(response.contains("Yetkilendirme kodu alındı"), "{response}");
    assert_eq!(authorization_code(code).unwrap(), "test-code");
}

#[test]
fn callback_without_code_reports_it() {
    let code = callback_code(b"GET /oauth/callback?state=1&error=denied HTTP/1.1\r\n\r\n").unwrap();
    assert_eq!(code, None);
    let response = callback_response(false);
    assert!(response.contains("Yetkilendirme tamamlanamadı."));
    match authorization_code(code) {
        Err(ServiceError::Api(message)) => {
            assert_eq!(message, "iSolarCloud callback'inde authorization code bulunamadı")
        }
        _ => panic!("expected an API error"),
    }
}

#[test]
fn callback_takes_the_first_decoded_code() {
    let code = callback_code(b"GET /cb?x=1&code=a%2Fb&code=second HTTP/1.1\r\n").unwrap();
    assert_eq!(code.as_deref(), Some("a/b"));
}

#[test]
fn unreadable_callback_requests_are_refused() {
    for request in [&b""[..], &b"GET\r\n\r\n"[..]] {
        match callback_code(request) {
            Err(ServiceError::Api(message)) => assert_eq!(message, "OAuth callback isteği okunamadı"),
            _ => panic!("expected an API error"),
        }
    }
    assert!(matches!(callback_code(b"GET :99999/cb HTTP/1.1\r\n"), Err(ServiceError::Url(_))));
}

#[test]
fn callback_response_states_the_page_length_in_bytes() {
    let response = callback_response(true);
    let (head, body) = response.split_once("\r\n\r\n").unwrap();
    assert!(head.contains(&format!("Content-Length: {}", body.len())), "{head}");
    assert!(body.contains("#39d98a"));
}

#[test]
fn callback_port_needs_a_local_http_address() {
    assert_eq!(callback_port(&stored("http://127.0.0.1:42831/oauth/callback")).unwrap(), 42831);
    assert_eq!(callback_port(&stored("http://localhost/cb")).unwrap(), 80);
    for (uri, message) in [
        ("https://127.0.0.1:42831/cb", "Masaüstü OAuth callback'i localhost HTTP adresi olmalıdır"),
        ("http://example.com:42831/cb", "Masaüstü OAuth callback'i localhost HTTP adresi olmalıdır"),
    ] {
        match callback_port(&stored(uri)) {
            Err(ServiceError::Configuration(m)) => assert_eq!(m, message),
            _ => panic!("expected a configuration error for {uri}"),
        }
    }
    assert!(matches!(callback_port(&stored("not a url")), Err(ServiceError::Url(_))));
}

#[test]
fn settings_are_trimmed_and_checked() {
    let prepared = prepare_api_configuration(input("  key ", "\tsecret\n", " 5843 ", "http://localhost:1/cb")).unwrap();
    assert_eq!(prepared.secret, "secret");
    assert_eq!(prepared.stored.app_key, "key");
    assert_eq!(prepared.stored.application_id, "5843");
    assert_eq!(prepared.stored.region, ApiRegion::China);
    assert_eq!(prepared.stored.redirect_uri, "http://localhost:1/cb");
    match prepare_api_configuration(input("key", "   ", "5843", "http://localhost:1/cb")) {
        Err(ServiceError::Configuration(m)) => assert_eq!(m, "AppKey, Secret key ve Application ID zorunludur"),
        _ => panic!("expected a configuration error"),
    }
    match prepare_api_configuration(input("key", "s", "5843", "http://example.com/cb")) {
        Err(ServiceError::Configuration(m)) => assert_eq!(m, "Redirect URI yalnızca yerel callback olmalıdır"),
        _ => panic!("expected a configuration error"),
    }
    assert!(matches!(prepare_api_configuration(input("key", "s", "5843", "::")), Err(ServiceError::Url(_))));
}

#[test]
fn lines_and_words_are_split_as_std_does() {
    assert_eq!(first_line_of("GET / HTTP/1.1\r\nHost: x"), Some("GET / HTTP/1.1".to_string()));
    assert_eq!(first_line_of("one"), Some("one".to_string()));
    assert_eq!(first_line_of(""), None);
    assert_eq!(split_words("  GET\t/a  HTTP/1.1 "), vec!["GET", "/a", "HTTP/1.1"]);
    assert!(split_words(" \u{3000} ").is_empty());
}

#[test]
fn the_first_code_of_the_query_is_taken() {
    let url = ParsedUrl {
        scheme: "http".into(),
        host: Some("127.0.0.1".into()),
        port: Some(80),
        query_pairs: vec![("state".into(), "x".into()), ("code".into(), "one".into()), ("code".into(), "two".into())],
    };
    assert_eq!(query_code(&url), Some("one".to_string()));
    let empty = ParsedUrl { query_pairs: vec![], ..url };
    assert_eq!(query_code(&empty), None);
}
