use snipper::client::check_header_value;
use snipper::{is_success, Api, ApiError, ClientConfig, Header, Mode, Opts};

fn opts_with_token(token: &str) -> Opts {
    Opts::new(
        Mode::Create,
        "T".to_string(),
        None,
        None,
        "https://example.test/api/snippets/".to_string(),
        token.to_string(),
        None,
    )
}

#[test]
fn client_has_the_two_headers_the_agent_and_the_timeout() {
    let client = Api::create_client(&opts_with_token("s3cret")).unwrap();
    let expected = ClientConfig {
        user_agent: "Snipper".to_string(),
        timeout_secs: 10,
        default_headers: vec![
            Header {
                name: "PRIVATE-TOKEN".to_string(),
                value: "s3cret".to_string(),
                sensitive: true,
            },
            Header {
                name: "Content-Type".to_string(),
                value: "application/json".to_string(),
                sensitive: false,
            },
        ],
    };
    assert_eq!(client, expected);
}

#[test]
fn new_keeps_the_configuration() {
    let opts = opts_with_token("s3cret");
    let api = Api::new(opts.clone()).ok().unwrap();
    assert_eq!(api.config, opts);
    assert_eq!(api.client, Api::create_client(&opts).unwrap());
}

#[test]
fn token_with_a_newline_is_refused() {
    let opts = opts_with_token("abc\ndef");
    assert_eq!(Api::create_client(&opts), Err(ApiError::InvalidHeader));
    assert!(matches!(Api::new(opts), Err(ApiError::InvalidHeader)));
}

#[test]
fn token_with_a_carriage_return_is_refused() {
    assert!(matches!(Api::new(opts_with_token("abc\r")), Err(ApiError::InvalidHeader)));
}

#[test]
fn token_with_a_nul_is_refused() {
    assert!(matches!(Api::new(opts_with_token("\0abc")), Err(ApiError::InvalidHeader)));
}

#[test]
fn token_with_del_is_refused() {
    assert!(matches!(Api::new(opts_with_token("abc\u{7f}def")), Err(ApiError::InvalidHeader)));
}

#[test]
fn token_with_the_last_control_character_is_refused() {
    assert!(matches!(Api::new(opts_with_token("\u{1f}")), Err(ApiError::InvalidHeader)));
}

#[test]
fn token_with_a_tab_is_accepted() {
    assert!(Api::new(opts_with_token("abc\tdef")).is_ok());
}

#[test]
fn token_with_a_space_and_a_tilde_is_accepted() {
    assert!(Api::new(opts_with_token(" ~")).is_ok());
}

#[test]
fn empty_token_is_accepted() {
    let api = Api::new(opts_with_token("")).ok().unwrap();
    assert_eq!(api.client.default_headers[0].value, "");
}

#[test]
fn token_beyond_ascii_is_accepted() {
    let api = Api::new(opts_with_token("gl\u{e9}-\u{20ac}-\u{1f600}")).ok().unwrap();
    assert_eq!(api.client.default_headers[0].value, "gl\u{e9}-\u{20ac}-\u{1f600}");
}

#[test]
fn token_with_a_high_control_character_is_accepted() {
    // U+0085 is encoded with the bytes C2 85, both of which a header value may hold.
    assert!(Api::new(opts_with_token("a\u{85}b")).is_ok());
}

#[test]
fn check_header_value_tells_which_texts_pass() {
    assert_eq!(check_header_value("glpat-0123456789"), Ok(()));
    assert_eq!(check_header_value("line\nbreak"), Err(ApiError::InvalidHeader));
    assert_eq!(check_header_value("\u{1b}[0m"), Err(ApiError::InvalidHeader));
}

#[test]
fn success_is_the_class_of_two_hundred() {
    assert!(!is_success(0));
    assert!(!is_success(199));
    assert!(is_success(200));
    assert!(is_success(201));
    assert!(is_success(204));
    assert!(is_success(299));
    assert!(!is_success(300));
    assert!(!is_success(404));
    assert!(!is_success(500));
    assert!(!is_success(u16::MAX));
}
