use snipper::{Api, ApiError, File, Mode, Opts, Snippet};

fn snippet(title: &str, id: usize) -> Snippet {
    Snippet {
        title: title.to_string(),
        id,
        file_name: format!("{}.txt", id),
        files: vec![File { path: format!("{}.txt", id) }],
        web_url: format!("https://example.test/snippets/{}", id),
    }
}

fn api_for(title: &str) -> Api {
    let opts = Opts::new(
        Mode::Get,
        title.to_string(),
        None,
        None,
        "https://example.test/api/snippets/".to_string(),
        "token".to_string(),
        None,
    );
    Api::new(opts).unwrap()
}

#[test]
fn get_returns_the_record_with_the_title() {
    let api = api_for("Foo");
    let found = api.get_snippet(vec![snippet("Bar", 1), snippet("Foo", 5)]);
    assert_eq!(found, Ok(snippet("Foo", 5)));
    assert_eq!(found.unwrap().id, 5);
}

#[test]
fn get_reports_a_missing_title() {
    let api = api_for("Missing");
    let found = api.get_snippet(vec![snippet("Bar", 1)]);
    assert_eq!(found, Err(ApiError::NotFound { title: "Missing".to_string() }));
    let message = found.unwrap_err().message();
    assert_eq!(message, "Could not find snippet: Missing");
    assert!(message.contains("Missing"));
}

#[test]
fn get_on_an_empty_list_finds_nothing() {
    let api = api_for("Foo");
    assert_eq!(api.get_snippet(vec![]), Err(ApiError::NotFound { title: "Foo".to_string() }));
}

#[test]
fn get_takes_the_first_of_equal_titles() {
    let api = api_for("Foo");
    let list = vec![snippet("Bar", 1), snippet("Foo", 2), snippet("Foo", 3), snippet("Baz", 4)];
    assert_eq!(api.get_snippet(list), Ok(snippet("Foo", 2)));
}

#[test]
fn get_takes_the_first_record_when_it_matches() {
    let api = api_for("Foo");
    let list = vec![snippet("Foo", 9), snippet("Bar", 1)];
    assert_eq!(api.get_snippet(list), Ok(snippet("Foo", 9)));
}

#[test]
fn get_takes_the_last_record_when_only_it_matches() {
    let api = api_for("Foo");
    let list = vec![snippet("Bar", 1), snippet("Baz", 2), snippet("Foo", 3)];
    assert_eq!(api.get_snippet(list), Ok(snippet("Foo", 3)));
}

#[test]
fn get_does_not_fold_case() {
    let api = api_for("Foo");
    let list = vec![snippet("foo", 1), snippet("FOO", 2)];
    assert_eq!(api.get_snippet(list), Err(ApiError::NotFound { title: "Foo".to_string() }));
}

#[test]
fn get_does_not_trim() {
    let api = api_for("Foo");
    let list = vec![snippet(" Foo", 1), snippet("Foo ", 2), snippet("Foo\n", 3)];
    assert_eq!(api.get_snippet(list), Err(ApiError::NotFound { title: "Foo".to_string() }));
}

#[test]
fn get_matches_an_empty_title_only_with_an_empty_title() {
    let api = api_for("");
    let list = vec![snippet("Foo", 1), snippet("", 2)];
    assert_eq!(api.get_snippet(list), Ok(snippet("", 2)));
}

#[test]
fn get_compares_titles_beyond_ascii() {
    let api = api_for("Größe");
    let list = vec![snippet("Grosse", 1), snippet("Größe", 2)];
    assert_eq!(api.get_snippet(list), Ok(snippet("Größe", 2)));
}

#[test]
fn get_keeps_every_field_of_the_record() {
    let api = api_for("Foo");
    let wanted = Snippet {
        title: "Foo".to_string(),
        id: 5,
        file_name: "main.rs".to_string(),
        files: vec![File { path: "main.rs".to_string() }, File { path: "lib.rs".to_string() }],
        web_url: "https://example.test/snippets/5".to_string(),
    };
    let found = api.get_snippet(vec![snippet("Bar", 1), wanted.clone()]).unwrap();
    assert_eq!(found.title, "Foo");
    assert_eq!(found.id, 5);
    assert_eq!(found.file_name, "main.rs");
    assert_eq!(found.files.len(), 2);
    assert_eq!(found.files[1].path, "lib.rs");
    assert_eq!(found.web_url, "https://example.test/snippets/5");
    assert_eq!(found, wanted);
}

#[test]
fn invalid_header_error_has_its_message() {
    assert_eq!(ApiError::InvalidHeader.message(), "failed to parse header value");
}

#[test]
fn not_found_message_names_an_empty_title() {
    let e = ApiError::NotFound { title: String::new() };
    assert_eq!(e.message(), "Could not find snippet: ");
}
