//! The three requests that the client sends, as plain values.

use vstd::prelude::*;
use vstd::string::StringExecFns;
use crate::config::visibility_or_default;
use crate::json::{first_member, Json, JsonView};

verus! {

/// The HTTP method of a request.
#[derive(Debug, Clone, PartialEq, Eq)]
pub enum Method {
    Get,
    Post,
    Put,
}

/// One request, ready to be sent: where it goes and the JSON document that it
/// carries, if it carries one.
#[derive(Debug, PartialEq, Eq)]
pub struct Request {
    pub method: Method,
    pub url: String,
    pub body: Option<Json>,
}

/// The mathematical value of a [`Request`].
pub struct RequestView {
    pub method: Method,
    pub url: Seq<char>,
    pub body: Option<JsonView>,
}

impl View for Request {
    type V = RequestView;

    open spec fn view(&self) -> RequestView {
        RequestView {
            method: self.method,
            url: self.url@,
            body: match self.body {
                Some(json) => Some(json@),
                None => None,
            },
        }
    }
}

/// The decimal digit that stands for `d`, for `d` below ten.
pub open spec fn digit(d: nat) -> char {
    ('0' as u8 + d) as u8 as char
}

/// The decimal numeral of `n`, without sign and without leading zeros.
pub open spec fn decimal(n: nat) -> Seq<char>
    decreases n,
{
    if n < 10 {
        seq![digit(n)]
    } else {
        decimal(n / 10).push(digit(n % 10))
    }
}

/// The request that lists the snippets found at `url`.
pub open spec fn get_request(url: Seq<char>) -> RequestView {
    RequestView { method: Method::Get, url, body: None }
}

/// The description of the single file that a new snippet starts with.
pub open spec fn initial_file(content: Seq<char>) -> JsonView {
    JsonView::Object(
        seq![
            ("file_path"@, JsonView::Text("init.txt"@)),
            ("content"@, JsonView::Text(content)),
        ],
    )
}

/// The document that asks the service for a new snippet.
pub open spec fn create_body(
    title: Seq<char>,
    visibility: Seq<char>,
    content: Seq<char>,
) -> JsonView {
    JsonView::Object(
        seq![
            ("title"@, JsonView::Text(title)),
            ("description"@, JsonView::Text("Autogenerated snippet"@)),
            ("visibility"@, JsonView::Text(visibility)),
            ("files"@, JsonView::List(seq![initial_file(content)])),
        ],
    )
}

/// The request that creates a snippet at `url`.
pub open spec fn create_request(
    url: Seq<char>,
    title: Seq<char>,
    visibility: Seq<char>,
    content: Seq<char>,
) -> RequestView {
    RequestView {
        method: Method::Post,
        url,
        body: Some(create_body(title, visibility, content)),
    }
}

/// The description of a file that is put on an existing snippet.
pub open spec fn uploaded_file(file_path: Seq<char>, content: Seq<char>) -> JsonView {
    JsonView::Object(
        seq![
            ("file_path"@, JsonView::Text(file_path)),
            ("content"@, JsonView::Text(content)),
            ("action"@, JsonView::Text("create"@)),
        ],
    )
}

/// The document that puts one file on an existing snippet.
pub open spec fn upload_body(file_path: Seq<char>, content: Seq<char>) -> JsonView {
    JsonView::Object(seq![("files"@, JsonView::List(seq![uploaded_file(file_path, content)]))])
}

/// The request that puts a file on the snippet `id`: it goes to `url` with the
/// decimal numeral of `id` written directly behind it.
pub open spec fn upload_request(
    url: Seq<char>,
    id: nat,
    file_path: Seq<char>,
    content: Seq<char>,
) -> RequestView {
    RequestView {
        method: Method::Put,
        url: url + decimal(id),
        body: Some(upload_body(file_path, content)),
    }
}

/// The action under which an upload sends its file: the member `action` of the
/// first entry of the member `files`.
pub open spec fn sent_action(body: JsonView) -> Option<JsonView> {
    match body.member("files"@) {
        Some(JsonView::List(files)) if files.len() > 0 => files[0].member("action"@),
        _ => None,
    }
}

/// A request that creates a snippet carries, as its visibility, exactly the
/// visibility it was made with.
pub proof fn lemma_create_sends_visibility(
    title: Seq<char>,
    visibility: Seq<char>,
    content: Seq<char>,
)
    ensures
        create_body(title, visibility, content).member("visibility"@) == Some(
            JsonView::Text(visibility),
        ),
{
    reveal_strlit("title");
    reveal_strlit("description");
    reveal_strlit("visibility");
    let key = "visibility"@;
    let members = create_body(title, visibility, content)->Object_0;
    let after_title = members.drop_first();
    let after_description = after_title.drop_first();
    assert(members[0].0 != key) by {
        assert("title"@.len() == 5 && key.len() == 10);
    }
    assert(after_title[0].0 != key) by {
        assert(after_title[0] == members[1]);
        assert("description"@.len() == 11 && key.len() == 10);
    }
    assert(after_description[0] == (key, JsonView::Text(visibility)));
    assert(first_member(after_title, key) == first_member(after_description, key));
}

/// A request that uploads a file sends it with the action `create`, whatever
/// the file is.
pub proof fn lemma_upload_sends_create(file_path: Seq<char>, content: Seq<char>)
    ensures
        sent_action(upload_body(file_path, content)) == Some(JsonView::Text("create"@)),
{
    reveal_strlit("file_path");
    reveal_strlit("content");
    reveal_strlit("action");
    let key = "action"@;
    let file = uploaded_file(file_path, content)->Object_0;
    let after_path = file.drop_first();
    let after_content = after_path.drop_first();
    assert(file[0].0 != key) by {
        assert("file_path"@.len() == 9 && key.len() == 6);
    }
    assert(after_path[0].0 != key) by {
        assert(after_path[0] == file[1]);
        assert("content"@.len() == 7 && key.len() == 6);
    }
    assert(after_content[0] == (key, JsonView::Text("create"@)));
    assert(first_member(after_path, key) == first_member(after_content, key));
}

/// A configuration made without a visibility asks for the visibility
/// `intern`, and one made with a visibility asks for that one: either way the
/// request that creates the snippet carries it unchanged.
pub proof fn lemma_create_sends_configured_visibility(
    title: Seq<char>,
    visibility: Option<Seq<char>>,
    content: Seq<char>,
)
    ensures
        create_body(title, visibility_or_default(visibility), content).member("visibility"@)
            == Some(
            JsonView::Text(
                match visibility {
                    Some(v) => v,
                    None => "intern"@,
                },
            ),
        ),
{
    lemma_create_sends_visibility(title, visibility_or_default(visibility), content);
}

/// The text of one decimal digit.
fn digit_text(d: usize) -> (text: &'static str)
    requires
        d < 10,
    ensures
        text@ == seq![digit(d as nat)],
{
    proof {
        reveal_strlit("0");
        reveal_strlit("1");
        reveal_strlit("2");
        reveal_strlit("3");
        reveal_strlit("4");
        reveal_strlit("5");
        reveal_strlit("6");
        reveal_strlit("7");
        reveal_strlit("8");
        reveal_strlit("9");
    }
    let text = match d {
        0 => "0",
        1 => "1",
        2 => "2",
        3 => "3",
        4 => "4",
        5 => "5",
        6 => "6",
        7 => "7",
        8 => "8",
        _ => "9",
    };
    assert(text@ =~= seq![digit(d as nat)]);
    text
}

/// Writes the decimal numeral of `n` behind what `out` holds.
pub fn push_decimal(out: &mut String, n: usize)
    ensures
        final(out)@ == old(out)@ + decimal(n as nat),
    decreases n,
{
    if n >= 10 {
        push_decimal(out, n / 10);
    }
    out.append(digit_text(n % 10));
    assert(out@ =~= old(out)@ + decimal(n as nat));
}

} // verus!
