//! The operations of the client: what each one sends, and what it makes of
//! the answer.

use vstd::prelude::*;
use crate::client::{check_header_value, client_config, is_header_value, ClientConfig, Header};
use crate::config::Opts;
use crate::error::{ApiError, ApiErrorView};
use crate::json::{member_views, Json, JsonView};
use crate::request::{
    create_body, create_request, get_request, initial_file, lemma_create_sends_visibility,
    lemma_upload_sends_create, push_decimal, sent_action, upload_body, upload_request,
    uploaded_file, Method, Request,
};
use crate::snippet::{first_titled_at, none_titled, Snippet};

verus! {

/// A configured client: the settings of the run and those of the HTTP client
/// that was derived from its token.
pub struct Api {
    pub config: Opts,
    /// What the HTTP client is to be built from.
    pub client: ClientConfig,
}

/// True exactly for the HTTP status codes of the success class.
pub open spec fn success_status(status: u16) -> bool {
    200 <= status < 300
}

/// Tells whether a response with this status is one to read on. Any other
/// status ends the exchange.
pub fn is_success(status: u16) -> (ok: bool)
    ensures
        ok == success_status(status),
{
    200 <= status && status < 300
}

/// `chrono::offset::Local::now`, rendered with the `Display` of the instant it
/// returns. The text depends on the clock and on the time zone of the
/// machine, so nothing is stated of it. The call panics on a machine whose
/// clock stands before 1970.
#[verifier::external_body]
fn local_timestamp() -> String {
    chrono::offset::Local::now().to_string()
}

/// Appends the member `key: value` to the members of an object.
fn put(members: &mut Vec<(String, Json)>, key: &str, value: Json)
    ensures
        member_views(final(members)@) == member_views(old(members)@).push((key@, value@)),
{
    members.push((key.to_owned(), value));
    assert(member_views(members@) =~= member_views(old(members)@).push((key@, value@)));
}

impl Api {
    /// Derives the settings of the HTTP client from the token of `config`.
    ///
    /// Fails with [`ApiError::InvalidHeader`] exactly when the token cannot be
    /// the value of a header; nothing is sent either way.
    pub fn create_client(config: &Opts) -> (built: Result<ClientConfig, ApiError>)
        ensures
            match built {
                Ok(client) => is_header_value(config.token@) && client@ == client_config(
                    config.token@,
                ),
                Err(e) => !is_header_value(config.token@) && e@ == ApiErrorView::InvalidHeader,
            },
    {
        if let Err(e) = check_header_value(config.token.as_str()) {
            return Err(e);
        }
        let mut default_headers: Vec<Header> = Vec::new();
        default_headers.push(
            Header {
                name: "PRIVATE-TOKEN".to_owned(),
                value: config.token.clone(),
                sensitive: true,
            },
        );
        default_headers.push(
            Header {
                name: "Content-Type".to_owned(),
                value: "application/json".to_owned(),
                sensitive: false,
            },
        );
        let client = ClientConfig {
            user_agent: "Snipper".to_owned(),
            timeout_secs: 10,
            default_headers,
        };
        assert(client@.default_headers =~= client_config(config.token@).default_headers);
        Ok(client)
    }

    /// Makes a client for `config`, which it keeps unchanged.
    ///
    /// Fails with [`ApiError::InvalidHeader`] exactly when the token of
    /// `config` cannot be the value of a header.
    pub fn new(config: Opts) -> (made: Result<Api, ApiError>)
        ensures
            match made {
                Ok(api) => {
                    &&& is_header_value(config.token@)
                    &&& api.config == config
                    &&& api.client@ == client_config(config.token@)
                },
                Err(e) => !is_header_value(config.token@) && e@ == ApiErrorView::InvalidHeader,
            },
    {
        match Api::create_client(&config) {
            Ok(client) => Ok(Api { config, client }),
            Err(e) => Err(e),
        }
    }

    /// The request that asks the service for its snippets.
    pub fn get_request(&self) -> (request: Request)
        ensures
            request@ == get_request(self.config.url@),
    {
        Request { method: Method::Get, url: self.config.url.clone(), body: None }
    }

    /// Picks from the snippets that the service listed the one that was
    /// configured: the first in the order of `data` whose title is the
    /// configured title, compared character for character.
    ///
    /// Fails with [`ApiError::NotFound`], which carries the title looked for,
    /// exactly when no snippet of `data` has that title.
    pub fn get_snippet(&self, data: Vec<Snippet>) -> (found: Result<Snippet, ApiError>)
        ensures
            match found {
                Ok(snippet) => exists|i: int|
                    #[trigger] first_titled_at(data@, self.config.title@, i) && snippet
                        == data@[i],
                Err(e) => {
                    &&& none_titled(data@, self.config.title@)
                    &&& e@ == ApiErrorView::NotFound { title: self.config.title@ }
                },
            },
    {
        let mut rest = data;
        let mut i: usize = 0;
        while i < rest.len()
            invariant
                i <= rest.len(),
                rest@ == data@,
                forall|j: int| 0 <= j < i ==> (#[trigger] data@[j]).title@ != self.config.title@,
            decreases rest.len() - i,
        {
            if rest[i].title == self.config.title {
                let snippet = rest.remove(i);
                assert(first_titled_at(data@, self.config.title@, i as int));
                return Ok(snippet);
            }
            i += 1;
        }
        Err(ApiError::NotFound { title: self.config.title.clone() })
    }

    /// The request that creates the configured snippet, whose first file,
    /// `init.txt`, holds `content`.
    ///
    /// The visibility sent is the configured one, unchanged.
    pub fn create_snippet_with(&self, content: String) -> (request: Request)
        ensures
            request@ == create_request(
                self.config.url@,
                self.config.title@,
                self.config.visibility@,
                content@,
            ),
            request@.body->0.member("visibility"@) == Some(
                JsonView::Text(self.config.visibility@),
            ),
    {
        let mut file: Vec<(String, Json)> = Vec::new();
        put(&mut file, "file_path", Json::text("init.txt"));
        put(&mut file, "content", Json::Text(content));
        let file = Json::object(file);
        assert(file@ == initial_file(content@)) by {
            assert(file@->Object_0 =~= initial_file(content@)->Object_0);
        }
        let mut files: Vec<Json> = Vec::new();
        files.push(file);
        let files = Json::list(files);
        assert(files@ == JsonView::List(seq![initial_file(content@)])) by {
            assert(files@->List_0 =~= seq![initial_file(content@)]);
        }
        let mut body: Vec<(String, Json)> = Vec::new();
        put(&mut body, "title", Json::text(self.config.title.as_str()));
        put(&mut body, "description", Json::text("Autogenerated snippet"));
        put(&mut body, "visibility", Json::text(self.config.visibility.as_str()));
        put(&mut body, "files", files);
        let body = Json::object(body);
        let ghost expected = create_body(
            self.config.title@,
            self.config.visibility@,
            content@,
        );
        assert(body@ == expected) by {
            assert(body@->Object_0 =~= expected->Object_0);
        }
        proof {
            lemma_create_sends_visibility(self.config.title@, self.config.visibility@, content@);
        }
        Request { method: Method::Post, url: self.config.url.clone(), body: Some(body) }
    }

    /// The request that creates the configured snippet, whose first file,
    /// `init.txt`, holds the local time of the call.
    ///
    /// Whatever the clock says, the request is the one that
    /// [`Api::create_snippet_with`] makes of some content, and the visibility
    /// sent is the configured one, unchanged.
    pub fn create_snippet(&self) -> (request: Request)
        ensures
            exists|content: Seq<char>|
                request@ == #[trigger] create_request(
                    self.config.url@,
                    self.config.title@,
                    self.config.visibility@,
                    content,
                ),
            request@.body->0.member("visibility"@) == Some(
                JsonView::Text(self.config.visibility@),
            ),
    {
        let content = local_timestamp();
        self.create_snippet_with(content)
    }

    /// The request that puts the configured file on the snippet `snippet_id`.
    ///
    /// The file is always sent with the action `create`, whether or not the
    /// snippet holds a file of that path already.
    pub fn upload_file(&self, snippet_id: usize) -> (request: Request)
        requires
            self.config.has_upload(),
        ensures
            request@ == upload_request(
                self.config.url@,
                snippet_id as nat,
                self.config.file_path->0@,
                self.config.file_content->0@,
            ),
            sent_action(request@.body->0) == Some(JsonView::Text("create"@)),
    {
        let file_path = self.config.file_path.as_ref().unwrap().as_str();
        let file_content = self.config.file_content.as_ref().unwrap().as_str();
        let mut file: Vec<(String, Json)> = Vec::new();
        put(&mut file, "file_path", Json::text(file_path));
        put(&mut file, "content", Json::text(file_content));
        put(&mut file, "action", Json::text("create"));
        let file = Json::object(file);
        assert(file@ == uploaded_file(file_path@, file_content@)) by {
            assert(file@->Object_0 =~= uploaded_file(file_path@, file_content@)->Object_0);
        }
        let mut files: Vec<Json> = Vec::new();
        files.push(file);
        let files = Json::list(files);
        assert(files@ == JsonView::List(seq![uploaded_file(file_path@, file_content@)])) by {
            assert(files@->List_0 =~= seq![uploaded_file(file_path@, file_content@)]);
        }
        let mut body: Vec<(String, Json)> = Vec::new();
        put(&mut body, "files", files);
        let body = Json::object(body);
        assert(body@ == upload_body(file_path@, file_content@)) by {
            assert(body@->Object_0 =~= upload_body(file_path@, file_content@)->Object_0);
        }
        proof {
            lemma_upload_sends_create(file_path@, file_content@);
        }
        let mut url = self.config.url.clone();
        push_decimal(&mut url, snippet_id);
        Request { method: Method::Put, url, body: Some(body) }
    }
}

} // verus!
