//! The client: which request each operation sends, and what each response
//! means.
//!
//! An exchange with the service is one request and one response. The client
//! does not send anything itself: [`Client::search`] and [`Client::me`] take
//! the function that performs the exchange, hand it the request, and turn what
//! it brings back into the operation's result.

use crate::encoding::{base64_bytes, base64_text};
use crate::json::{json_document, JsonValue};
use crate::types::{
    body_image, image_survives_encoding, me_in, optional_view, search_body, search_response_in,
    Me, MeView, SearchRequest, SearchResponse, SearchResponseView,
};
use vstd::prelude::*;
use vstd::string::StringExecFns;

verus! {

/// The method of a request.
#[derive(Debug, Clone, Copy, PartialEq, Eq)]
pub enum Method {
    Get,
    Post,
}

/// A request, as the client hands it over to be sent.
#[derive(Debug, PartialEq)]
pub struct Request {
    pub method: Method,
    /// Where the request goes, without the query.
    pub url: String,
    /// The parameters of the query, each a name and a value, neither of them
    /// encoded yet.
    pub query: Vec<(String, String)>,
    /// The body, which is JSON text; `None` for a request without one.
    pub body: Option<String>,
}

/// What a [`Request`] holds.
pub struct RequestView {
    pub method: Method,
    pub url: Seq<char>,
    pub query: Seq<(Seq<char>, Seq<char>)>,
    pub body: Option<Seq<char>>,
}

impl View for Request {
    type V = RequestView;

    open spec fn view(&self) -> RequestView {
        RequestView {
            method: self.method,
            url: self.url@,
            query: self.query@.map_values(|pair: (String, String)| (pair.0@, pair.1@)),
            body: optional_view(self.body),
        }
    }
}

/// A response, as far as the client reads it.
#[derive(Debug, PartialEq)]
pub struct Response {
    /// The HTTP status code.
    pub status: u16,
    /// The body as text; `None` where no body could be read.
    pub body: Option<String>,
}

/// What a [`Response`] holds.
pub struct ResponseView {
    pub status: u16,
    pub body: Option<Seq<char>>,
}

impl View for Response {
    type V = ResponseView;

    open spec fn view(&self) -> ResponseView {
        ResponseView { status: self.status, body: optional_view(self.body) }
    }
}

/// What an exchange brought back, by its view: `None` where it brought no
/// response.
pub open spec fn reply_view(reply: Option<Response>) -> Option<ResponseView> {
    match reply {
        Some(response) => Some(response@),
        None => None,
    }
}

/// An error that can happen while processing a request.
#[derive(Debug, PartialEq)]
pub enum Error {
    /// The request failed to complete.
    RequestFailed,
    /// Parsing response failed (e.g. some fields are missing).
    JsonFailed,
    /// Response is empty when it's not expected.
    ResponseEmpty,
    /// An empty image was provided.
    ImageEmpty,
    /// Provided token is invalid, expired, etc.
    InvalidToken,
    /// Provided image is >1MB.
    ImageTooLarge,
    /// Limit or quota was reached.
    RateLimit { message: String },
    /// Something went wrong on the trace.moe side of things.
    InternalServerError,
}

/// What an [`Error`] holds.
pub enum ErrorView {
    RequestFailed,
    JsonFailed,
    ResponseEmpty,
    ImageEmpty,
    InvalidToken,
    ImageTooLarge,
    RateLimit { message: Seq<char> },
    InternalServerError,
}

impl View for Error {
    type V = ErrorView;

    open spec fn view(&self) -> ErrorView {
        match self {
            Error::RequestFailed => ErrorView::RequestFailed,
            Error::JsonFailed => ErrorView::JsonFailed,
            Error::ResponseEmpty => ErrorView::ResponseEmpty,
            Error::ImageEmpty => ErrorView::ImageEmpty,
            Error::InvalidToken => ErrorView::InvalidToken,
            Error::ImageTooLarge => ErrorView::ImageTooLarge,
            Error::RateLimit { message } => ErrorView::RateLimit { message: message@ },
            Error::InternalServerError => ErrorView::InternalServerError,
        }
    }
}

/// The result of a search, by its view.
pub open spec fn search_result_view(result: Result<SearchResponse, Error>) -> Result<
    SearchResponseView,
    ErrorView,
> {
    match result {
        Ok(response) => Ok(response@),
        Err(error) => Err(error@),
    }
}

/// The result of asking for the account's state, by its view.
pub open spec fn me_result_view(result: Result<Me, Error>) -> Result<MeView, ErrorView> {
    match result {
        Ok(me) => Ok(me@),
        Err(error) => Err(error@),
    }
}

/// What a search makes of the reply to its request.
///
/// No reply is a failed request. Of a response the status decides first: 400,
/// 403, 413, 500 and 503 each stand for one error, and 429 for the rate limit,
/// whose message is the body. Under any other status the body must be the JSON
/// text of an answer.
pub open spec fn search_outcome_of(reply: Option<ResponseView>) -> Result<
    SearchResponseView,
    ErrorView,
> {
    match reply {
        None => Err(ErrorView::RequestFailed),
        Some(response) => if response.status == 400 {
            Err(ErrorView::ImageEmpty)
        } else if response.status == 403 {
            Err(ErrorView::InvalidToken)
        } else if response.status == 413 {
            Err(ErrorView::ImageTooLarge)
        } else if response.status == 429 {
            match response.body {
                Some(message) => Err(ErrorView::RateLimit { message }),
                None => Err(ErrorView::ResponseEmpty),
            }
        } else if response.status == 500 || response.status == 503 {
            Err(ErrorView::InternalServerError)
        } else {
            match response.body {
                Some(text) => match search_response_in(text) {
                    Some(answer) => Ok(answer),
                    None => Err(ErrorView::JsonFailed),
                },
                None => Err(ErrorView::JsonFailed),
            }
        },
    }
}

/// What asking for the account's state makes of the reply to its request.
///
/// No reply is a failed request. The status of a response is not looked at:
/// the body must be the JSON text of an account's state.
pub open spec fn me_outcome_of(reply: Option<ResponseView>) -> Result<MeView, ErrorView> {
    match reply {
        None => Err(ErrorView::RequestFailed),
        Some(response) => match response.body {
            Some(text) => match me_in(text) {
                Some(me) => Ok(me),
                None => Err(ErrorView::JsonFailed),
            },
            None => Err(ErrorView::JsonFailed),
        },
    }
}

/// Turns the reply to a search request into the result of the search.
pub fn search_outcome(reply: Option<Response>) -> (result: Result<SearchResponse, Error>)
    ensures
        search_result_view(result) == search_outcome_of(reply_view(reply)),
{
    let response = match reply {
        Some(response) => response,
        None => return Err(Error::RequestFailed),
    };
    match response.status {
        400 => Err(Error::ImageEmpty),
        403 => Err(Error::InvalidToken),
        413 => Err(Error::ImageTooLarge),
        429 => match response.body {
            Some(message) => Err(Error::RateLimit { message }),
            None => Err(Error::ResponseEmpty),
        },
        500 | 503 => Err(Error::InternalServerError),
        _ => match response.body {
            Some(text) => match SearchResponse::decode(text.as_str()) {
                Some(answer) => Ok(answer),
                None => Err(Error::JsonFailed),
            },
            None => Err(Error::JsonFailed),
        },
    }
}

/// Turns the reply to a request for the account's state into that state.
pub fn me_outcome(reply: Option<Response>) -> (result: Result<Me, Error>)
    ensures
        me_result_view(result) == me_outcome_of(reply_view(reply)),
{
    let response = match reply {
        Some(response) => response,
        None => return Err(Error::RequestFailed),
    };
    match response.body {
        Some(text) => match Me::decode(text.as_str()) {
            Some(me) => Ok(me),
            None => Err(Error::JsonFailed),
        },
        None => Err(Error::JsonFailed),
    }
}

/// The settings of a client of the trace.moe API.
#[derive(Debug, PartialEq)]
pub struct Client {
    /// Defaults to `"https://trace.moe/api"`. Primarily useful for testing.
    pub base_uri: String,
    /// Access token that registered developers have.
    pub token: Option<String>,
}

impl Client {
    /// The query that goes with every request of this client: the token
    /// under the name `token` where there is one, nothing otherwise.
    pub open spec fn query_of(&self) -> Seq<(Seq<char>, Seq<char>)> {
        match self.token {
            Some(token) => seq![("token"@, token@)],
            None => Seq::empty(),
        }
    }

    /// The request that this client makes for `path`.
    pub open spec fn request_of(
        &self,
        method: Method,
        path: Seq<char>,
        body: Option<Seq<char>>,
    ) -> RequestView {
        RequestView { method, url: self.base_uri@ + "/"@ + path, query: self.query_of(), body }
    }

    /// The request that a search for `image` sends.
    pub open spec fn search_request_of(&self, image: Seq<u8>) -> RequestView {
        self.request_of(Method::Post, "search"@, Some(search_body(base64_text(image), None)))
    }

    /// The request that asking for the account's state sends.
    pub open spec fn me_request_of(&self) -> RequestView {
        self.request_of(Method::Get, "me"@, None)
    }

    /// Create a [`Client`] with default settings.
    pub fn new() -> (client: Self)
        ensures
            client.base_uri@ == "https://trace.moe/api"@,
            client.token is None,
    {
        Self { base_uri: String::from_str("https://trace.moe/api"), token: None }
    }

    /// Create a [`Client`] with an API token.
    pub fn with_token(token: String) -> (client: Self)
        ensures
            client.base_uri@ == "https://trace.moe/api"@,
            client.token == Some(token),
    {
        Self { base_uri: String::from_str("https://trace.moe/api"), token: Some(token) }
    }

    fn request(&self, method: Method, path: &str, body: Option<String>) -> (request: Request)
        ensures
            request@ == self.request_of(method, path@, optional_view(body)),
    {
        let mut url = self.base_uri.clone();
        url.append("/");
        url.append(path);
        let mut query: Vec<(String, String)> = Vec::new();
        match &self.token {
            Some(token) => {
                query.push((String::from_str("token"), token.clone()));
            },
            None => {},
        }
        let request = Request { method, url, query, body };
        assert(request@.query =~= self.query_of());
        request
    }

    /// Makes the request of a search for `image`: a POST to `search` under
    /// the base URI, with the image in base64 as the JSON body.
    pub fn search_request(&self, image: Vec<u8>) -> (request: Request)
        ensures
            request@ == self.search_request_of(image@),
    {
        let body = SearchRequest::new(image).to_json();
        self.request(Method::Post, "search", Some(body))
    }

    /// Makes the request for the account's state: a GET to `me` under the
    /// base URI, without a body.
    pub fn me_request(&self) -> (request: Request)
        ensures
            request@ == self.me_request_of(),
    {
        self.request(Method::Get, "me", None)
    }

    /// Search for image.
    ///
    /// `exchange` sends the request and brings back the response, or `None`
    /// where the request could not be sent or no response came. It is called
    /// once, with the request of [`Client::search_request`], and the result is
    /// what [`search_outcome`] makes of its reply.
    pub fn search<F: FnOnce(Request) -> Option<Response>>(
        &self,
        image: Vec<u8>,
        exchange: F,
    ) -> (result: Result<SearchResponse, Error>)
        requires
            forall|request: Request|
                request@ == self.search_request_of(image@) ==> exchange.requires((request,)),
        ensures
            exists|request: Request, reply: Option<Response>|
                request@ == self.search_request_of(image@) && #[trigger] exchange.ensures(
                    (request,),
                    reply,
                ) && search_result_view(result) == search_outcome_of(reply_view(reply)),
    {
        let request = self.search_request(image);
        let reply = exchange(request);
        search_outcome(reply)
    }

    /// Check the search quota and limit for your account (or IP address).
    ///
    /// `exchange` is called once, with the request of [`Client::me_request`],
    /// and the result is what [`me_outcome`] makes of its reply.
    pub fn me<F: FnOnce(Request) -> Option<Response>>(&self, exchange: F) -> (result: Result<
        Me,
        Error,
    >)
        requires
            forall|request: Request|
                request@ == self.me_request_of() ==> exchange.requires((request,)),
        ensures
            exists|request: Request, reply: Option<Response>|
                request@ == self.me_request_of() && #[trigger] exchange.ensures((request,), reply)
                    && me_result_view(result) == me_outcome_of(reply_view(reply)),
    {
        let request = self.me_request();
        let reply = exchange(request);
        me_outcome(reply)
    }
}

/// A search sends its image without loss: whatever the bytes and whatever the
/// client's settings, the request has a body, and the image in that body
/// decodes to the bytes.
pub proof fn search_sends_image_whole(client: Client, image: Seq<u8>)
    ensures
        client.search_request_of(image).body is Some,
        base64_bytes(body_image(client.search_request_of(image).body->0)) == Some(image),
{
    image_survives_encoding(image, None);
}

/// The status decides before the body is read: whatever the body, 400 is an
/// empty image, 403 an invalid token, 413 too large an image, and 500 and 503
/// an error of the server; 429 is the rate limit and hands on the body as its
/// message, or is an empty response where there is no body.
pub proof fn status_decides(body: Option<Seq<char>>, message: Seq<char>)
    ensures
        search_outcome_of(Some(ResponseView { status: 400, body })) matches Err(
            ErrorView::ImageEmpty,
        ),
        search_outcome_of(Some(ResponseView { status: 403, body })) matches Err(
            ErrorView::InvalidToken,
        ),
        search_outcome_of(Some(ResponseView { status: 413, body })) matches Err(
            ErrorView::ImageTooLarge,
        ),
        search_outcome_of(Some(ResponseView { status: 500, body })) matches Err(
            ErrorView::InternalServerError,
        ),
        search_outcome_of(Some(ResponseView { status: 503, body })) matches Err(
            ErrorView::InternalServerError,
        ),
        (search_outcome_of(Some(ResponseView { status: 429, body: Some(message) })) matches Err(
            ErrorView::RateLimit { message: carried },
        ) && carried == message),
        search_outcome_of(Some(ResponseView { status: 429, body: None })) matches Err(
            ErrorView::ResponseEmpty,
        ),
{
}

/// Under any other status a body that is the JSON text of an answer gives
/// that answer.
pub proof fn other_statuses_decode(status: u16, text: Seq<char>)
    requires
        status != 400 && status != 403 && status != 413 && status != 429 && status != 500 && status
            != 503,
        search_response_in(text) is Some,
    ensures
        search_outcome_of(Some(ResponseView { status, body: Some(text) })) matches Ok(answer)
            && Some(answer) == search_response_in(text),
{
}

/// A user identifier that is `null` on the wire is absent in the account's
/// state, and never a number: where the body is a JSON object whose member
/// `user_id` is `null`, an account's state that is read from it has no user
/// identifier.
pub proof fn null_user_id_is_absent(status: u16, text: Seq<char>)
    requires
        json_document(text) is Some,
        json_document(text)->0.member("user_id"@) == Some(JsonValue::Null),
    ensures
        match me_outcome_of(Some(ResponseView { status, body: Some(text) })) {
            Ok(me) => me.user_id is None,
            Err(error) => error == ErrorView::JsonFailed,
        },
{
}

/// The token travels with every request: a client that has one sends it as
/// the one parameter of the query, under the name `token`, with a search and
/// with a request for the account's state alike; a client that has none sends
/// no parameter at all.
pub proof fn token_in_every_request(client: Client, image: Seq<u8>)
    ensures
        client.search_request_of(image).query == client.me_request_of().query,
        match client.token {
            Some(token) => client.search_request_of(image).query == seq![("token"@, token@)],
            None => client.search_request_of(image).query.len() == 0,
        },
{
}

/// A body that is no JSON document never passes for an answer: under a
/// status that asks for one, such as 200, a search and a request for the
/// account's state both fail with `JsonFailed`.
pub proof fn malformed_json_fails(status: u16, text: Seq<char>)
    requires
        json_document(text) is None,
        status != 400 && status != 403 && status != 413 && status != 429 && status != 500 && status
            != 503,
    ensures
        search_outcome_of(Some(ResponseView { status, body: Some(text) })) matches Err(
            ErrorView::JsonFailed,
        ),
        me_outcome_of(Some(ResponseView { status, body: Some(text) })) matches Err(
            ErrorView::JsonFailed,
        ),
{
}

} // verus!
