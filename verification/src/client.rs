//! The request layer: one place that builds every request and classifies
//! every reply.
//!
//! Nothing here performs I/O. A call is made in two steps: the client builds
//! a [`Request`], the caller's transport performs it and reports a [`Reply`],
//! and the client turns the reply into the payload or an [`ApiError`].

use vstd::prelude::*;
use vstd::string::StringExecFns;
use vstd::utf8::{decode_utf8, valid_utf8};

use crate::envelope::{envelope, field, read_field, ApiResponse, Payload, ShapeError};
use crate::json::{Json, JsonView};
use crate::reader::{parsed_json, SyntaxError};

verus! {

/// The address that every path is relative to.
pub const BASE_URL: &'static str = "https://api.spacetraders.io/v2";

/// The text that stands for the body of a failed response that could not be
/// read.
pub const UNREADABLE_BODY: &'static str = "<unable to read error body>";

/// The path of the registration endpoint.
pub const REGISTER_PATH: &'static str = "/register";

/// The faction that every new agent joins.
pub const FACTION: &'static str = "COSMIC";

#[derive(Debug, Clone, Copy, PartialEq, Eq, Structural)]
pub enum Method {
    Get,
    Post,
}

/// What a transport has to send.
#[derive(Debug, Clone, PartialEq, Eq)]
pub struct Request {
    pub method: Method,
    /// The absolute address.
    pub url: String,
    /// Header names and values, in the order in which they are to be set.
    pub headers: Vec<(String, String)>,
    /// The document to send as the JSON body, if the request has one.
    pub body: Option<Json>,
}

pub struct RequestView {
    pub method: Method,
    pub url: Seq<char>,
    pub headers: Seq<(Seq<char>, Seq<char>)>,
    pub body: Option<JsonView>,
}

impl View for Request {
    type V = RequestView;

    open spec fn view(&self) -> RequestView {
        RequestView {
            method: self.method,
            url: self.url@,
            headers: self.headers.deep_view(),
            body: match self.body {
                Some(json) => Some(json@),
                None => None,
            },
        }
    }
}

/// What a transport reports of one request.
#[derive(Debug, PartialEq, Eq)]
pub enum Reply {
    /// The request could not be sent, or no response arrived.
    Failed { cause: String },
    /// A response arrived. `body` holds its bytes, or the reason why they
    /// could not be read.
    Received { status: u16, body: Result<Vec<u8>, String> },
}

pub enum ReplyView {
    Failed { cause: Seq<char> },
    Received { status: u16, body: Result<Seq<u8>, Seq<char>> },
}

impl View for Reply {
    type V = ReplyView;

    open spec fn view(&self) -> ReplyView {
        match self {
            Reply::Failed { cause } => ReplyView::Failed { cause: cause@ },
            Reply::Received { status, body } => ReplyView::Received {
                status: *status,
                body: match body {
                    Ok(bytes) => Ok(bytes@),
                    Err(cause) => Err(cause@),
                },
            },
        }
    }
}

/// Why the body of a successful response gave no payload.
#[derive(Debug, Clone, PartialEq, Eq)]
pub enum DecodeError {
    /// The body could not be read from the transport.
    Unreadable { cause: String },
    /// The body is no JSON text. `message` is the parser's complaint, as the
    /// parser worded it.
    Syntax { message: String },
    /// The body is JSON, but no envelope around the expected payload.
    Shape(ShapeError),
}

pub enum DecodeErrorView {
    Unreadable { cause: Seq<char> },
    Syntax,
    Shape(ShapeError),
}

impl View for DecodeError {
    type V = DecodeErrorView;

    open spec fn view(&self) -> DecodeErrorView {
        match self {
            DecodeError::Unreadable { cause } => DecodeErrorView::Unreadable { cause: cause@ },
            DecodeError::Syntax { .. } => DecodeErrorView::Syntax,
            DecodeError::Shape(e) => DecodeErrorView::Shape(*e),
        }
    }
}

/// The three ways in which a call fails.
#[derive(Debug, Clone, PartialEq, Eq)]
pub enum ApiError {
    /// No response was received.
    Transport { cause: String },
    /// A response with a status outside 200..=299 was received. `body` is
    /// its text.
    Status { status: u16, body: String },
    /// A response with a success status was received, and its body gave no
    /// payload.
    Decode(DecodeError),
}

pub enum ApiErrorView {
    Transport { cause: Seq<char> },
    Status { status: u16, body: Seq<char> },
    Decode(DecodeErrorView),
}

impl View for ApiError {
    type V = ApiErrorView;

    open spec fn view(&self) -> ApiErrorView {
        match self {
            ApiError::Transport { cause } => ApiErrorView::Transport { cause: cause@ },
            ApiError::Status { status, body } => ApiErrorView::Status {
                status: *status,
                body: body@,
            },
            ApiError::Decode(e) => ApiErrorView::Decode(e@),
        }
    }
}

/// The text that `String::from_utf8_lossy` makes of a byte sequence.
pub uninterp spec fn lossy_utf8(bytes: Seq<u8>) -> Seq<char>;

/// Calls `String::from_utf8_lossy`.
///
/// Trusted: the same bytes always give the same text, and bytes that are
/// valid UTF-8 give the text that they encode.
#[verifier::external_body]
fn lossy_text(bytes: &[u8]) -> (text: String)
    ensures
        valid_utf8(bytes@) ==> text@ == decode_utf8(bytes@),
        !valid_utf8(bytes@) ==> text@ == lossy_utf8(bytes@),
{
    String::from_utf8_lossy(bytes).into_owned()
}

/// Tells whether a status code is in the success range.
pub fn is_success(status: u16) -> (r: bool)
    ensures
        r == (200 <= status <= 299),
{
    200 <= status && status <= 299
}

/// The headers of every request made with `credential`.
pub open spec fn headers_for(credential: Seq<char>) -> Seq<(Seq<char>, Seq<char>)> {
    seq![("Content-Type"@, "application/json"@), ("Authorization"@, "Bearer "@ + credential)]
}

/// The request for `path`, made with `credential`.
pub open spec fn request_for(
    method: Method,
    credential: Seq<char>,
    path: Seq<char>,
    body: Option<JsonView>,
) -> RequestView {
    RequestView { method, url: BASE_URL@ + path, headers: headers_for(credential), body }
}

/// Builds the one form of request that this crate makes.
pub fn build_request(method: Method, credential: &str, path: &str, body: Option<Json>) -> (r:
    Request)
    ensures
        r@ == request_for(
            method,
            credential@,
            path@,
            match body {
                Some(json) => Some(json@),
                None => None,
            },
        ),
{
    let url = String::from_str(BASE_URL).concat(path);
    let mut headers: Vec<(String, String)> = Vec::new();
    headers.push((String::from_str("Content-Type"), String::from_str("application/json")));
    headers.push((String::from_str("Authorization"), String::from_str("Bearer ").concat(credential)));
    assert(headers.deep_view() =~= headers_for(credential@));
    Request { method, url, headers, body }
}

/// The text of a body: what the bytes encode where they are valid UTF-8,
/// and what a lossy conversion makes of them otherwise.
pub open spec fn body_text(bytes: Seq<u8>) -> Seq<char> {
    if valid_utf8(bytes) {
        decode_utf8(bytes)
    } else {
        lossy_utf8(bytes)
    }
}

/// The status failure that a response with `status` and the given body
/// stands for.
pub open spec fn status_failure(status: u16, body: Result<Seq<u8>, Seq<char>>) -> ApiErrorView {
    ApiErrorView::Status {
        status,
        body: match body {
            Ok(bytes) => body_text(bytes),
            Err(_) => UNREADABLE_BODY@,
        },
    }
}

/// What a body that was read gives when decoded as an envelope around `T`.
pub open spec fn decoded<T: Payload>(document: Option<JsonView>) -> Result<T::V, ApiErrorView> {
    match document {
        None => Err(ApiErrorView::Decode(DecodeErrorView::Syntax)),
        Some(json) => match envelope::<T>(json) {
            Ok(payload) => Ok(payload),
            Err(e) => Err(ApiErrorView::Decode(DecodeErrorView::Shape(e))),
        },
    }
}

/// The outcome of a call whose transport reported `reply`.
pub open spec fn outcome<T: Payload>(reply: ReplyView) -> Result<T::V, ApiErrorView> {
    match reply {
        ReplyView::Failed { cause } => Err(ApiErrorView::Transport { cause }),
        ReplyView::Received { status, body } => if !(200 <= status <= 299) {
            Err(status_failure(status, body))
        } else {
            match body {
                Err(cause) => Err(ApiErrorView::Decode(DecodeErrorView::Unreadable { cause })),
                Ok(bytes) => decoded::<T>(parsed_json(bytes)),
            }
        },
    }
}

/// Tells whether `r` is the result that `want` describes.
pub open spec fn is_outcome<T: DeepView>(r: Result<T, ApiError>, want: Result<T::V, ApiErrorView>) -> bool {
    match r {
        Ok(payload) => want == Ok::<T::V, ApiErrorView>(payload.deep_view()),
        Err(e) => want == Err::<T::V, ApiErrorView>(e@),
    }
}

/// Decodes what the parser made of a body as an envelope around `T`: the
/// document, or the parser's complaint where the body was no JSON text. The
/// complaint is carried in the failure as it is.
pub fn decode_document<T: Payload>(document: Result<Json, SyntaxError>) -> (r: Result<
    T,
    ApiError,
>)
    ensures
        is_outcome(
            r,
            decoded::<T>(
                match document {
                    Ok(json) => Some(json@),
                    Err(_) => None,
                },
            ),
        ),
        document matches Err(e) ==> r matches Err(
            ApiError::Decode(DecodeError::Syntax { message }),
        ) && message@ == e.message@,
{
    match document {
        Err(e) => Err(ApiError::Decode(DecodeError::Syntax { message: e.message })),
        Ok(json) => match ApiResponse::<T>::decode(&json) {
            Ok(response) => Ok(response.data),
            Err(e) => Err(ApiError::Decode(DecodeError::Shape(e))),
        },
    }
}

/// What the registration endpoint answers: the credential of the new agent
/// and the symbol that the server gave it.
#[derive(Debug, Clone, PartialEq, Eq)]
pub struct Registration {
    pub token: String,
    pub symbol: String,
}

pub struct RegistrationView {
    pub token: Seq<char>,
    pub symbol: Seq<char>,
}

impl View for Registration {
    type V = RegistrationView;

    open spec fn view(&self) -> RegistrationView {
        RegistrationView { token: self.token@, symbol: self.symbol@ }
    }
}

impl DeepView for Registration {
    type V = RegistrationView;

    open spec fn deep_view(&self) -> RegistrationView {
        self@
    }
}

/// The symbol held by an agent object, whatever else the object holds.
pub open spec fn agent_symbol(agent: JsonView) -> Option<Seq<char>> {
    field::<String>(agent, "symbol"@)
}

/// A registration is an object with a text member `token` and a member
/// `agent` that is an object with a text member `symbol`.
impl Payload for Registration {
    open spec fn shape(json: JsonView) -> Option<RegistrationView> {
        match (field::<String>(json, "token"@), json.get("agent"@)) {
            (Some(token), Some(agent)) => match agent_symbol(agent) {
                Some(symbol) => Some(RegistrationView { token, symbol }),
                None => None,
            },
            _ => None,
        }
    }

    fn from_json(json: &Json) -> (r: Option<Registration>) {
        let token = read_field::<String>(json, "token")?;
        let agent = json.get("agent")?;
        let symbol = read_field::<String>(agent, "symbol")?;
        Some(Registration { token, symbol })
    }
}

/// The body of the registration request for `symbol`.
pub open spec fn registration_body(symbol: Seq<char>) -> JsonView {
    JsonView::Object(
        seq![("symbol"@, JsonView::Text(symbol)), ("faction"@, JsonView::Text(FACTION@))],
    )
}

/// A client of the API that holds the credential of one agent.
pub struct SpaceTradersClient {
    token: String,
}

impl SpaceTradersClient {
    /// The credential that the client was made with.
    pub closed spec fn credential(&self) -> Seq<char> {
        self.token@
    }

    /// Makes a client that authorizes its requests with `token`.
    pub fn new(token: String) -> (client: Self)
        ensures
            client.credential() == token@,
    {
        SpaceTradersClient { token }
    }

    /// The GET request for `path`.
    pub fn get(&self, path: &str) -> (r: Request)
        ensures
            r@ == request_for(Method::Get, self.credential(), path@, None),
    {
        build_request(Method::Get, self.token.as_str(), path, None)
    }

    /// The POST request for `path`, without a body.
    pub fn post(&self, path: &str) -> (r: Request)
        ensures
            r@ == request_for(Method::Post, self.credential(), path@, None),
    {
        build_request(Method::Post, self.token.as_str(), path, None)
    }

    /// The POST request for `path` that sends `body` as JSON.
    pub fn post_json(&self, path: &str, body: Json) -> (r: Request)
        ensures
            r@ == request_for(Method::Post, self.credential(), path@, Some(body@)),
    {
        build_request(Method::Post, self.token.as_str(), path, Some(body))
    }

    /// The request that registers a new agent under `agent_symbol`.
    ///
    /// It is authorized with the credential of the account, not with that of
    /// an agent, and needs no client.
    pub fn register(account_token: &str, agent_symbol: &str) -> (r: Request)
        ensures
            r@ == request_for(
                Method::Post,
                account_token@,
                REGISTER_PATH@,
                Some(registration_body(agent_symbol@)),
            ),
    {
        let mut members: Vec<(String, Json)> = Vec::new();
        members.push((String::from_str("symbol"), Json::Text(String::from_str(agent_symbol))));
        members.push((String::from_str("faction"), Json::Text(String::from_str(FACTION))));
        assert(members@[0].1@ == JsonView::Text(agent_symbol@));
        assert(members@[1].1@ == JsonView::Text(FACTION@));
        let body = Json::Object(members);
        assert(body@->Object_0 =~= registration_body(agent_symbol@)->Object_0);
        build_request(Method::Post, account_token, REGISTER_PATH, Some(body))
    }

    /// Turns the reply to a registration request into the new agent's
    /// credential and the symbol that the server confirmed.
    ///
    /// The symbol is the one in the reply, which need not be the one that
    /// was asked for.
    pub fn handle_registration(reply: Reply) -> (r: Result<(String, String), ApiError>)
        ensures
            match r {
                Ok((token, symbol)) => outcome::<Registration>(reply@) == Ok::<
                    RegistrationView,
                    ApiErrorView,
                >(RegistrationView { token: token@, symbol: symbol@ }),
                Err(e) => outcome::<Registration>(reply@) == Err::<RegistrationView, ApiErrorView>(
                    e@,
                ),
            },
    {
        match classify::<Registration>(reply) {
            Ok(registration) => Ok((registration.token, registration.symbol)),
            Err(e) => Err(e),
        }
    }

    /// Turns what the transport reported into the payload or the failure.
    pub fn handle_response<T: Payload>(&self, reply: Reply) -> (r: Result<T, ApiError>)
        ensures
            is_outcome(r, outcome::<T>(reply@)),
    {
        classify::<T>(reply)
    }
}

/// Turns what the transport reported into the payload or the failure.
///
/// A reply without a response is a transport failure. A status outside
/// 200..=299 is a status failure with the body's text, and the body is not
/// decoded. Any other response is decoded as an envelope around `T`.
pub fn classify<T: Payload>(reply: Reply) -> (r: Result<T, ApiError>)
    ensures
        is_outcome(r, outcome::<T>(reply@)),
{
    match reply {
        Reply::Failed { cause } => Err(ApiError::Transport { cause }),
        Reply::Received { status, body } => {
            if !is_success(status) {
                let text = match body {
                    Ok(bytes) => lossy_text(bytes.as_slice()),
                    Err(_) => String::from_str(UNREADABLE_BODY),
                };
                Err(ApiError::Status { status, body: text })
            } else {
                match body {
                    Err(cause) => Err(ApiError::Decode(DecodeError::Unreadable { cause })),
                    Ok(bytes) => decode_document::<T>(Json::parse(bytes.as_slice())),
                }
            }
        },
    }
}

/// A reply without a response is a transport failure with the transport's
/// cause, whatever payload was expected.
pub proof fn unsent_request_is_a_transport_failure<T: Payload>(cause: Seq<char>)
    ensures
        outcome::<T>(ReplyView::Failed { cause }) == Err::<T::V, ApiErrorView>(
            ApiErrorView::Transport { cause },
        ),
{
}

/// A response with a status outside 200..=299 is a status failure that
/// carries that status and the text of the body. The body is not decoded:
/// the failure is the same for every expected payload.
pub proof fn failed_status_is_reported<T: Payload, U: Payload>(
    status: u16,
    body: Result<Seq<u8>, Seq<char>>,
)
    requires
        !(200 <= status <= 299),
    ensures
        outcome::<T>(ReplyView::Received { status, body }) == Err::<T::V, ApiErrorView>(
            status_failure(status, body),
        ),
        outcome::<U>(ReplyView::Received { status, body }) == Err::<U::V, ApiErrorView>(
            status_failure(status, body),
        ),
        body matches Ok(bytes) ==> (valid_utf8(bytes) ==> status_failure(status, body)
            == (ApiErrorView::Status { status, body: decode_utf8(bytes) })),
{
}

/// A response with a status in 200..=299 is never a status failure.
pub proof fn success_status_is_no_status_failure<T: Payload>(
    status: u16,
    body: Result<Seq<u8>, Seq<char>>,
)
    requires
        200 <= status <= 299,
    ensures
        !(outcome::<T>(ReplyView::Received { status, body }) matches Err(
            ApiErrorView::Status { .. },
        )),
{
}

/// A response with a status in 200..=299 whose body is the text of an
/// envelope around a `T` gives the payload.
pub proof fn success_status_gives_the_payload<T: Payload>(
    status: u16,
    bytes: Seq<u8>,
    json: JsonView,
    payload: JsonView,
)
    requires
        200 <= status <= 299,
        parsed_json(bytes) == Some(json),
        json is Object,
        json.get("data"@) == Some(payload),
        T::shape(payload) is Some,
    ensures
        outcome::<T>(ReplyView::Received { status, body: Ok(bytes) }) == Ok::<T::V, ApiErrorView>(
            T::shape(payload).unwrap(),
        ),
{
}

/// A response with a status in 200..=299 whose body is no envelope around a
/// `T` is a decode failure: the text is no JSON, the document is no object,
/// it has no member `data`, or that member does not have the shape of `T`.
pub proof fn success_status_with_bad_body_is_a_decode_failure<T: Payload>(
    status: u16,
    bytes: Seq<u8>,
)
    requires
        200 <= status <= 299,
        parsed_json(bytes) matches Some(json) ==> !(json is Object) || json.get("data"@) is None
            || T::shape(json.get("data"@).unwrap()) is None,
    ensures
        outcome::<T>(ReplyView::Received { status, body: Ok(bytes) }) matches Err(
            ApiErrorView::Decode(_),
        ),
{
}

/// A registration payload gives the symbol that stands in its `agent`
/// object.
pub proof fn registration_gives_the_confirmed_symbol(
    payload: JsonView,
    token: Seq<char>,
    agent: JsonView,
    symbol: Seq<char>,
)
    requires
        field::<String>(payload, "token"@) == Some(token),
        payload.get("agent"@) == Some(agent),
        agent_symbol(agent) == Some(symbol),
    ensures
        Registration::shape(payload) == Some(RegistrationView { token, symbol }),
{
}

/// A successful reply to a registration gives the credential and the symbol
/// that stand in the reply. The symbol that was asked for plays no part in
/// it: whatever `requested` is, the outcome is the same.
pub proof fn successful_registration_gives_what_the_reply_holds(
    requested: Seq<char>,
    status: u16,
    bytes: Seq<u8>,
    json: JsonView,
    payload: JsonView,
    token: Seq<char>,
    agent: JsonView,
    symbol: Seq<char>,
)
    requires
        200 <= status <= 299,
        parsed_json(bytes) == Some(json),
        json is Object,
        json.get("data"@) == Some(payload),
        field::<String>(payload, "token"@) == Some(token),
        payload.get("agent"@) == Some(agent),
        agent_symbol(agent) == Some(symbol),
    ensures
        outcome::<Registration>(ReplyView::Received { status, body: Ok(bytes) }) == Ok::<
            RegistrationView,
            ApiErrorView,
        >(RegistrationView { token, symbol }),
{
}

} // verus!
