//! Inspecting webhooks: the record kept of each delivery that the local
//! listener receives, its check of the caller's credentials, and the
//! rules for sending a request and reporting the answer. Listening and
//! sending are the caller's part.

use std::collections::HashMap;
use vstd::prelude::*;
use vstd::string::*;
use crate::text::{chars_of, decimal_text, push_chars, push_decimal, same_text};

verus! {

/// A delivery that the listener received.
#[derive(Clone, Debug)]
pub struct WebhookRequest {
    pub id: String,
    pub timestamp: String,
    pub method: String,
    pub path: String,
    pub headers: HashMap<String, String>,
    pub body: String,
    pub status_code: u16,
    pub error_reason: Option<String>,
}

/// What the listener answers to a delivery.
#[derive(Clone, Debug)]
pub struct WebhookReply {
    pub status_code: u16,
    /// Whether the delivery was accepted.
    pub success: bool,
    /// The message of an accepted delivery, the error of a refused one.
    pub text: String,
}

/// The answer to a request that was sent.
#[derive(Clone, Debug)]
pub struct SendWebhookResponse {
    pub status_code: u16,
    pub headers: HashMap<String, String>,
    pub body: String,
    pub error_reason: Option<String>,
}

/// The methods by which a request can be sent.
#[derive(Clone, Copy, Debug, PartialEq, Eq, Structural)]
pub enum HttpMethod {
    Get,
    Post,
    Put,
    Delete,
    Patch,
}

/// A request that is ready to be sent.
#[derive(Debug)]
pub struct SendPlan {
    pub method: HttpMethod,
    pub url: String,
    pub headers: HashMap<String, String>,
    /// The body, to be sent as JSON; none where the request carries none.
    pub body: Option<String>,
}

/// What the listener knows: whether it runs, the credentials it asks for,
/// and the deliveries it has received since it was started.
pub struct WebhookState {
    running: bool,
    auth_method: String,
    auth_value: String,
    requests: Vec<WebhookRequest>,
}

pub const STATUS_OK: u16 = 200;

pub const STATUS_UNAUTHORIZED: u16 = 401;

/// From this status on, an answer counts as an error.
pub const STATUS_ERRORS_FROM: u16 = 400;

/// How much of an answer's body its error reason quotes, in characters.
pub const ERROR_BODY_LIMIT: usize = 200;

pub const SCHEME_BEARER: &'static str = "bearer";

pub const SCHEME_API_KEY: &'static str = "api-key";

pub const SCHEME_BASIC: &'static str = "basic";

pub const PREFIX_BEARER: &'static str = "Bearer ";

pub const PREFIX_BASIC: &'static str = "Basic ";

pub const METHOD_POST: &'static str = "POST";

pub const PATH_WEBHOOK: &'static str = "/webhook";

pub const MSG_AUTH_FAILED: &'static str = "Authentication failed: Invalid credentials";

pub const MSG_RECEIVED: &'static str = "Webhook received successfully";

pub const MSG_HEALTH: &'static str = "Webhook server is running";

pub const MSG_ALREADY_RUNNING: &'static str = "Server is already running";

pub const MSG_NOT_RUNNING: &'static str = "No server is running";

pub const MSG_UNSUPPORTED_METHOD: &'static str = "Unsupported HTTP method: ";

pub const MSG_REQUEST_FAILED: &'static str = "Request failed: ";

pub const MSG_HTTP: &'static str = "HTTP ";

pub const MSG_SEPARATOR: &'static str = ": ";

pub const MSG_BIND_FAILED: &'static str = "Failed to bind to ";

pub const BIND_HOST: &'static str = "0.0.0.0:";

pub const URL_PREFIX: &'static str = "http://localhost:";

/// The text that `str::to_uppercase` of std makes of `text`: each character
/// replaced by its upper-case form, as Unicode defines it.
pub uninterp spec fn uppercase_text(text: Seq<char>) -> Seq<char>;

/// `str::to_uppercase` of std. Nothing is claimed of the text but that it
/// depends on the argument alone.
#[verifier::external_body]
fn to_uppercase(text: &str) -> (upper: String)
    ensures
        upper@ == uppercase_text(text@),
{
    text.to_uppercase()
}

/// `Uuid::new_v4` of `uuid`, as text: a fresh random identifier in the
/// hyphenated form, which is 36 characters long. It fails, by a panic, only
/// where the operating system gives no random bytes.
#[verifier::external_body]
fn new_request_id() -> (id: String)
    ensures
        id@.len() == 36,
{
    uuid::Uuid::new_v4().to_string()
}

/// `Local::now` of `chrono`, formatted as `%Y-%m-%d %H:%M:%S`: the local
/// date and time of the call, which depends on the clock and on the time
/// zone of the machine. Nothing is claimed of it.
#[verifier::external_body]
fn local_timestamp() -> String {
    chrono::Local::now().format("%Y-%m-%d %H:%M:%S").to_string()
}

/// Whether a delivery shows the credentials that the listener asks for.
///
/// Where no scheme or no value is set, nothing is asked. Under `bearer` and
/// `basic` the `authorization` header must be the value, bare or after the
/// scheme's prefix; under `api-key` the `x-api-key` header must be the
/// value. Under any other scheme nothing is asked.
pub open spec fn credentials_accepted(
    auth_method: Seq<char>,
    auth_value: Seq<char>,
    authorization: Option<&str>,
    api_key: Option<&str>,
) -> bool {
    if auth_method.len() == 0 || auth_value.len() == 0 {
        true
    } else if auth_method == SCHEME_BEARER@ {
        authorization matches Some(shown) && (shown@ == PREFIX_BEARER@ + auth_value || shown@
            == auth_value)
    } else if auth_method == SCHEME_API_KEY@ {
        api_key matches Some(shown) && shown@ == auth_value
    } else if auth_method == SCHEME_BASIC@ {
        authorization matches Some(shown) && (shown@ == PREFIX_BASIC@ + auth_value || shown@
            == auth_value)
    } else {
        true
    }
}

/// The method that an upper-case name stands for.
pub open spec fn method_named(upper: Seq<char>) -> Option<HttpMethod> {
    if upper == seq!['G', 'E', 'T'] {
        Some(HttpMethod::Get)
    } else if upper == seq!['P', 'O', 'S', 'T'] {
        Some(HttpMethod::Post)
    } else if upper == seq!['P', 'U', 'T'] {
        Some(HttpMethod::Put)
    } else if upper == seq!['D', 'E', 'L', 'E', 'T', 'E'] {
        Some(HttpMethod::Delete)
    } else if upper == seq!['P', 'A', 'T', 'C', 'H'] {
        Some(HttpMethod::Patch)
    } else {
        None
    }
}

/// The first `limit` characters of `text`, or all of it where it is shorter.
pub open spec fn first_chars(text: Seq<char>, limit: int) -> Seq<char> {
    if text.len() <= limit {
        text
    } else {
        text.take(limit)
    }
}

/// The error reason of an answer: none below status 400, else the status
/// and the beginning of the body.
pub open spec fn error_reason_text(status_code: u16, body: Seq<char>) -> Option<Seq<char>> {
    if status_code >= STATUS_ERRORS_FROM {
        Some(
            MSG_HTTP@ + decimal_text(status_code as nat) + MSG_SEPARATOR@ + first_chars(
                body,
                ERROR_BODY_LIMIT as int,
            ),
        )
    } else {
        None
    }
}

/// `text` is the text that `expected` describes, or both are none.
pub open spec fn text_is(text: Option<String>, expected: Option<Seq<char>>) -> bool {
    match (text, expected) {
        (Some(found), Some(wanted)) => found@ == wanted,
        (None, None) => true,
        _ => false,
    }
}

/// The record of a delivery, but for its identifier and its time.
pub open spec fn records(
    record: WebhookRequest,
    accepted: bool,
    headers: HashMap<String, String>,
    body: String,
) -> bool {
    &&& record.method@ == METHOD_POST@
    &&& record.path@ == PATH_WEBHOOK@
    &&& record.headers == headers
    &&& record.body == body
    &&& record.status_code == if accepted {
        STATUS_OK
    } else {
        STATUS_UNAUTHORIZED
    }
    &&& text_is(
        record.error_reason,
        if accepted {
            None
        } else {
            Some(MSG_AUTH_FAILED@)
        },
    )
}

/// The answer to a delivery.
pub open spec fn replies(reply: WebhookReply, accepted: bool) -> bool {
    &&& reply.success == accepted
    &&& reply.status_code == if accepted {
        STATUS_OK
    } else {
        STATUS_UNAUTHORIZED
    }
    &&& reply.text@ == if accepted {
        MSG_RECEIVED@
    } else {
        MSG_AUTH_FAILED@
    }
}

/// Whether the delivery shows the credentials that the listener asks for.
pub fn check_credentials(
    auth_method: &str,
    auth_value: &str,
    authorization: Option<&str>,
    api_key: Option<&str>,
) -> (accepted: bool)
    ensures
        accepted == credentials_accepted(auth_method@, auth_value@, authorization, api_key),
{
    if auth_method.is_empty() || auth_value.is_empty() {
        return true;
    }
    if same_text(auth_method, SCHEME_BEARER) {
        match authorization {
            Some(shown) => {
                let mut full = String::from_str(PREFIX_BEARER);
                full.append(auth_value);
                same_text(shown, full.as_str()) || same_text(shown, auth_value)
            },
            None => false,
        }
    } else if same_text(auth_method, SCHEME_API_KEY) {
        match api_key {
            Some(shown) => same_text(shown, auth_value),
            None => false,
        }
    } else if same_text(auth_method, SCHEME_BASIC) {
        match authorization {
            Some(shown) => {
                let mut full = String::from_str(PREFIX_BASIC);
                full.append(auth_value);
                same_text(shown, full.as_str()) || same_text(shown, auth_value)
            },
            None => false,
        }
    } else {
        true
    }
}

/// The record of a delivery with the identifier `id`, received at
/// `timestamp`.
pub fn build_webhook_request(
    id: String,
    timestamp: String,
    accepted: bool,
    headers: HashMap<String, String>,
    body: String,
) -> (record: WebhookRequest)
    ensures
        record.id == id,
        record.timestamp == timestamp,
        records(record, accepted, headers, body),
{
    let status_code = if accepted {
        STATUS_OK
    } else {
        STATUS_UNAUTHORIZED
    };
    let error_reason = if accepted {
        None
    } else {
        Some(String::from_str(MSG_AUTH_FAILED))
    };
    WebhookRequest {
        id,
        timestamp,
        method: String::from_str(METHOD_POST),
        path: String::from_str(PATH_WEBHOOK),
        headers,
        body,
        status_code,
        error_reason,
    }
}

/// The answer to a delivery that was accepted, or refused.
pub fn build_webhook_reply(accepted: bool) -> (reply: WebhookReply)
    ensures
        replies(reply, accepted),
{
    if accepted {
        WebhookReply {
            status_code: STATUS_OK,
            success: true,
            text: String::from_str(MSG_RECEIVED),
        }
    } else {
        WebhookReply {
            status_code: STATUS_UNAUTHORIZED,
            success: false,
            text: String::from_str(MSG_AUTH_FAILED),
        }
    }
}

/// Receives a delivery: checks its credentials, makes its record, with a
/// fresh identifier and the time of the call, and the answer to give.
pub fn handle_webhook(
    auth_method: &str,
    auth_value: &str,
    authorization: Option<&str>,
    api_key: Option<&str>,
    headers: HashMap<String, String>,
    body: String,
) -> (out: (WebhookRequest, WebhookReply))
    ensures
        records(
            out.0,
            credentials_accepted(auth_method@, auth_value@, authorization, api_key),
            headers,
            body,
        ),
        replies(out.1, credentials_accepted(auth_method@, auth_value@, authorization, api_key)),
        out.0.id@.len() == 36,
{
    let accepted = check_credentials(auth_method, auth_value, authorization, api_key);
    let id = new_request_id();
    let timestamp = local_timestamp();
    let record = build_webhook_request(id, timestamp, accepted, headers, body);
    (record, build_webhook_reply(accepted))
}

/// What the listener says of its health.
pub fn health_check() -> (said: &'static str)
    ensures
        said@ == MSG_HEALTH@,
{
    MSG_HEALTH
}

/// The method that an upper-case name stands for.
pub fn method_from_upper(upper: &str) -> (method: Option<HttpMethod>)
    ensures
        method == method_named(upper@),
{
    proof {
        reveal_strlit("GET");
        reveal_strlit("POST");
        reveal_strlit("PUT");
        reveal_strlit("DELETE");
        reveal_strlit("PATCH");
        assert("GET"@ =~= seq!['G', 'E', 'T']);
        assert("POST"@ =~= seq!['P', 'O', 'S', 'T']);
        assert("PUT"@ =~= seq!['P', 'U', 'T']);
        assert("DELETE"@ =~= seq!['D', 'E', 'L', 'E', 'T', 'E']);
        assert("PATCH"@ =~= seq!['P', 'A', 'T', 'C', 'H']);
    }
    if same_text(upper, "GET") {
        Some(HttpMethod::Get)
    } else if same_text(upper, "POST") {
        Some(HttpMethod::Post)
    } else if same_text(upper, "PUT") {
        Some(HttpMethod::Put)
    } else if same_text(upper, "DELETE") {
        Some(HttpMethod::Delete)
    } else if same_text(upper, "PATCH") {
        Some(HttpMethod::Patch)
    } else {
        None
    }
}

/// Prepares a request: the method is read without regard to case, and the
/// body is sent, as JSON, unless it is empty or the method is GET. A
/// method other than GET, POST, PUT, DELETE and PATCH is refused.
pub fn send_webhook_request(
    url: String,
    method: String,
    headers: HashMap<String, String>,
    body: String,
) -> (out: Result<SendPlan, String>)
    ensures
        match method_named(uppercase_text(method@)) {
            Some(named) => out matches Ok(plan) && plan.method == named && plan.url == url
                && plan.headers == headers && plan.body == if body@.len() == 0 || named
                == HttpMethod::Get {
                None
            } else {
                Some(body)
            },
            None => out matches Err(message) && message@ == MSG_UNSUPPORTED_METHOD@ + method@,
        },
{
    let upper = to_uppercase(method.as_str());
    match method_from_upper(upper.as_str()) {
        Some(named) => {
            let carried = if body.as_str().is_empty() {
                None
            } else {
                match named {
                    HttpMethod::Get => None,
                    _ => Some(body),
                }
            };
            Ok(SendPlan { method: named, url, headers, body: carried })
        },
        None => {
            let mut message = String::from_str(MSG_UNSUPPORTED_METHOD);
            message.append(method.as_str());
            Err(message)
        },
    }
}

/// The answer to a request that was sent, with its error reason.
pub fn build_send_response(status_code: u16, headers: HashMap<String, String>, body: String) -> (out:
    SendWebhookResponse)
    ensures
        out.status_code == status_code,
        out.headers == headers,
        out.body == body,
        text_is(out.error_reason, error_reason_text(status_code, body@)),
{
    let error_reason = if status_code >= STATUS_ERRORS_FROM {
        let mut reason = String::from_str(MSG_HTTP);
        push_decimal(&mut reason, status_code as u32);
        reason.append(MSG_SEPARATOR);
        let chars = chars_of(body.as_str());
        let shown = if chars.len() <= ERROR_BODY_LIMIT {
            chars.len()
        } else {
            ERROR_BODY_LIMIT
        };
        push_chars(&mut reason, &chars, 0, shown);
        assert(chars@.subrange(0, shown as int) =~= first_chars(body@, ERROR_BODY_LIMIT as int));
        Some(reason)
    } else {
        None
    };
    SendWebhookResponse { status_code, headers, body, error_reason }
}

/// The message of a request that could not be sent.
pub fn send_failed(reason: &str) -> (message: String)
    ensures
        message@ == MSG_REQUEST_FAILED@ + reason@,
{
    let mut message = String::from_str(MSG_REQUEST_FAILED);
    message.append(reason);
    message
}

/// The address that the listener binds for `port`: every interface.
pub fn bind_address(port: u16) -> (address: String)
    ensures
        address@ == BIND_HOST@ + decimal_text(port as nat),
{
    let mut address = String::from_str(BIND_HOST);
    push_decimal(&mut address, port as u32);
    address
}

/// The message of a listener that could not bind `address`.
pub fn bind_failed(address: &str, reason: &str) -> (message: String)
    ensures
        message@ == MSG_BIND_FAILED@ + address@ + MSG_SEPARATOR@ + reason@,
{
    let mut message = String::from_str(MSG_BIND_FAILED);
    message.append(address);
    message.append(MSG_SEPARATOR);
    message.append(reason);
    message
}

/// Where deliveries are to be sent to reach the listener on `port`.
pub fn webhook_url(port: u16) -> (url: String)
    ensures
        url@ == URL_PREFIX@ + decimal_text(port as nat) + PATH_WEBHOOK@,
{
    let mut url = String::from_str(URL_PREFIX);
    push_decimal(&mut url, port as u32);
    url.append(PATH_WEBHOOK);
    url
}

impl WebhookState {
    /// Whether the listener runs.
    pub closed spec fn running(&self) -> bool {
        self.running
    }

    /// The scheme and the value of the credentials that the listener asks
    /// for.
    pub closed spec fn credentials(&self) -> (Seq<char>, Seq<char>) {
        (self.auth_method@, self.auth_value@)
    }

    /// The deliveries received, oldest first.
    pub closed spec fn received(&self) -> Seq<WebhookRequest> {
        self.requests@
    }

    /// A listener that does not run, asks for nothing and has received
    /// nothing.
    pub fn new() -> (state: WebhookState)
        ensures
            !state.running(),
            state.credentials() == (Seq::<char>::empty(), Seq::<char>::empty()),
            state.received() == Seq::<WebhookRequest>::empty(),
    {
        WebhookState {
            running: false,
            auth_method: String::new(),
            auth_value: String::new(),
            requests: Vec::new(),
        }
    }

    /// Starts the listener: what it had received is forgotten and the
    /// credentials are set. A listener that runs already refuses, and
    /// nothing changes.
    pub fn start_webhook_server(&mut self, auth_method: String, auth_value: String) -> (out: Result<
        (),
        String,
    >)
        ensures
            old(self).running() ==> (out matches Err(message) && message@ == MSG_ALREADY_RUNNING@
                && *final(self) == *old(self)),
            !old(self).running() ==> out is Ok && final(self).running()
                && final(self).credentials() == (auth_method@, auth_value@)
                && final(self).received() == Seq::<WebhookRequest>::empty(),
    {
        if self.running {
            return Err(String::from_str(MSG_ALREADY_RUNNING));
        }
        self.requests.clear();
        self.auth_method = auth_method;
        self.auth_value = auth_value;
        self.running = true;
        Ok(())
    }

    /// Takes back a start whose listener could not be bound: the listener
    /// does not run.
    pub fn start_failed(&mut self)
        ensures
            !final(self).running(),
            final(self).credentials() == old(self).credentials(),
            final(self).received() == old(self).received(),
    {
        self.running = false;
    }

    /// Stops the listener. One that does not run refuses.
    pub fn stop_webhook_server(&mut self) -> (out: Result<(), String>)
        ensures
            old(self).running() ==> out is Ok,
            !old(self).running() ==> (out matches Err(message) && message@ == MSG_NOT_RUNNING@),
            !final(self).running(),
            final(self).credentials() == old(self).credentials(),
            final(self).received() == old(self).received(),
    {
        if self.running {
            self.running = false;
            Ok(())
        } else {
            Err(String::from_str(MSG_NOT_RUNNING))
        }
    }

    /// The scheme of the credentials asked for.
    pub fn auth_method(&self) -> (scheme: &str)
        ensures
            scheme@ == self.credentials().0,
    {
        self.auth_method.as_str()
    }

    /// The value of the credentials asked for.
    pub fn auth_value(&self) -> (value: &str)
        ensures
            value@ == self.credentials().1,
    {
        self.auth_value.as_str()
    }

    /// Keeps the record of a delivery, after those already kept.
    pub fn record(&mut self, request: WebhookRequest)
        ensures
            final(self).received() == old(self).received().push(request),
            final(self).running() == old(self).running(),
            final(self).credentials() == old(self).credentials(),
    {
        self.requests.push(request);
    }

    /// The deliveries received, oldest first.
    pub fn get_webhook_requests(&self) -> (requests: &Vec<WebhookRequest>)
        ensures
            requests@ == self.received(),
    {
        &self.requests
    }

    /// Forgets the deliveries received.
    pub fn clear_webhook_requests(&mut self)
        ensures
            final(self).received() == Seq::<WebhookRequest>::empty(),
            final(self).running() == old(self).running(),
            final(self).credentials() == old(self).credentials(),
    {
        self.requests.clear();
    }
}

} // verus!
