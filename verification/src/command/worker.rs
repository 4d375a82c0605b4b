//! The worker: it connects to a coordinator, announces itself and asks for work.
pub mod conduct;
pub mod driver;
pub mod laws;

use vstd::prelude::*;

use crate::command::worker_protocol::{ReplyBody, ReplyBodyView, Wire, CRF_SEARCH_TOPIC};
use crate::delay::Delay;
use crate::json::{
    as_bool, as_text, as_u64, field, json_display, json_text, member, text_view, Json, JsonView,
};
use crate::text::{
    decimal, has_prefix, same_text, starts_with, trim, trim_end_matches, trimmed, trimmed_end,
};

verus! {

/// The version of the Phoenix serialisation that the worker speaks.
pub const PHOENIX_VSN: &'static str = "2.0.0";

/// The version of the protocol that the worker announces by default.
pub const SUPPORTED_PROTOCOL_VERSION: u64 = 1;

/// The command line of the worker.
#[derive(Debug, Clone, PartialEq, Eq)]
pub struct Args {
    /// The base URL of the coordinator, such as `http://127.0.0.1:4000`.
    pub connect: String,
    /// The token that the worker authenticates with.
    pub token: String,
    /// The id that the worker announces.
    pub worker_id: String,
    /// The version that the worker announces.
    pub version: String,
    /// The version of the protocol that the worker announces.
    pub protocol_version: u64,
    /// Whether to end after the first request for work.
    pub once: bool,
}

/// How the worker is to run.
#[derive(Debug, Clone, PartialEq, Eq)]
pub struct WorkerConfig {
    pub connect: String,
    pub token: String,
    pub worker_id: String,
    pub version: String,
    pub protocol_version: u64,
    pub once: bool,
}

impl From<Args> for WorkerConfig {
    fn from(args: Args) -> (r: WorkerConfig) {
        WorkerConfig {
            connect: args.connect,
            token: args.token,
            worker_id: args.worker_id,
            version: args.version,
            protocol_version: args.protocol_version,
            once: args.once,
        }
    }
}

impl vstd::std_specs::convert::FromSpecImpl<Args> for WorkerConfig {
    open spec fn obeys_from_spec() -> bool {
        true
    }

    open spec fn from_spec(args: Args) -> WorkerConfig {
        WorkerConfig {
            connect: args.connect,
            token: args.token,
            worker_id: args.worker_id,
            version: args.version,
            protocol_version: args.protocol_version,
            once: args.once,
        }
    }
}

/// The worker runs as its command line says, in every point.
pub proof fn config_is_the_command_line(args: Args)
    ensures
        ({
            let config = <WorkerConfig as vstd::std_specs::convert::FromSpec<Args>>::from_spec(args);
            &&& config.connect@ == args.connect@ && config.token@ == args.token@
            &&& config.worker_id@ == args.worker_id@ && config.version@ == args.version@
            &&& config.protocol_version == args.protocol_version && config.once == args.once
        }),
{
}

/// What came of a worker that asked for work once.
#[derive(Debug, PartialEq, Eq)]
pub struct WorkerSession {
    pub assigned_worker_id: String,
    pub negotiated_protocol_version: u64,
    pub work_status: String,
}

/// What a session holds.
pub struct SessionView {
    pub assigned_worker_id: Seq<char>,
    pub negotiated_protocol_version: u64,
    pub work_status: Seq<char>,
}

impl View for WorkerSession {
    type V = SessionView;

    open spec fn view(&self) -> SessionView {
        SessionView {
            assigned_worker_id: self.assigned_worker_id@,
            negotiated_protocol_version: self.negotiated_protocol_version,
            work_status: self.work_status@,
        }
    }
}

/// Why a worker lost its coordinator, or never found it.
#[derive(Debug, Clone, PartialEq, Eq)]
pub enum WorkerError {
    /// The base URL has a scheme that no websocket can be made of.
    UnsupportedUrl(String),
    /// The websocket could not be opened.
    Connect { url: String, reason: String },
    /// A message could not be sent.
    Send,
    /// A message could not be read.
    Read,
    /// A message is not a reply.
    DecodeReply,
    /// The response of a reply is not what the request asks for.
    DecodeOkReply,
    /// The request was refused.
    Refused { event: String, response: String },
    /// The status of a reply is neither success nor refusal.
    UnexpectedStatus(String),
    /// The coordinator closed the websocket before it replied.
    Closed { event: String, frame: String },
    /// The websocket ended before the coordinator replied.
    Ended { event: String },
    /// The coordinator did not accept the announcement.
    NotAccepted,
}

/// What an error holds.
pub enum ErrorView {
    UnsupportedUrl(Seq<char>),
    Connect { url: Seq<char>, reason: Seq<char> },
    Send,
    Read,
    DecodeReply,
    DecodeOkReply,
    Refused { event: Seq<char>, response: Seq<char> },
    UnexpectedStatus(Seq<char>),
    Closed { event: Seq<char>, frame: Seq<char> },
    Ended { event: Seq<char> },
    NotAccepted,
}

impl View for WorkerError {
    type V = ErrorView;

    open spec fn view(&self) -> ErrorView {
        match self {
            WorkerError::UnsupportedUrl(url) => ErrorView::UnsupportedUrl(url@),
            WorkerError::Connect { url, reason } => ErrorView::Connect { url: url@, reason: reason@ },
            WorkerError::Send => ErrorView::Send,
            WorkerError::Read => ErrorView::Read,
            WorkerError::DecodeReply => ErrorView::DecodeReply,
            WorkerError::DecodeOkReply => ErrorView::DecodeOkReply,
            WorkerError::Refused { event, response } => ErrorView::Refused {
                event: event@,
                response: response@,
            },
            WorkerError::UnexpectedStatus(status) => ErrorView::UnexpectedStatus(status@),
            WorkerError::Closed { event, frame } => ErrorView::Closed { event: event@, frame: frame@ },
            WorkerError::Ended { event } => ErrorView::Ended { event: event@ },
            WorkerError::NotAccepted => ErrorView::NotAccepted,
        }
    }
}

/// The text of an error.
pub open spec fn error_message(error: ErrorView) -> Seq<char> {
    match error {
        ErrorView::UnsupportedUrl(url) => "unsupported websocket base URL: "@ + url,
        ErrorView::Connect { url, reason } => "connect websocket "@ + url + ": "@ + reason,
        ErrorView::Send => "send websocket message"@,
        ErrorView::Read => "read websocket message"@,
        ErrorView::DecodeReply => "decode phoenix reply"@,
        ErrorView::DecodeOkReply => "decode phoenix ok reply"@,
        ErrorView::Refused { event, response } => event + " failed: "@ + response,
        ErrorView::UnexpectedStatus(status) => "unexpected phoenix status "@ + status,
        ErrorView::Closed { event, frame } => "websocket closed before "@ + event + " reply: "@ + frame,
        ErrorView::Ended { event } => "websocket ended before "@ + event + " reply"@,
        ErrorView::NotAccepted => "worker announcement was not accepted"@,
    }
}

impl WorkerError {
    /// The text of the error.
    pub fn message(&self) -> (r: String)
        ensures
            r@ == error_message(self@),
    {
        match self {
            WorkerError::UnsupportedUrl(url) => "unsupported websocket base URL: ".to_owned().concat(
                url.as_str(),
            ),
            WorkerError::Connect { url, reason } => "connect websocket ".to_owned().concat(
                url.as_str(),
            ).concat(": ").concat(reason.as_str()),
            WorkerError::Send => "send websocket message".to_owned(),
            WorkerError::Read => "read websocket message".to_owned(),
            WorkerError::DecodeReply => "decode phoenix reply".to_owned(),
            WorkerError::DecodeOkReply => "decode phoenix ok reply".to_owned(),
            WorkerError::Refused { event, response } => event.clone().concat(" failed: ").concat(
                response.as_str(),
            ),
            WorkerError::UnexpectedStatus(status) => "unexpected phoenix status ".to_owned().concat(
                status.as_str(),
            ),
            WorkerError::Closed { event, frame } => "websocket closed before ".to_owned().concat(
                event.as_str(),
            ).concat(" reply: ").concat(frame.as_str()),
            WorkerError::Ended { event } => "websocket ended before ".to_owned().concat(
                event.as_str(),
            ).concat(" reply"),
            WorkerError::NotAccepted => "worker announcement was not accepted".to_owned(),
        }
    }
}

/// The scheme of the websocket for a base URL, and how many characters of the
/// URL it stands in place of.
pub open spec fn websocket_scheme(url: Seq<char>) -> Option<(Seq<char>, nat)> {
    if has_prefix(url, "http://"@) {
        Some(("ws://"@, "http://"@.len()))
    } else if has_prefix(url, "https://"@) {
        Some(("wss://"@, "https://"@.len()))
    } else if has_prefix(url, "ws://"@) {
        Some(("ws://"@, "ws://"@.len()))
    } else if has_prefix(url, "wss://"@) {
        Some(("wss://"@, "wss://"@.len()))
    } else {
        None
    }
}

/// The URL of the worker's websocket: the base URL without the slashes at its
/// end, with the scheme of a websocket, then path and query.
pub open spec fn websocket_url(base_url: Seq<char>, token: Seq<char>) -> Result<Seq<char>, ErrorView> {
    let base = trimmed_end(base_url, '/');
    match websocket_scheme(base) {
        Some((scheme, replaced)) => Ok(
            scheme + base.skip(replaced as int) + "/workers/socket/websocket?token="@ + token
                + "&vsn="@ + PHOENIX_VSN@,
        ),
        None => Err(ErrorView::UnsupportedUrl(base)),
    }
}

/// The views of both sides of a result.
pub open spec fn url_view(result: Result<String, WorkerError>) -> Result<Seq<char>, ErrorView> {
    match result {
        Ok(url) => Ok(url@),
        Err(error) => Err(error@),
    }
}

/// The URL of the worker's websocket.
pub fn worker_websocket_url(base_url: &str, token: &str) -> (r: Result<String, WorkerError>)
    ensures
        url_view(r) == websocket_url(base_url@, token@),
{
    let base = trim_end_matches(base_url, '/');
    let (scheme, replaced): (&str, &str) = if starts_with(base, "http://") {
        ("ws://", "http://")
    } else if starts_with(base, "https://") {
        ("wss://", "https://")
    } else if starts_with(base, "ws://") {
        ("ws://", "ws://")
    } else if starts_with(base, "wss://") {
        ("wss://", "wss://")
    } else {
        return Err(WorkerError::UnsupportedUrl(base.to_owned()));
    };
    let rest = base.substring_char(replaced.unicode_len(), base.unicode_len());
    Ok(
        scheme.to_owned().concat(rest).concat("/workers/socket/websocket?token=").concat(
            token,
        ).concat("&vsn=").concat(PHOENIX_VSN),
    )
}

/// A slash more at the end of the base URL makes no difference.
pub proof fn trailing_slash_is_ignored(base_url: Seq<char>, token: Seq<char>)
    ensures
        websocket_url(base_url.push('/'), token) == websocket_url(base_url, token),
{
    assert(base_url.push('/').drop_last() =~= base_url);
}

/// The websocket is encrypted just where the base URL asks for that.
pub proof fn websocket_keeps_encryption(base_url: Seq<char>, token: Seq<char>)
    ensures
        websocket_url(base_url, token) matches Ok(url) ==> {
            let base = trimmed_end(base_url, '/');
            if has_prefix(base, "https://"@) || has_prefix(base, "wss://"@) {
                has_prefix(url, "wss://"@)
            } else {
                has_prefix(url, "ws://"@)
            }
        },
{
    let base = trimmed_end(base_url, '/');
    reveal_strlit("http://");
    reveal_strlit("https://");
    reveal_strlit("ws://");
    reveal_strlit("wss://");
    if let Ok(url) = websocket_url(base_url, token) {
        let (scheme, _) = websocket_scheme(base)->Some_0;
        assert(url.take(scheme.len() as int) =~= scheme);
        if has_prefix(base, "http://"@) {
            assert(base.take(7)[4] == base[4]);
            if has_prefix(base, "https://"@) {
                assert(base.take(8)[4] == base[4]);
            }
            assert(base.take(7)[0] == base[0]);
            if has_prefix(base, "wss://"@) {
                assert(base.take(6)[0] == base[0]);
            }
        } else if has_prefix(base, "ws://"@) {
            assert(base.take(5)[2] == base[2]);
            if has_prefix(base, "wss://"@) {
                assert(base.take(6)[2] == base[2]);
            }
        }
    }
}

/// Why a websocket could not be opened.
#[derive(Debug, Clone, PartialEq, Eq)]
pub enum ConnectFailure {
    /// The server answered with another HTTP status, and perhaps a body.
    Http { status: u16, body: Option<Vec<u8>> },
    /// Another reason, in words.
    Other(String),
}

/// What such a failure holds.
pub enum FailureView {
    Http { status: u16, body: Option<Seq<u8>> },
    Other(Seq<char>),
}

impl View for ConnectFailure {
    type V = FailureView;

    open spec fn view(&self) -> FailureView {
        match self {
            ConnectFailure::Http { status, body } => FailureView::Http {
                status: *status,
                body: match body {
                    Some(bytes) => Some(bytes@),
                    None => None,
                },
            },
            ConnectFailure::Other(reason) => FailureView::Other(reason@),
        }
    }
}

impl FailureView {
    /// The status is one that HTTP knows: it has three digits.
    pub open spec fn valid(self) -> bool {
        self matches FailureView::Http { status, .. } ==> 100 <= status < 1000
    }
}

/// The text that an HTTP status is displayed as: its number and its reason phrase.
pub uninterp spec fn status_display(status: u16) -> Seq<char>;

/// `StatusCode`'s `Display` of the crate `http`, as `tungstenite` gives it on:
/// the number, a space and the reason phrase of the status.
#[verifier::external_body]
fn status_text(status: u16) -> (r: String)
    requires
        100 <= status < 1000,
    ensures
        r@ == status_display(status),
        has_prefix(r@, decimal(status as nat) + " "@),
{
    tokio_tungstenite::tungstenite::http::StatusCode::from_u16(status).unwrap().to_string()
}

/// The text that bytes are read as where they may not be UTF-8.
pub uninterp spec fn lossy_text(bytes: Seq<u8>) -> Seq<char>;

/// `String::from_utf8_lossy`: bytes that are UTF-8 are read as the text that
/// they encode. What stands for bytes that are not is left to the name.
#[verifier::external_body]
fn text_of_bytes(bytes: &[u8]) -> (r: String)
    ensures
        r@ == lossy_text(bytes@),
        vstd::utf8::valid_utf8(bytes@) ==> r@ == vstd::utf8::decode_utf8(bytes@),
{
    String::from_utf8_lossy(bytes).into_owned()
}

/// An HTTP answer in words.
pub open spec fn answer_text(status: Seq<char>, body: Seq<char>) -> Seq<char> {
    "HTTP "@ + status + " "@ + trimmed(body)
}

/// An HTTP answer in words: the status, and the body without white space
/// around it.
pub fn http_answer_text(status: &str, body: &str) -> (r: String)
    ensures
        r@ == answer_text(status@, body@),
{
    "HTTP ".to_owned().concat(status).concat(" ").concat(trim(body))
}

/// Why the websocket could not be opened, in words: the HTTP status and the
/// body of the answer without white space around it, if there was an answer.
pub open spec fn failure_reason(failure: FailureView) -> Seq<char> {
    match failure {
        FailureView::Http { status, body } => answer_text(
            status_display(status),
            match body {
                Some(bytes) => lossy_text(bytes),
                None => Seq::empty(),
            },
        ),
        FailureView::Other(reason) => reason,
    }
}

/// The error that the websocket could not be opened.
pub fn websocket_connect_error(request_url: &str, failure: &ConnectFailure) -> (r: WorkerError)
    requires
        failure@.valid(),
    ensures
        r@ == (ErrorView::Connect { url: request_url@, reason: failure_reason(failure@) }),
{
    let reason = match failure {
        ConnectFailure::Http { status, body } => {
            let text = match body {
                Some(bytes) => text_of_bytes(bytes.as_slice()),
                None => String::new(),
            };
            http_answer_text(status_text(*status).as_str(), text.as_str())
        },
        ConnectFailure::Other(reason) => reason.clone(),
    };
    WorkerError::Connect { url: request_url.to_owned(), reason }
}

/// A message of the coordinator: the reference of the join, the reference of
/// the request, the topic, the event and the body.
#[derive(Debug, PartialEq, Eq)]
pub struct ReplyEnvelope(
    pub Option<String>,
    pub Option<String>,
    pub String,
    pub String,
    pub ReplyBody<Json>,
);

/// What such a message holds.
pub struct EnvelopeView {
    pub join_ref: Option<Seq<char>>,
    pub msg_ref: Option<Seq<char>>,
    pub topic: Seq<char>,
    pub event: Seq<char>,
    pub body: ReplyBodyView<JsonView>,
}

impl View for ReplyEnvelope {
    type V = EnvelopeView;

    open spec fn view(&self) -> EnvelopeView {
        EnvelopeView {
            join_ref: text_view(self.0),
            msg_ref: text_view(self.1),
            topic: self.2@,
            event: self.3@,
            body: self.4@,
        }
    }
}

/// What came out of the websocket.
#[derive(Debug, PartialEq, Eq)]
pub enum Incoming {
    /// A text, where it is a message of the coordinator.
    Text(Option<ReplyEnvelope>),
    /// A close frame, in words.
    Close(String),
    /// A frame of another kind.
    Other,
    /// An error.
    Failed,
    /// Nothing, and nothing will.
    Ended,
}

/// What that holds.
pub enum IncomingView {
    Text(Option<EnvelopeView>),
    Close(Seq<char>),
    Other,
    Failed,
    Ended,
}

impl View for Incoming {
    type V = IncomingView;

    open spec fn view(&self) -> IncomingView {
        match self {
            Incoming::Text(Some(envelope)) => IncomingView::Text(Some(envelope@)),
            Incoming::Text(None) => IncomingView::Text(None),
            Incoming::Close(frame) => IncomingView::Close(frame@),
            Incoming::Other => IncomingView::Other,
            Incoming::Failed => IncomingView::Failed,
            Incoming::Ended => IncomingView::Ended,
        }
    }
}

impl EnvelopeView {
    /// The message replies to the request of that reference.
    pub open spec fn answers(self, reference: Seq<char>) -> bool {
        &&& self.topic == CRF_SEARCH_TOPIC@
        &&& self.event == "phx_reply"@
        &&& self.msg_ref == Some(reference)
    }
}

/// The response that a reply gives to a request, or why it gives none.
pub open spec fn reply_outcome(body: ReplyBodyView<JsonView>, event: Seq<char>) -> Result<
    JsonView,
    ErrorView,
> {
    if body.status == "ok"@ {
        Ok(body.response)
    } else if body.status == "error"@ {
        Err(ErrorView::Refused { event, response: json_display(body.response) })
    } else {
        Err(ErrorView::UnexpectedStatus(body.status))
    }
}

/// What `incoming` settles of a request: nothing where it is no text or no
/// reply to the request, else its outcome.
pub open spec fn settled(incoming: IncomingView, reference: Seq<char>, event: Seq<char>) -> Option<
    Result<JsonView, ErrorView>,
> {
    match incoming {
        IncomingView::Text(Some(envelope)) => if envelope.answers(reference) {
            Some(reply_outcome(envelope.body, event))
        } else {
            None
        },
        IncomingView::Text(None) => Some(Err(ErrorView::DecodeReply)),
        IncomingView::Close(frame) => Some(Err(ErrorView::Closed { event, frame })),
        IncomingView::Other => None,
        IncomingView::Failed => Some(Err(ErrorView::Read)),
        IncomingView::Ended => Some(Err(ErrorView::Ended { event })),
    }
}

/// The views of what settles a request.
pub open spec fn outcome_view(outcome: Option<Result<Json, WorkerError>>) -> Option<
    Result<JsonView, ErrorView>,
> {
    match outcome {
        Some(Ok(response)) => Some(Ok(response@)),
        Some(Err(error)) => Some(Err(error@)),
        None => None,
    }
}

/// What `incoming` settles of the request of that reference; nothing where the
/// reply is still to come.
pub fn expect_reply(incoming: Incoming, expected_ref: &str, expected_event: &str) -> (r: Option<
    Result<Json, WorkerError>,
>)
    ensures
        outcome_view(r) == settled(incoming@, expected_ref@, expected_event@),
        incoming matches Incoming::Text(Some(ReplyEnvelope(_, msg_ref, topic, event, body))) ==> if topic@
            == "workers:crf_search"@ && event@ == "phx_reply"@ && (msg_ref matches Some(text)
            && text@ == expected_ref@) {
            &&& body.status@ == "ok"@ ==> r == Some(Ok::<Json, WorkerError>(body.response))
            &&& body.status@ == "error"@ ==> (r matches Some(Err(WorkerError::Refused { event, response }))
                && event@ == expected_event@ && response@ == json_display(body.response@))
            &&& body.status@ != "ok"@ && body.status@ != "error"@ ==> (r matches Some(
                Err(WorkerError::UnexpectedStatus(status)),
            ) && status@ == body.status@)
        } else {
            r is None
        },
        incoming is Other ==> r is None,
{
    proof {
        reveal_strlit("ok");
        reveal_strlit("error");
        assert("ok"@.len() != "error"@.len());
    }
    match incoming {
        Incoming::Text(Some(ReplyEnvelope(_, msg_ref, topic, event, body))) => {
            let of_request = match &msg_ref {
                Some(msg_ref) => same_text(msg_ref.as_str(), expected_ref),
                None => false,
            };
            if !of_request || !same_text(topic.as_str(), CRF_SEARCH_TOPIC) || !same_text(
                event.as_str(),
                "phx_reply",
            ) {
                None
            } else if same_text(body.status.as_str(), "ok") {
                Some(Ok(body.response))
            } else if same_text(body.status.as_str(), "error") {
                Some(
                    Err(
                        WorkerError::Refused {
                            event: expected_event.to_owned(),
                            response: json_text(&body.response),
                        },
                    ),
                )
            } else {
                Some(Err(WorkerError::UnexpectedStatus(body.status)))
            }
        },
        Incoming::Text(None) => Some(Err(WorkerError::DecodeReply)),
        Incoming::Close(frame) => Some(
            Err(WorkerError::Closed { event: expected_event.to_owned(), frame }),
        ),
        Incoming::Other => None,
        Incoming::Failed => Some(Err(WorkerError::Read)),
        Incoming::Ended => Some(Err(WorkerError::Ended { event: expected_event.to_owned() })),
    }
}

/// The response to a join.
#[derive(Debug, PartialEq, Eq)]
pub struct JoinResponse {
    pub worker_id: String,
}

impl View for JoinResponse {
    type V = Seq<char>;

    open spec fn view(&self) -> Seq<char> {
        self.worker_id@
    }
}

impl Wire for JoinResponse {
    open spec fn encoded(value: Seq<char>) -> JsonView {
        JsonView::Object(seq![("worker_id"@, JsonView::Text(value))])
    }

    open spec fn decoded(json: JsonView) -> Option<Seq<char>> {
        as_text(field(json, "worker_id"@, 0, 1))
    }

    proof fn decodes_what_it_encodes(value: Seq<char>) {
    }

    fn to_json(&self) -> Json {
        let r = Json::Object(vec![("worker_id".to_owned(), Json::text(self.worker_id.as_str()))]);
        assert(r@->Object_0 =~= Self::encoded(self@)->Object_0);
        r
    }

    fn from_json(json: &Json) -> (r: Option<JoinResponse>)
        ensures
            r matches Some(join) ==> Some(join.worker_id@) == as_text(
                field(json@, "worker_id"@, 0, 1),
            ),
            r is None ==> as_text(field(json@, "worker_id"@, 0, 1)) is None,
    {
        match json.text_field("worker_id", 0, 1) {
            Some(worker_id) => Some(JoinResponse { worker_id }),
            None => None,
        }
    }
}

/// The response to an announcement.
#[derive(Debug, PartialEq, Eq)]
pub struct AnnounceResponse {
    pub accepted: bool,
    pub protocol_version: u64,
}

impl View for AnnounceResponse {
    type V = (bool, u64);

    open spec fn view(&self) -> (bool, u64) {
        (self.accepted, self.protocol_version)
    }
}

impl Wire for AnnounceResponse {
    open spec fn encoded(value: (bool, u64)) -> JsonView {
        JsonView::Object(
            seq![
                ("accepted"@, JsonView::Bool(value.0)),
                ("protocol_version"@, JsonView::U64(value.1)),
            ],
        )
    }

    open spec fn decoded(json: JsonView) -> Option<(bool, u64)> {
        match (
            as_bool(field(json, "accepted"@, 0, 2)),
            as_u64(field(json, "protocol_version"@, 1, 2)),
        ) {
            (Some(accepted), Some(protocol_version)) => Some((accepted, protocol_version)),
            _ => None,
        }
    }

    proof fn decodes_what_it_encodes(value: (bool, u64)) {
        reveal_strlit("accepted");
        reveal_strlit("protocol_version");
        assert("accepted"@.len() != "protocol_version"@.len());
        let members = Self::encoded(value)->Object_0;
        reveal_with_fuel(member, 3);
        assert(members.drop_last().last() == members[0]);
    }

    fn to_json(&self) -> Json {
        let r = Json::Object(
            vec![
                ("accepted".to_owned(), Json::truth(self.accepted)),
                ("protocol_version".to_owned(), Json::number(self.protocol_version)),
            ],
        );
        assert(r@->Object_0 =~= Self::encoded(self@)->Object_0);
        r
    }

    fn from_json(json: &Json) -> (r: Option<AnnounceResponse>)
        ensures
            r matches Some(announce) ==> Some(announce.accepted) == as_bool(
                field(json@, "accepted"@, 0, 2),
            ) && Some(announce.protocol_version) == as_u64(
                field(json@, "protocol_version"@, 1, 2),
            ),
            r is None ==> as_bool(field(json@, "accepted"@, 0, 2)) is None || as_u64(
                field(json@, "protocol_version"@, 1, 2),
            ) is None,
    {
        match (json.bool_field("accepted", 0, 2), json.u64_field("protocol_version", 1, 2)) {
            (Some(accepted), Some(protocol_version)) => Some(
                AnnounceResponse { accepted, protocol_version },
            ),
            _ => None,
        }
    }
}

/// The response to a request for work.
#[derive(Debug, PartialEq, Eq)]
pub struct PullWorkResponse {
    pub status: String,
}

impl View for PullWorkResponse {
    type V = Seq<char>;

    open spec fn view(&self) -> Seq<char> {
        self.status@
    }
}

impl Wire for PullWorkResponse {
    open spec fn encoded(value: Seq<char>) -> JsonView {
        JsonView::Object(seq![("status"@, JsonView::Text(value))])
    }

    open spec fn decoded(json: JsonView) -> Option<Seq<char>> {
        as_text(field(json, "status"@, 0, 1))
    }

    proof fn decodes_what_it_encodes(value: Seq<char>) {
    }

    fn to_json(&self) -> Json {
        let r = Json::Object(vec![("status".to_owned(), Json::text(self.status.as_str()))]);
        assert(r@->Object_0 =~= Self::encoded(self@)->Object_0);
        r
    }

    fn from_json(json: &Json) -> (r: Option<PullWorkResponse>)
        ensures
            r matches Some(pull) ==> Some(pull.status@) == as_text(field(json@, "status"@, 0, 1)),
            r is None ==> as_text(field(json@, "status"@, 0, 1)) is None,
    {
        match json.text_field("status", 0, 1) {
            Some(status) => Some(PullWorkResponse { status }),
            None => None,
        }
    }
}

/// How long the worker waits between its steps.
#[derive(Debug, Clone, Copy, PartialEq, Eq)]
pub struct WorkerRuntime {
    /// Between two requests for work.
    pub idle_delay: Delay,
    /// Before the first attempt to connect again.
    pub reconnect_base_delay: Delay,
    /// Before any further attempt, at most.
    pub reconnect_max_delay: Delay,
    /// After how many requests for work the worker ends, if it does.
    pub max_pulls: Option<usize>,
}

impl Default for WorkerRuntime {
    fn default() -> (r: WorkerRuntime)
        ensures
            r.idle_delay.nanos == 5_000_000_000,
            r.reconnect_base_delay.nanos == 1_000_000_000,
            r.reconnect_max_delay.nanos == 30_000_000_000,
            r.max_pulls is None,
    {
        WorkerRuntime {
            idle_delay: Delay::from_secs(5),
            reconnect_base_delay: Delay::from_secs(1),
            reconnect_max_delay: Delay::from_secs(30),
            max_pulls: None,
        }
    }
}

/// The delays between attempts to connect.
#[derive(Debug, Clone, Copy, PartialEq, Eq)]
pub struct ReconnectBackoff {
    /// The next delay.
    pub current: Delay,
    /// The first delay.
    pub base: Delay,
    /// The greatest delay after the first.
    pub max: Delay,
}

impl ReconnectBackoff {
    /// Delays that begin with `base` and double up to `max`.
    pub fn new(base: Delay, max: Delay) -> (r: ReconnectBackoff)
        ensures
            r == (ReconnectBackoff { current: base, base, max }),
    {
        ReconnectBackoff { current: base, base, max }
    }

    /// The delays after the next one.
    pub open spec fn advanced(self) -> ReconnectBackoff {
        ReconnectBackoff { current: self.current.capped_double(self.max), ..self }
    }

    /// The next delay; the one after it is twice as long, up to `max`.
    pub fn next_delay(&mut self) -> (r: Delay)
        ensures
            r == old(self).current,
            *final(self) == old(self).advanced(),
    {
        let delay = self.current;
        self.current = self.current.doubled_up_to(self.max);
        delay
    }

    /// Begins anew.
    pub fn reset(&mut self)
        ensures
            *final(self) == (ReconnectBackoff { current: old(self).base, ..*old(self) }),
    {
        self.current = self.base;
    }
}

} // verus!
