//! What the worker says and does in each situation, word for word.
use vstd::prelude::*;

use crate::command::worker::driver::{
    report, ActionView, ConfigView, ConnectedWorker, DriverView, EventView, LinkView, Phase,
    PhaseView, Step, StepView, WorkerAction, WorkerDriver, WorkerEvent,
};
use crate::command::worker::{
    error_message, failure_reason, lossy_text, settled, status_display, websocket_url,
    AnnounceResponse, ConnectFailure, EnvelopeView, ErrorView, FailureView, Incoming, IncomingView,
    JoinResponse, PullWorkResponse, ReconnectBackoff, ReplyEnvelope, SessionView, WorkerConfig,
    WorkerError, WorkerRuntime, WorkerSession,
};
use crate::command::worker_protocol::laws::requests_on_the_wire;
use crate::command::worker_protocol::{AnnounceView, ReplyBodyView, Wire};
use crate::json::{fields_of_records, holds, json_display, lacks, JsonView};
use crate::text::{
    decimal, has_prefix, prefix_is_a_beginning, trimmed, trimmed_end,
    trimmed_end_loses_only_the_end,
};

verus! {

/// A message with that topic, event, reference and body, whatever reference of
/// a join it carries.
pub open spec fn message(
    join_ref: Option<Seq<char>>,
    msg_ref: Option<Seq<char>>,
    topic: Seq<char>,
    event: Seq<char>,
    status: Seq<char>,
    response: JsonView,
) -> IncomingView {
    IncomingView::Text(
        Some(
            EnvelopeView {
                join_ref,
                msg_ref,
                topic,
                event,
                body: ReplyBodyView { status, response },
            },
        ),
    )
}

/// A reply on the topic of CRF searches under the expected reference settles
/// the request, whatever reference of a join it carries or lacks: "ok" grants
/// it with the response, "error" refuses it, and any other status is an error.
/// Any other message settles nothing.
pub proof fn replies_settle_by_reference_topic_and_event(
    join_ref: Option<Seq<char>>,
    msg_ref: Option<Seq<char>>,
    topic: Seq<char>,
    event: Seq<char>,
    status: Seq<char>,
    response: JsonView,
    expected_ref: Seq<char>,
    expected_event: Seq<char>,
)
    ensures
        ({
            let outcome = settled(
                message(join_ref, msg_ref, topic, event, status, response),
                expected_ref,
                expected_event,
            );
            if topic == "workers:crf_search"@ && event == "phx_reply"@ && msg_ref == Some(
                expected_ref,
            ) {
                &&& status == "ok"@ ==> outcome == Some(Ok::<JsonView, ErrorView>(response))
                &&& status == "error"@ ==> outcome == Some(
                    Err::<JsonView, ErrorView>(
                        ErrorView::Refused {
                            event: expected_event,
                            response: json_display(response),
                        },
                    ),
                )
                &&& status != "ok"@ && status != "error"@ ==> outcome == Some(
                    Err::<JsonView, ErrorView>(ErrorView::UnexpectedStatus(status)),
                )
            } else {
                outcome is None
            }
        }),
{
    reveal_strlit("ok");
    reveal_strlit("error");
    assert("ok"@.len() != "error"@.len());
}

/// A reply is the same to the worker with and without a reference of a join.
pub proof fn join_reference_makes_no_difference(
    driver: DriverView,
    a: Option<Seq<char>>,
    b: Option<Seq<char>>,
    msg_ref: Option<Seq<char>>,
    topic: Seq<char>,
    event: Seq<char>,
    status: Seq<char>,
    response: JsonView,
)
    ensures
        driver.step(EventView::Received(message(a, msg_ref, topic, event, status, response)))
            == driver.step(EventView::Received(message(b, msg_ref, topic, event, status, response))),
{
    let reference = decimal(driver.phase.reference());
    let name = driver.phase.event();
    replies_settle_by_reference_topic_and_event(a, msg_ref, topic, event, status, response, reference, name);
    replies_settle_by_reference_topic_and_event(b, msg_ref, topic, event, status, response, reference, name);
}

/// A text that is no message, a close frame, an error and the end settle the
/// request with an error; a frame of another kind settles nothing.
pub proof fn ends_settle_with_an_error(frame: Seq<char>, reference: Seq<char>, event: Seq<char>)
    ensures
        settled(IncomingView::Text(None), reference, event) == Some(
            Err::<JsonView, ErrorView>(ErrorView::DecodeReply),
        ),
        settled(IncomingView::Close(frame), reference, event) == Some(
            Err::<JsonView, ErrorView>(ErrorView::Closed { event, frame }),
        ),
        settled(IncomingView::Failed, reference, event) == Some(
            Err::<JsonView, ErrorView>(ErrorView::Read),
        ),
        settled(IncomingView::Ended, reference, event) == Some(
            Err::<JsonView, ErrorView>(ErrorView::Ended { event }),
        ),
        settled(IncomingView::Other, reference, event) is None,
{
}

/// The texts of the errors.
pub proof fn errors_in_words(a: Seq<char>, b: Seq<char>)
    ensures
        error_message(ErrorView::UnsupportedUrl(a)) == "unsupported websocket base URL: "@ + a,
        error_message(ErrorView::Connect { url: a, reason: b }) == "connect websocket "@ + a + ": "@
            + b,
        error_message(ErrorView::Send) == "send websocket message"@,
        error_message(ErrorView::Read) == "read websocket message"@,
        error_message(ErrorView::DecodeReply) == "decode phoenix reply"@,
        error_message(ErrorView::DecodeOkReply) == "decode phoenix ok reply"@,
        error_message(ErrorView::Refused { event: a, response: b }) == a + " failed: "@ + b,
        error_message(ErrorView::UnexpectedStatus(a)) == "unexpected phoenix status "@ + a,
        error_message(ErrorView::Closed { event: a, frame: b }) == "websocket closed before "@ + a
            + " reply: "@ + b,
        error_message(ErrorView::Ended { event: a }) == "websocket ended before "@ + a + " reply"@,
        error_message(ErrorView::NotAccepted) == "worker announcement was not accepted"@,
{
}

/// A failure to connect is told by the HTTP status and the trimmed body of the
/// answer, which is empty where there is none, or else by the reason as it is.
pub proof fn connect_failures_in_words(status: u16, body: Seq<u8>, reason: Seq<char>)
    ensures
        failure_reason(FailureView::Http { status, body: Some(body) }) == "HTTP "@ + status_display(
            status,
        ) + " "@ + trimmed(lossy_text(body)),
        failure_reason(FailureView::Http { status, body: None }) == "HTTP "@ + status_display(
            status,
        ) + " "@,
        failure_reason(FailureView::Other(reason)) == reason,
        FailureView::Other(reason).valid(),
        (FailureView::Http { status, body: Some(body) }).valid() <==> 100 <= status <= 999,
        (FailureView::Http { status, body: None }).valid() <==> 100 <= status <= 999,
{
    assert("HTTP "@ + status_display(status) + " "@ + Seq::<char>::empty() =~= "HTTP "@
        + status_display(status) + " "@);
}

/// The response to a join is an object whose member "worker_id" is a text, or an
/// array of one text.
pub proof fn join_responses_on_the_wire(members: Seq<(Seq<char>, JsonView)>, value: JsonView, id: Seq<char>)
    ensures
        JoinResponse::encoded(id) == JsonView::Object(seq![("worker_id"@, JsonView::Text(id))]),
        JoinResponse::decoded(JsonView::Object(seq![("worker_id"@, JsonView::Text(id))])) == Some(id),
        holds(members, "worker_id"@, value) ==> JoinResponse::decoded(JsonView::Object(members))
            == match value {
            JsonView::Text(text) => Some(text),
            _ => None,
        },
        lacks(members, "worker_id"@) ==> JoinResponse::decoded(JsonView::Object(members)) is None,
        JoinResponse::decoded(JsonView::Array(seq![JsonView::Text(id)])) == Some(id),
{
    fields_of_records(JsonView::Object(members), "worker_id"@, value, 0, 1);
}

/// The response to an announcement is an object whose member "accepted" is a
/// truth value and whose member "protocol_version" is a number, or an array of
/// both.
pub proof fn announce_responses_on_the_wire(
    members: Seq<(Seq<char>, JsonView)>,
    accepted: JsonView,
    version: JsonView,
    value: (bool, u64),
)
    ensures
        AnnounceResponse::encoded(value) == JsonView::Object(
            seq![
                ("accepted"@, JsonView::Bool(value.0)),
                ("protocol_version"@, JsonView::U64(value.1)),
            ],
        ),
        holds(members, "accepted"@, accepted) && holds(members, "protocol_version"@, version)
            ==> AnnounceResponse::decoded(JsonView::Object(members)) == match (accepted, version) {
            (JsonView::Bool(accepted), JsonView::U64(version)) => Some((accepted, version)),
            _ => None,
        },
        lacks(members, "accepted"@) || lacks(members, "protocol_version"@)
            ==> AnnounceResponse::decoded(JsonView::Object(members)) is None,
        AnnounceResponse::decoded(
            JsonView::Array(seq![JsonView::Bool(value.0), JsonView::U64(value.1)]),
        ) == Some(value),
{
    fields_of_records(JsonView::Object(members), "accepted"@, accepted, 0, 2);
    fields_of_records(JsonView::Object(members), "protocol_version"@, version, 1, 2);
}

/// The response to a request for work is an object whose member "status" is a
/// text, whatever else it holds, or an array of one text.
pub proof fn pull_responses_on_the_wire(members: Seq<(Seq<char>, JsonView)>, value: JsonView, status: Seq<char>)
    ensures
        PullWorkResponse::encoded(status) == JsonView::Object(
            seq![("status"@, JsonView::Text(status))],
        ),
        PullWorkResponse::decoded(JsonView::Object(seq![("status"@, JsonView::Text(status))]))
            == Some(status),
        holds(members, "status"@, value) ==> PullWorkResponse::decoded(JsonView::Object(members))
            == match value {
            JsonView::Text(text) => Some(text),
            _ => None,
        },
        lacks(members, "status"@) ==> PullWorkResponse::decoded(JsonView::Object(members)) is None,
        PullWorkResponse::decoded(JsonView::Array(seq![JsonView::Text(status)])) == Some(status),
{
    fields_of_records(JsonView::Object(members), "status"@, value, 0, 1);
}

/// The websocket of a coordinator at `http://` or `ws://` is at `ws://`, that of
/// one at `https://` or `wss://` at `wss://`, with the rest of the base URL as it
/// is, and path, token and version behind it. Slashes at the end do not count.
pub proof fn websocket_urls(rest: Seq<char>, token: Seq<char>)
    requires
        rest.len() > 0,
        rest.last() != '/',
    ensures
        websocket_url("http://"@ + rest, token) == Ok::<Seq<char>, ErrorView>(
            "ws://"@ + rest + "/workers/socket/websocket?token="@ + token + "&vsn=2.0.0"@,
        ),
        websocket_url("https://"@ + rest, token) == Ok::<Seq<char>, ErrorView>(
            "wss://"@ + rest + "/workers/socket/websocket?token="@ + token + "&vsn=2.0.0"@,
        ),
        websocket_url("ws://"@ + rest, token) == Ok::<Seq<char>, ErrorView>(
            "ws://"@ + rest + "/workers/socket/websocket?token="@ + token + "&vsn=2.0.0"@,
        ),
        websocket_url("wss://"@ + rest, token) == Ok::<Seq<char>, ErrorView>(
            "wss://"@ + rest + "/workers/socket/websocket?token="@ + token + "&vsn=2.0.0"@,
        ),
{
    reveal_strlit("http://");
    reveal_strlit("https://");
    reveal_strlit("ws://");
    reveal_strlit("wss://");
    reveal_strlit("&vsn=");
    reveal_strlit("2.0.0");
    reveal_strlit("&vsn=2.0.0");
    assert("&vsn="@ + "2.0.0"@ =~= "&vsn=2.0.0"@);
    url_of(rest, token, "http://"@, "ws://"@);
    url_of(rest, token, "https://"@, "wss://"@);
    url_of(rest, token, "ws://"@, "ws://"@);
    url_of(rest, token, "wss://"@, "wss://"@);
}

proof fn url_of(rest: Seq<char>, token: Seq<char>, scheme: Seq<char>, websocket: Seq<char>)
    requires
        rest.len() > 0,
        rest.last() != '/',
        ({
            ||| scheme == "http://"@ && websocket == "ws://"@
            ||| scheme == "https://"@ && websocket == "wss://"@
            ||| scheme == "ws://"@ && websocket == "ws://"@
            ||| scheme == "wss://"@ && websocket == "wss://"@
        }),
        "&vsn="@ + "2.0.0"@ == "&vsn=2.0.0"@,
    ensures
        websocket_url(scheme + rest, token) == Ok::<Seq<char>, ErrorView>(
            websocket + rest + "/workers/socket/websocket?token="@ + token + "&vsn=2.0.0"@,
        ),
{
    reveal_strlit("http://");
    reveal_strlit("https://");
    reveal_strlit("ws://");
    reveal_strlit("wss://");
    let base = scheme + rest;
    assert(base.last() == rest.last());
    assert(trimmed_end(base, '/') == base);
    assert(base.take(scheme.len() as int) =~= scheme);
    assert(base.skip(scheme.len() as int) =~= rest);
    assert(base[0] == scheme[0] && base[1] == scheme[1] && base[2] == scheme[2]);
    assert(base[3] == scheme[3] && base[4] == scheme[4]);
    distinct_schemes(base, scheme);
    assert(websocket + rest + "/workers/socket/websocket?token="@ + token + "&vsn="@ + "2.0.0"@
        =~= websocket + rest + "/workers/socket/websocket?token="@ + token + ("&vsn="@
        + "2.0.0"@));
}

proof fn distinct_schemes(base: Seq<char>, scheme: Seq<char>)
    requires
        has_prefix(base, scheme),
        scheme == "http://"@ || scheme == "https://"@ || scheme == "ws://"@ || scheme == "wss://"@,
    ensures
        has_prefix(base, "http://"@) ==> scheme == "http://"@,
        has_prefix(base, "https://"@) ==> scheme == "https://"@,
        has_prefix(base, "ws://"@) ==> scheme == "ws://"@,
        has_prefix(base, "wss://"@) ==> scheme == "wss://"@,
{
    reveal_strlit("http://");
    reveal_strlit("https://");
    reveal_strlit("ws://");
    reveal_strlit("wss://");
    let n = scheme.len() as int;
    assert(base.take(n)[0] == base[0]);
    assert(base.take(n)[2] == base[2]);
    assert(base.take(n)[4] == base[4]);
    if has_prefix(base, "http://"@) {
        assert(base.take(7)[0] == base[0]);
        assert(base.take(7)[4] == base[4]);
    }
    if has_prefix(base, "https://"@) {
        assert(base.take(8)[0] == base[0]);
        assert(base.take(8)[4] == base[4]);
    }
    if has_prefix(base, "ws://"@) {
        assert(base.take(5)[0] == base[0]);
        assert(base.take(5)[2] == base[2]);
    }
    if has_prefix(base, "wss://"@) {
        assert(base.take(6)[0] == base[0]);
        assert(base.take(6)[2] == base[2]);
    }
}

/// A base URL that, without the slashes at its end, begins with none of the
/// four schemes has no websocket, and the error names it so.
pub proof fn other_urls_are_refused(base_url: Seq<char>, kept: Seq<char>, token: Seq<char>)
    requires
        kept.len() <= base_url.len(),
        kept == base_url.take(kept.len() as int),
        forall|i: int| kept.len() <= i < base_url.len() ==> #[trigger] base_url[i] == '/',
        kept.len() > 0 ==> kept.last() != '/',
        forall|rest: Seq<char>| kept != #[trigger] ("http://"@ + rest),
        forall|rest: Seq<char>| kept != #[trigger] ("https://"@ + rest),
        forall|rest: Seq<char>| kept != #[trigger] ("ws://"@ + rest),
        forall|rest: Seq<char>| kept != #[trigger] ("wss://"@ + rest),
    ensures
        websocket_url(base_url, token) == Err::<Seq<char>, ErrorView>(
            ErrorView::UnsupportedUrl(kept),
        ),
{
    let base = trimmed_end(base_url, '/');
    trimmed_end_loses_only_the_end(base_url, '/');
    if base.len() < kept.len() {
        assert(base_url[kept.len() - 1] == kept.last());
    }
    if base.len() > kept.len() {
        assert(base_url[base.len() - 1] == base.last());
    }
    assert(base == kept);
    prefix_is_a_beginning(base, "http://"@, Seq::empty());
    prefix_is_a_beginning(base, "https://"@, Seq::empty());
    prefix_is_a_beginning(base, "ws://"@, Seq::empty());
    prefix_is_a_beginning(base, "wss://"@, Seq::empty());
}

/// The references 1 and 2 in decimal notation.
proof fn first_references()
    ensures
        decimal(1) == "1"@,
        decimal(2) == "2"@,
        decimal(3) == "3"@,
{
    reveal_strlit("1");
    reveal_strlit("2");
    reveal_strlit("3");
    assert(decimal(1) =~= "1"@);
    assert(decimal(2) =~= "2"@);
    assert(decimal(3) =~= "3"@);
}

/// A worker begins by connecting to the websocket of its coordinator, and joins
/// once it is connected.
pub proof fn worker_connects_and_joins(config: ConfigView, runtime: WorkerRuntime)
    ensures
        ({
            let begun = DriverView::initial(config, runtime);
            &&& begun.config == config && begun.runtime == runtime && begun.completed_pulls == 0
            &&& begun.backoff == (ReconnectBackoff {
                current: runtime.reconnect_base_delay,
                base: runtime.reconnect_base_delay,
                max: runtime.reconnect_max_delay,
            })
            &&& begun.accepts(EventView::Proceed)
            &&& websocket_url(config.connect, config.token) matches Ok(url) ==> {
                let (connecting, step) = begun.step(EventView::Proceed);
                let (_, join) = connecting.step(EventView::Connected);
                &&& step == (StepView { out: None, err: None, action: ActionView::Connect(url) })
                &&& connecting == (DriverView { phase: PhaseView::Connecting { url }, ..begun })
                &&& join == (StepView {
                    out: None,
                    err: None,
                    action: ActionView::Send(
                        json_display(
                            JsonView::Array(
                                seq![
                                    JsonView::Text("1"@),
                                    JsonView::Text("1"@),
                                    JsonView::Text("workers:crf_search"@),
                                    JsonView::Text("phx_join"@),
                                    JsonView::Object(seq![]),
                                ],
                            ),
                        ),
                    ),
                })
            }
            &&& websocket_url(config.connect, config.token) matches Err(error) ==> begun.step(
                EventView::Proceed,
            ) == begun.failed(error)
        }),
{
    first_references();
    requests_on_the_wire(
        1,
        AnnounceView {
            worker_id: Seq::empty(),
            protocol_version: 0,
            version: Seq::empty(),
            crf_search: true,
        },
    );
}

/// A reply that grants the join with a worker's id, whatever else it holds,
/// makes the worker announce its own id, version and protocol version, and that
/// it searches for CRFs.
pub proof fn joined_worker_announces_itself(
    driver: DriverView,
    join_ref: Option<Seq<char>>,
    members: Seq<(Seq<char>, JsonView)>,
    id: Seq<char>,
)
    requires
        driver.phase == (PhaseView::Joining { sent: true }),
        holds(members, "worker_id"@, JsonView::Text(id)),
    ensures
        driver.step(
            EventView::Received(
                message(
                    join_ref,
                    Some("1"@),
                    "workers:crf_search"@,
                    "phx_reply"@,
                    "ok"@,
                    JsonView::Object(members),
                ),
            ),
        ) == (
            DriverView {
                phase: PhaseView::Announcing { assigned_worker_id: id, sent: false },
                ..driver
            },
            StepView {
                out: None,
                err: None,
                action: ActionView::Send(
                    json_display(
                        JsonView::Array(
                            seq![
                                JsonView::Text("1"@),
                                JsonView::Text("2"@),
                                JsonView::Text("workers:crf_search"@),
                                JsonView::Text("announce"@),
                                JsonView::Object(
                                    seq![
                                        ("worker_id"@, JsonView::Text(driver.config.worker_id)),
                                        (
                                            "protocol_version"@,
                                            JsonView::U64(driver.config.protocol_version),
                                        ),
                                        ("version"@, JsonView::Text(driver.config.version)),
                                        (
                                            "capabilities"@,
                                            JsonView::Object(
                                                seq![("crf_search"@, JsonView::Bool(true))],
                                            ),
                                        ),
                                    ],
                                ),
                            ],
                        ),
                    ),
                ),
            },
        ),
{
    first_references();
    join_responses_on_the_wire(members, JsonView::Text(id), id);
    requests_on_the_wire(
        2,
        AnnounceView {
            worker_id: driver.config.worker_id,
            protocol_version: driver.config.protocol_version,
            version: driver.config.version,
            crf_search: true,
        },
    );
}

/// A reply that grants the announcement makes the worker ask for work under the
/// reference 3 where it is accepted, with the version that the coordinator gave,
/// and is an error where it is not.
pub proof fn announced_worker_asks_for_work(
    driver: DriverView,
    id: Seq<char>,
    join_ref: Option<Seq<char>>,
    members: Seq<(Seq<char>, JsonView)>,
    accepted: bool,
    version: u64,
)
    requires
        driver.phase == (PhaseView::Announcing { assigned_worker_id: id, sent: true }),
        holds(members, "accepted"@, JsonView::Bool(accepted)),
        holds(members, "protocol_version"@, JsonView::U64(version)),
    ensures
        ({
            let after = driver.step(
                EventView::Received(
                    message(
                        join_ref,
                        Some("2"@),
                        "workers:crf_search"@,
                        "phx_reply"@,
                        "ok"@,
                        JsonView::Object(members),
                    ),
                ),
            );
            &&& accepted ==> after == (
                DriverView {
                    phase: PhaseView::Pulling {
                        link: LinkView {
                            assigned_worker_id: id,
                            negotiated_protocol_version: version,
                            next_ref: 4,
                        },
                        sent: false,
                    },
                    ..driver
                },
                StepView {
                    out: None,
                    err: None,
                    action: ActionView::Send(
                        json_display(
                            JsonView::Array(
                                seq![
                                    JsonView::Text("1"@),
                                    JsonView::Text("3"@),
                                    JsonView::Text("workers:crf_search"@),
                                    JsonView::Text("pull_work"@),
                                    JsonView::Object(seq![]),
                                ],
                            ),
                        ),
                    ),
                },
            )
            &&& !accepted ==> after == driver.failed(ErrorView::NotAccepted)
        }),
{
    first_references();
    announce_responses_on_the_wire(
        members,
        JsonView::Bool(accepted),
        JsonView::U64(version),
        (accepted, version),
    );
    requests_on_the_wire(
        3,
        AnnounceView {
            worker_id: Seq::empty(),
            protocol_version: 0,
            version: Seq::empty(),
            crf_search: true,
        },
    );
}

/// A reply that grants a request for work is counted and reported with its
/// status, whatever the status is. A worker that runs once ends with the
/// session; another one ends without it when it has had as many answers as it
/// was to have, and else waits for as long as it is to be idle.
pub proof fn answered_worker_reports(
    driver: DriverView,
    link: LinkView,
    join_ref: Option<Seq<char>>,
    members: Seq<(Seq<char>, JsonView)>,
    status: Seq<char>,
)
    requires
        driver.phase == (PhaseView::Pulling { link, sent: true }),
        driver.completed_pulls < usize::MAX,
        link.next_ref > 3,
        holds(members, "status"@, JsonView::Text(status)),
    ensures
        ({
            let (next, step) = driver.step(
                EventView::Received(
                    message(
                        join_ref,
                        Some(decimal((link.next_ref - 1) as nat)),
                        "workers:crf_search"@,
                        "phx_reply"@,
                        "ok"@,
                        JsonView::Object(members),
                    ),
                ),
            );
            let enough = driver.runtime.max_pulls == Some((driver.completed_pulls + 1) as usize);
            &&& step.out == Some(
                "connected worker "@ + link.assigned_worker_id + " via "@ + decimal(
                    link.negotiated_protocol_version as nat,
                ) + " and received "@ + status,
            )
            &&& step.err is None
            &&& next.completed_pulls == driver.completed_pulls + 1
            &&& next.config == driver.config && next.runtime == driver.runtime
            &&& driver.config.once ==> next.phase is Finished && step.action == ActionView::Finish(
                Ok(
                    Some(
                        SessionView {
                            assigned_worker_id: link.assigned_worker_id,
                            negotiated_protocol_version: link.negotiated_protocol_version,
                            work_status: status,
                        },
                    ),
                ),
            )
            &&& !driver.config.once && enough ==> next.phase is Finished && step.action
                == ActionView::Finish(Ok(None))
            &&& !driver.config.once && !enough ==> {
                &&& next.phase == (PhaseView::Idle { link })
                &&& next.backoff == driver.backoff
                &&& step.action == ActionView::Sleep(driver.runtime.idle_delay)
            }
        }),
{
    pull_responses_on_the_wire(members, JsonView::Text(status), status);
    assert(report(link, status) == "connected worker "@ + link.assigned_worker_id + " via "@
        + decimal(link.negotiated_protocol_version as nat) + " and received "@ + status);
}

/// A worker that has been idle asks again over the same connection, under its
/// next reference, which is used up with that.
pub proof fn idle_worker_asks_again(driver: DriverView, link: LinkView)
    requires
        driver.phase == (PhaseView::Idle { link }),
        link.next_ref < u64::MAX,
    ensures
        driver.step(EventView::Proceed) == (
            DriverView {
                phase: PhaseView::Pulling {
                    link: LinkView { next_ref: (link.next_ref + 1) as u64, ..link },
                    sent: false,
                },
                ..driver
            },
            StepView {
                out: None,
                err: None,
                action: ActionView::Send(
                    json_display(
                        JsonView::Array(
                            seq![
                                JsonView::Text("1"@),
                                JsonView::Text(decimal(link.next_ref as nat)),
                                JsonView::Text("workers:crf_search"@),
                                JsonView::Text("pull_work"@),
                                JsonView::Object(seq![]),
                            ],
                        ),
                    ),
                ),
            },
        ),
{
    requests_on_the_wire(
        link.next_ref,
        AnnounceView {
            worker_id: Seq::empty(),
            protocol_version: 0,
            version: Seq::empty(),
            crf_search: true,
        },
    );
}

/// A granted request whose response is not what was asked for is an error, and
/// so is each other outcome: what could not be sent or connected, and whatever
/// ends or refuses the outstanding request, which the error names.
pub proof fn what_goes_wrong_is_told(driver: DriverView, failure: FailureView, error: ErrorView, incoming: IncomingView)
    ensures
        driver.step(EventView::SendFailed) == driver.failed(ErrorView::Send),
        driver.phase matches PhaseView::Connecting { url } ==> driver.step(
            EventView::ConnectFailed(failure),
        ) == driver.failed(ErrorView::Connect { url, reason: failure_reason(failure) }),
        driver.phase == (PhaseView::Joining { sent: true }) ==> (settled(
            incoming,
            "1"@,
            "phx_join"@,
        ) == Some(Err::<JsonView, ErrorView>(error)) ==> driver.step(EventView::Received(incoming))
            == driver.failed(error)),
        driver.phase matches PhaseView::Announcing { sent: true, .. } ==> (settled(
            incoming,
            "2"@,
            "announce"@,
        ) == Some(Err::<JsonView, ErrorView>(error)) ==> driver.step(EventView::Received(incoming))
            == driver.failed(error)),
        driver.phase matches PhaseView::Pulling { link, sent: true } ==> (settled(
            incoming,
            decimal((link.next_ref - 1) as nat),
            "pull_work"@,
        ) == Some(Err::<JsonView, ErrorView>(error)) ==> driver.step(EventView::Received(incoming))
            == driver.failed(error)),
        driver.phase == (PhaseView::Joining { sent: true }) ==> (settled(
            incoming,
            "1"@,
            "phx_join"@,
        ) matches Some(Ok(response)) ==> JoinResponse::decoded(response) is None ==> driver.step(
            EventView::Received(incoming),
        ) == driver.failed(ErrorView::DecodeOkReply)),
        driver.phase matches PhaseView::Announcing { sent: true, .. } ==> (settled(
            incoming,
            "2"@,
            "announce"@,
        ) matches Some(Ok(response)) ==> AnnounceResponse::decoded(response) is None
            ==> driver.step(EventView::Received(incoming)) == driver.failed(
            ErrorView::DecodeOkReply,
        )),
        driver.phase matches PhaseView::Pulling { link, sent: true } ==> (settled(
            incoming,
            decimal((link.next_ref - 1) as nat),
            "pull_work"@,
        ) matches Some(Ok(response)) ==> PullWorkResponse::decoded(response) is None
            ==> driver.step(EventView::Received(incoming)) == driver.failed(
            ErrorView::DecodeOkReply,
        )),
{
    first_references();
}

/// An error ends a worker that runs once, with that error. Another worker says
/// that it lost its connection and why, waits for its next delay, and is ready
/// to connect again; nothing else of it changes.
pub proof fn errors_end_or_delay(driver: DriverView, error: ErrorView)
    ensures
        driver.config.once ==> driver.failed(error) == (
            DriverView { phase: PhaseView::Finished, ..driver },
            StepView { out: None, err: None, action: ActionView::Finish(Err(error)) },
        ),
        !driver.config.once ==> {
            let (next, step) = driver.failed(error);
            &&& step == (StepView {
                out: None,
                err: Some("worker connection lost: "@ + error_message(error)),
                action: ActionView::Sleep(driver.backoff.current),
            })
            &&& next.phase is BackingOff
            &&& next.config == driver.config && next.runtime == driver.runtime
            &&& next.completed_pulls == driver.completed_pulls
            &&& next.backoff.base == driver.backoff.base && next.backoff.max == driver.backoff.max
            &&& next.backoff.current.nanos == if driver.backoff.current.nanos * 2
                <= driver.backoff.max.nanos {
                driver.backoff.current.nanos * 2
            } else {
                driver.backoff.max.nanos as int
            }
        },
{
}

/// Whatever the worker asks to be done, each outcome of it can be told: a
/// connection or its failure, a message sent or not, whatever comes out of the
/// websocket, and the end of a wait. When the worker has ended, nothing can.
pub proof fn every_outcome_can_be_told(
    driver: DriverView,
    event: EventView,
    outcome: EventView,
    failure: FailureView,
    incoming: IncomingView,
)
    requires
        driver.accepts(event),
    ensures
        ({
            let (next, step) = driver.step(event);
            match step.action {
                ActionView::Connect(_) => next.accepts(EventView::Connected) && (failure.valid()
                    ==> next.accepts(EventView::ConnectFailed(failure))),
                ActionView::Send(_) => next.accepts(EventView::Sent) && next.accepts(
                    EventView::SendFailed,
                ),
                ActionView::Receive => next.accepts(EventView::Received(incoming)),
                ActionView::Sleep(_) => next.accepts(EventView::Proceed),
                ActionView::Finish(_) => !next.accepts(outcome),
            }
        }),
{
}

/// A message that is sent is followed by waiting for its reply, and nothing else
/// of the worker changes; a worker that waited to connect connects.
pub proof fn sent_messages_are_awaited(driver: DriverView)
    ensures
        driver.phase.sending() ==> {
            let (next, step) = driver.step(EventView::Sent);
            &&& step == (StepView { out: None, err: None, action: ActionView::Receive })
            &&& next == (DriverView { phase: next.phase, ..driver })
            &&& driver.phase is Joining ==> next.phase == (PhaseView::Joining { sent: true })
            &&& driver.phase matches PhaseView::Announcing { assigned_worker_id, .. } ==> next.phase
                == (PhaseView::Announcing { assigned_worker_id, sent: true })
            &&& driver.phase matches PhaseView::Pulling { link, .. } ==> next.phase == (
            PhaseView::Pulling { link, sent: true })
        },
        driver.phase is BackingOff || driver.phase is Start ==> (websocket_url(
            driver.config.connect,
            driver.config.token,
        ) matches Ok(url) ==> driver.step(EventView::Proceed) == (
            DriverView { phase: PhaseView::Connecting { url }, ..driver },
            StepView { out: None, err: None, action: ActionView::Connect(url) },
        )),
{
}

/// Only the numbers of answers and requests can run out, and only at their
/// greatest.
pub proof fn only_numbers_run_out(driver: DriverView)
    ensures
        driver.completed_pulls < usize::MAX && !(driver.phase is Idle) ==> driver.countable(),
        driver.phase matches PhaseView::Idle { link } ==> (driver.completed_pulls < usize::MAX
            && link.next_ref < u64::MAX ==> driver.countable()),
        driver.valid() <==> match driver.phase {
            PhaseView::Pulling { link, .. } => link.next_ref >= 4,
            PhaseView::Idle { link } => link.next_ref >= 4,
            _ => true,
        },
{
}

/// What comes to the worker holds what its fields hold.
pub proof fn events_hold_their_fields(
    envelope: ReplyEnvelope,
    incoming: Incoming,
    failure: ConnectFailure,
    event: WorkerEvent,
)
    ensures
        envelope.0 matches Some(text) ==> envelope@.join_ref == Some(text@),
        envelope.0 is None ==> envelope@.join_ref is None,
        envelope.1 matches Some(text) ==> envelope@.msg_ref == Some(text@),
        envelope.1 is None ==> envelope@.msg_ref is None,
        envelope@.topic == envelope.2@ && envelope@.event == envelope.3@,
        envelope@.body.status == envelope.4.status@ && envelope@.body.response
            == envelope.4.response@,
        incoming matches Incoming::Text(Some(envelope)) ==> incoming@ == IncomingView::Text(
            Some(envelope@),
        ),
        incoming matches Incoming::Text(None) ==> incoming@ == IncomingView::Text(None),
        incoming matches Incoming::Close(frame) ==> incoming@ == IncomingView::Close(frame@),
        incoming is Other ==> incoming@ is Other,
        incoming is Failed ==> incoming@ is Failed,
        incoming is Ended ==> incoming@ is Ended,
        failure matches ConnectFailure::Http { status, body: Some(bytes) } ==> failure@ == (
        FailureView::Http { status, body: Some(bytes@) }),
        failure matches ConnectFailure::Http { status, body: None } ==> failure@ == (
        FailureView::Http { status, body: None }),
        failure matches ConnectFailure::Other(reason) ==> failure@ == FailureView::Other(reason@),
        event is Proceed ==> event@ is Proceed,
        event is Connected ==> event@ is Connected,
        event is Sent ==> event@ is Sent,
        event is SendFailed ==> event@ is SendFailed,
        event matches WorkerEvent::ConnectFailed(failure) ==> event@ == EventView::ConnectFailed(
            failure@,
        ),
        event matches WorkerEvent::Received(incoming) ==> event@ == EventView::Received(incoming@),
{
}

/// What the worker says and does holds what its fields hold.
pub proof fn steps_hold_their_fields(step: Step, action: WorkerAction, error: WorkerError, session: WorkerSession)
    ensures
        step.out matches Some(line) ==> step@.out == Some(line@),
        step.out is None ==> step@.out is None,
        step.err matches Some(line) ==> step@.err == Some(line@),
        step.err is None ==> step@.err is None,
        step@.action == step.action@,
        action matches WorkerAction::Connect(url) ==> action@ == ActionView::Connect(url@),
        action matches WorkerAction::Send(text) ==> action@ == ActionView::Send(text@),
        action is Receive ==> action@ is Receive,
        action matches WorkerAction::Sleep(delay) ==> action@ == ActionView::Sleep(delay),
        action matches WorkerAction::Finish(Ok(Some(session))) ==> action@ == ActionView::Finish(
            Ok(Some(session@)),
        ),
        action matches WorkerAction::Finish(Ok(None)) ==> action@ == ActionView::Finish(Ok(None)),
        action matches WorkerAction::Finish(Err(error)) ==> action@ == ActionView::Finish(
            Err(error@),
        ),
        session@.assigned_worker_id == session.assigned_worker_id@ && session@.work_status
            == session.work_status@ && session@.negotiated_protocol_version
            == session.negotiated_protocol_version,
        error matches WorkerError::UnsupportedUrl(url) ==> error@ == ErrorView::UnsupportedUrl(url@),
        error matches WorkerError::Connect { url, reason } ==> error@ == (ErrorView::Connect {
            url: url@,
            reason: reason@,
        }),
        error is Send ==> error@ is Send,
        error is Read ==> error@ is Read,
        error is DecodeReply ==> error@ is DecodeReply,
        error is DecodeOkReply ==> error@ is DecodeOkReply,
        error is NotAccepted ==> error@ is NotAccepted,
        error matches WorkerError::Refused { event, response } ==> error@ == (ErrorView::Refused {
            event: event@,
            response: response@,
        }),
        error matches WorkerError::UnexpectedStatus(status) ==> error@
            == ErrorView::UnexpectedStatus(status@),
        error matches WorkerError::Closed { event, frame } ==> error@ == (ErrorView::Closed {
            event: event@,
            frame: frame@,
        }),
        error matches WorkerError::Ended { event } ==> error@ == (ErrorView::Ended { event: event@ }),
{
}

/// What the worker is holds what its fields hold.
pub proof fn workers_hold_their_fields(
    driver: WorkerDriver,
    config: WorkerConfig,
    link: ConnectedWorker,
    phase: Phase,
)
    ensures
        driver@.config == driver.config@ && driver@.runtime == driver.runtime && driver@.phase
            == driver.phase@,
        driver@.completed_pulls == driver.completed_pulls && driver@.backoff == driver.backoff,
        config@.connect == config.connect@ && config@.token == config.token@ && config@.worker_id
            == config.worker_id@ && config@.version == config.version@,
        config@.protocol_version == config.protocol_version && config@.once == config.once,
        link@.assigned_worker_id == link.assigned_worker_id@ && link@.next_ref == link.next_ref
            && link@.negotiated_protocol_version == link.negotiated_protocol_version,
        phase is Start ==> phase@ is Start,
        phase is BackingOff ==> phase@ is BackingOff,
        phase is Finished ==> phase@ is Finished,
        phase matches Phase::Connecting { url } ==> phase@ == (PhaseView::Connecting { url: url@ }),
        phase matches Phase::Joining { sent } ==> phase@ == (PhaseView::Joining { sent }),
        phase matches Phase::Announcing { assigned_worker_id, sent } ==> phase@ == (
        PhaseView::Announcing { assigned_worker_id: assigned_worker_id@, sent }),
        phase matches Phase::Pulling { link, sent } ==> phase@ == (PhaseView::Pulling {
            link: link@,
            sent,
        }),
        phase matches Phase::Idle { link } ==> phase@ == (PhaseView::Idle { link: link@ }),
{
}

} // verus!
