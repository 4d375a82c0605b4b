use ab_av1::command::worker::driver::{
    text_of_request, ConnectedWorker, Phase, Step, WorkerAction, WorkerDriver, WorkerEvent,
};
use ab_av1::command::worker::{
    expect_reply, http_answer_text, websocket_connect_error, worker_websocket_url,
    AnnounceResponse, Args, ConnectFailure, Incoming, JoinResponse, PullWorkResponse,
    ReconnectBackoff, ReplyEnvelope, WorkerConfig, WorkerError, WorkerRuntime, WorkerSession,
    SUPPORTED_PROTOCOL_VERSION,
};
use ab_av1::command::worker_protocol::{
    AnnouncePayload, Capabilities, ClientEvent, ErrorReplyPayload, ReplyBody, ServerFrame, Wire,
    CRF_SEARCH_TOPIC,
};
use ab_av1::delay::Delay;
use ab_av1::json::Json;
use serde_json::Value;

fn worker_config(once: bool) -> WorkerConfig {
    WorkerConfig {
        connect: "http://127.0.0.1:4000".to_string(),
        token: "test-worker-token".into(),
        worker_id: "abav1-dev".into(),
        version: "0.11.4".into(),
        protocol_version: 1,
        once,
    }
}

fn runtime(max_delay: u64, max_pulls: Option<usize>) -> WorkerRuntime {
    WorkerRuntime {
        idle_delay: Delay::from_millis(1),
        reconnect_base_delay: Delay::from_millis(1),
        reconnect_max_delay: Delay::from_millis(max_delay),
        max_pulls,
    }
}

fn reply(reference: &str, body: ReplyBody<Json>) -> WorkerEvent {
    WorkerEvent::Received(Incoming::Text(Some(ReplyEnvelope(
        None,
        Some(reference.to_string()),
        CRF_SEARCH_TOPIC.to_string(),
        "phx_reply".to_string(),
        body,
    ))))
}

fn step(driver: WorkerDriver, event: WorkerEvent) -> (WorkerDriver, Step) {
    assert!(driver.can_accept(&event), "{event:?} at {:?}", driver.phase);
    driver.step(event)
}

fn quiet(action: WorkerAction) -> Step {
    Step { out: None, err: None, action }
}

/// The value that a sent text stands for.
fn sent(step: &Step) -> Value {
    match &step.action {
        WorkerAction::Send(text) => serde_json::from_str(text).expect("sent text is JSON"),
        other => panic!("expected a message, got {other:?}"),
    }
}

fn value(text: &str) -> Value {
    serde_json::from_str(text).expect("JSON")
}

/// Connects, joins and announces, up to the first request for work.
fn handshake(driver: WorkerDriver) -> WorkerDriver {
    let (driver, connect) = step(driver, WorkerEvent::Proceed);
    assert_eq!(
        connect,
        quiet(WorkerAction::Connect(
            "ws://127.0.0.1:4000/workers/socket/websocket?token=test-worker-token&vsn=2.0.0"
                .to_string()
        ))
    );
    let (driver, join) = step(driver, WorkerEvent::Connected);
    assert_eq!(sent(&join), value(r#"["1","1","workers:crf_search","phx_join",{}]"#));
    let (driver, waiting) = step(driver, WorkerEvent::Sent);
    assert_eq!(waiting, quiet(WorkerAction::Receive));
    let joined = JoinResponse { worker_id: "worker-123".into() };
    let (driver, announce) = step(driver, reply("1", ReplyBody::ok(joined.to_json())));
    assert_eq!(
        sent(&announce),
        value(
            r#"["1","2","workers:crf_search","announce",{
                "worker_id": "abav1-dev",
                "protocol_version": 1,
                "version": "0.11.4",
                "capabilities": {"crf_search": true}
            }]"#
        )
    );
    let (driver, _) = step(driver, WorkerEvent::Sent);
    let accepted = AnnounceResponse { accepted: true, protocol_version: 1 };
    let (driver, pull) = step(driver, reply("2", ReplyBody::ok(accepted.to_json())));
    assert_eq!(sent(&pull), value(r#"["1","3","workers:crf_search","pull_work",{}]"#));
    driver
}

/// The request for work is sent and answered.
fn no_work(driver: WorkerDriver, reference: &str) -> (WorkerDriver, Step) {
    let (driver, _) = step(driver, WorkerEvent::Sent);
    let none = PullWorkResponse { status: "no_work".into() };
    step(driver, reply(reference, ReplyBody::ok(none.to_json())))
}

#[test]
fn args_lowers_to_worker_config() {
    let config = WorkerConfig::from(Args {
        connect: "http://127.0.0.1:4000".into(),
        token: "token".into(),
        worker_id: "abav1-dev".into(),
        version: "0.11.4".into(),
        protocol_version: 1,
        once: false,
    });

    assert_eq!(config.connect, "http://127.0.0.1:4000");
    assert_eq!(config.token, "token");
    assert_eq!(config.worker_id, "abav1-dev");
    assert_eq!(config.version, "0.11.4");
    assert_eq!(config.protocol_version, 1);
    assert!(!config.once);
}

#[test]
fn worker_websocket_url_rewrites_http_scheme() {
    let url = worker_websocket_url("http://127.0.0.1:4000/", "secret").expect("url");

    assert_eq!(
        url,
        "ws://127.0.0.1:4000/workers/socket/websocket?token=secret&vsn=2.0.0"
    );
}

#[test]
fn worker_websocket_url_keeps_websocket_schemes() {
    let suffix = "/workers/socket/websocket?token=t&vsn=2.0.0";
    for (base, start) in [
        ("https://example.org", "wss://example.org"),
        ("ws://example.org", "ws://example.org"),
        ("wss://example.org//", "wss://example.org"),
        ("http://example.org/base://x/", "ws://example.org/base://x"),
        ("http://höst", "ws://höst"),
    ] {
        assert_eq!(worker_websocket_url(base, "t").expect("url"), format!("{start}{suffix}"));
    }
}

#[test]
fn worker_websocket_url_refuses_other_schemes() {
    for (base, told) in [
        ("ftp://example.org/", "ftp://example.org"),
        ("example.org", "example.org"),
        ("http://", "http:"),
        ("HTTP://example.org", "HTTP://example.org"),
        ("", ""),
    ] {
        let error = worker_websocket_url(base, "t").expect_err("no url");
        assert_eq!(error, WorkerError::UnsupportedUrl(told.to_string()));
        assert_eq!(error.message(), format!("unsupported websocket base URL: {told}"));
    }
}

#[test]
fn connect_error_tells_the_http_answer() {
    let error = websocket_connect_error(
        "ws://x",
        &ConnectFailure::Http { status: 403, body: Some(b" \n no entry\t\n".to_vec()) },
    );
    assert_eq!(error.message(), "connect websocket ws://x: HTTP 403 Forbidden no entry");

    let error = websocket_connect_error("ws://x", &ConnectFailure::Http { status: 799, body: None });
    assert_eq!(error.message(), "connect websocket ws://x: HTTP 799 <unknown status code> ");

    let error = websocket_connect_error(
        "ws://x",
        &ConnectFailure::Http { status: 500, body: Some(vec![b'a', 0xff, b'b']) },
    );
    assert_eq!(
        error.message(),
        "connect websocket ws://x: HTTP 500 Internal Server Error a\u{fffd}b"
    );

    let error = websocket_connect_error("ws://x", &ConnectFailure::Other("refused".to_string()));
    assert_eq!(error.message(), "connect websocket ws://x: refused");

    assert_eq!(http_answer_text("404 Not Found", "  gone "), "HTTP 404 Not Found gone");
}

#[test]
fn error_messages() {
    for (error, message) in [
        (WorkerError::Send, "send websocket message"),
        (WorkerError::Read, "read websocket message"),
        (WorkerError::DecodeReply, "decode phoenix reply"),
        (WorkerError::DecodeOkReply, "decode phoenix ok reply"),
        (WorkerError::UnexpectedStatus("huh".into()), "unexpected phoenix status huh"),
        (WorkerError::NotAccepted, "worker announcement was not accepted"),
        (
            WorkerError::Closed { event: "announce".into(), frame: "None".into() },
            "websocket closed before announce reply: None",
        ),
        (
            WorkerError::Ended { event: "pull_work".into() },
            "websocket ended before pull_work reply",
        ),
    ] {
        assert_eq!(error.message(), message);
    }
}

fn envelope(reference: Option<&str>, topic: &str, event: &str, status: &str) -> Incoming {
    Incoming::Text(Some(ReplyEnvelope(
        None,
        reference.map(|r| r.to_string()),
        topic.to_string(),
        event.to_string(),
        ReplyBody { status: status.to_string(), response: Json::U64(5) },
    )))
}

#[test]
fn expect_reply_takes_the_reply_to_its_request() {
    let topic = CRF_SEARCH_TOPIC;
    let expect = |incoming| expect_reply(incoming, "3", "pull_work");

    assert_eq!(expect(envelope(Some("3"), topic, "phx_reply", "ok")), Some(Ok(Json::U64(5))));
    assert_eq!(expect(envelope(Some("4"), topic, "phx_reply", "ok")), None);
    assert_eq!(expect(envelope(None, topic, "phx_reply", "ok")), None);
    assert_eq!(expect(envelope(Some("3"), "workers:other", "phx_reply", "ok")), None);
    assert_eq!(expect(envelope(Some("3"), topic, "phx_error", "ok")), None);
    assert_eq!(expect(Incoming::Other), None);
    assert_eq!(
        expect(envelope(Some("3"), topic, "phx_reply", "maybe")),
        Some(Err(WorkerError::UnexpectedStatus("maybe".into())))
    );
    assert_eq!(expect(Incoming::Text(None)), Some(Err(WorkerError::DecodeReply)));
    assert_eq!(expect(Incoming::Failed), Some(Err(WorkerError::Read)));
    assert_eq!(
        expect(Incoming::Ended),
        Some(Err(WorkerError::Ended { event: "pull_work".into() }))
    );
    assert_eq!(
        expect(Incoming::Close("None".into())),
        Some(Err(WorkerError::Closed { event: "pull_work".into(), frame: "None".into() }))
    );
}

#[test]
fn expect_reply_tells_the_refusal_in_json() {
    let refusal = ErrorReplyPayload::new("unsupported_protocol_version")
        .with_supported_protocol_versions(vec![1]);
    let incoming = Incoming::Text(Some(ReplyEnvelope(
        None,
        Some("2".into()),
        CRF_SEARCH_TOPIC.into(),
        "phx_reply".into(),
        ReplyBody::error(refusal.to_json()),
    )));
    let Some(Err(error)) = expect_reply(incoming, "2", "announce") else {
        panic!("expected an error");
    };
    assert_eq!(
        error.message(),
        r#"announce failed: {"reason":"unsupported_protocol_version","supported_protocol_versions":[1]}"#
    );
}

#[test]
fn replies_of_a_coordinator_settle_the_request() {
    let granted = ServerFrame::reply(7, ReplyBody::ok(PullWorkResponse { status: "busy".into() }));
    let Some(Ok(response)) = expect_reply(seen(granted), "7", "pull_work") else {
        panic!("expected a response");
    };
    assert_eq!(
        PullWorkResponse::from_json(&response),
        Some(PullWorkResponse { status: "busy".into() })
    );

    let refused = ServerFrame::reply(2, ReplyBody::error(ErrorReplyPayload::new("no")));
    let Some(Err(error)) = expect_reply(seen(refused), "2", "announce") else {
        panic!("expected an error");
    };
    assert_eq!(
        error.message(),
        r#"announce failed: {"reason":"no","supported_protocol_versions":[]}"#
    );
}

/// What a worker sees of a message of the coordinator.
fn seen<T: Wire>(frame: ServerFrame<T>) -> Incoming {
    let ServerFrame(join_ref, msg_ref, topic, event, body) = frame;
    let body = ReplyBody { status: body.status, response: body.response.to_json() };
    Incoming::Text(Some(ReplyEnvelope(join_ref, Some(msg_ref), topic, event, body)))
}

#[test]
fn json_text_covers_every_kind_of_value() {
    let response = Json::Array(vec![
        Json::Null,
        Json::Bool(false),
        Json::U64(u64::MAX),
        Json::I64(-3),
        Json::Float("0.5".into()),
        Json::Float("1.7976931348623157e+308".into()),
        Json::Float("5e-324".into()),
        Json::Text("a\"b\n".into()),
        Json::Object(vec![
            ("b".into(), Json::U64(1)),
            ("a".into(), Json::Array(vec![])),
            ("b".into(), Json::U64(2)),
        ]),
    ]);
    let incoming = Incoming::Text(Some(ReplyEnvelope(
        None,
        Some("1".into()),
        CRF_SEARCH_TOPIC.into(),
        "phx_reply".into(),
        ReplyBody::error(response),
    )));
    let Some(Err(WorkerError::Refused { event, response })) = expect_reply(incoming, "1", "phx_join")
    else {
        panic!("expected a refusal");
    };
    assert_eq!(event, "phx_join");
    assert_eq!(
        response,
        r#"[null,false,18446744073709551615,-3,0.5,1.7976931348623157e+308,5e-324,"a\"b\n",{"a":[],"b":2}]"#
    );
}

#[test]
fn worker_session_joins_announces_and_requests_work() {
    let driver = handshake(WorkerDriver::new(worker_config(true), WorkerRuntime::default()));
    let (driver, ended) = no_work(driver, "3");

    assert_eq!(
        ended,
        Step {
            out: Some("connected worker worker-123 via 1 and received no_work".to_string()),
            err: None,
            action: WorkerAction::Finish(Ok(Some(WorkerSession {
                assigned_worker_id: "worker-123".into(),
                negotiated_protocol_version: 1,
                work_status: "no_work".into(),
            }))),
        }
    );
    assert_eq!(driver.phase, Phase::Finished);
    assert!(!driver.can_accept(&WorkerEvent::Proceed));
}

#[test]
fn worker_stays_connected_and_pulls_work_again_after_no_work() {
    let driver = handshake(WorkerDriver::new(worker_config(false), runtime(1, Some(2))));
    let (driver, idle) = no_work(driver, "3");
    assert_eq!(
        idle,
        Step {
            out: Some("connected worker worker-123 via 1 and received no_work".to_string()),
            err: None,
            action: WorkerAction::Sleep(Delay::from_millis(1)),
        }
    );
    let (driver, pull) = step(driver, WorkerEvent::Proceed);
    assert_eq!(sent(&pull), value(r#"["1","4","workers:crf_search","pull_work",{}]"#));
    let (driver, ended) = no_work(driver, "4");
    assert_eq!(ended.action, WorkerAction::Finish(Ok(None)));
    assert_eq!(driver.completed_pulls, 2);
}

#[test]
fn worker_reconnects_after_disconnect_and_continues_pulling_work() {
    let driver = handshake(WorkerDriver::new(worker_config(false), runtime(2, Some(2))));
    let (driver, _) = no_work(driver, "3");
    let (driver, _) = step(driver, WorkerEvent::Proceed);
    let (driver, _) = step(driver, WorkerEvent::Sent);
    let (driver, lost) = step(driver, WorkerEvent::Received(Incoming::Ended));
    assert_eq!(
        lost,
        Step {
            out: None,
            err: Some(
                "worker connection lost: websocket ended before pull_work reply".to_string()
            ),
            action: WorkerAction::Sleep(Delay::from_millis(1)),
        }
    );
    // The coordinator is not back yet.
    let (driver, _) = step(driver, WorkerEvent::Proceed);
    let (driver, lost) =
        step(driver, WorkerEvent::ConnectFailed(ConnectFailure::Other("refused".into())));
    assert_eq!(lost.action, WorkerAction::Sleep(Delay::from_millis(2)));

    let driver = handshake(driver);
    let (_, ended) = no_work(driver, "3");
    assert_eq!(ended.action, WorkerAction::Finish(Ok(None)));
}

#[test]
fn worker_ignores_what_is_not_for_it() {
    let driver = WorkerDriver::new(worker_config(true), WorkerRuntime::default());
    let (driver, _) = step(driver, WorkerEvent::Proceed);
    let (driver, _) = step(driver, WorkerEvent::Connected);
    let (mut driver, _) = step(driver, WorkerEvent::Sent);
    for incoming in [
        Incoming::Other,
        envelope(Some("2"), CRF_SEARCH_TOPIC, "phx_reply", "ok"),
        envelope(Some("1"), "workers:other", "phx_reply", "error"),
    ] {
        let (next, waiting) = step(driver, WorkerEvent::Received(incoming));
        assert_eq!(waiting, quiet(WorkerAction::Receive));
        assert_eq!(next.phase, Phase::Joining { sent: true });
        driver = next;
    }
}

fn finished_with(driver: WorkerDriver, event: WorkerEvent, error: WorkerError) {
    let (driver, ended) = step(driver, event);
    assert_eq!(ended, quiet(WorkerAction::Finish(Err(error))));
    assert_eq!(driver.phase, Phase::Finished);
}

fn announced() -> WorkerDriver {
    let driver = WorkerDriver::new(worker_config(true), WorkerRuntime::default());
    let (driver, _) = step(driver, WorkerEvent::Proceed);
    let (driver, _) = step(driver, WorkerEvent::Connected);
    let (driver, _) = step(driver, WorkerEvent::Sent);
    let joined = JoinResponse { worker_id: "worker-123".into() };
    let (driver, _) = step(driver, reply("1", ReplyBody::ok(joined.to_json())));
    let (driver, _) = step(driver, WorkerEvent::Sent);
    driver
}

#[test]
fn single_session_ends_with_the_first_error() {
    let refused = AnnounceResponse { accepted: false, protocol_version: 1 };
    finished_with(
        announced(),
        reply("2", ReplyBody::ok(refused.to_json())),
        WorkerError::NotAccepted,
    );
    finished_with(
        announced(),
        reply("2", ReplyBody::ok(Json::Null)),
        WorkerError::DecodeOkReply,
    );

    let driver = WorkerDriver::new(worker_config(true), WorkerRuntime::default());
    let (driver, _) = step(driver, WorkerEvent::Proceed);
    let (driver, _) = step(driver, WorkerEvent::Connected);
    finished_with(driver, WorkerEvent::SendFailed, WorkerError::Send);

    let mut config = worker_config(true);
    config.connect = "ftp://127.0.0.1".into();
    finished_with(
        WorkerDriver::new(config, WorkerRuntime::default()),
        WorkerEvent::Proceed,
        WorkerError::UnsupportedUrl("ftp://127.0.0.1".into()),
    );
}

#[test]
fn lasting_worker_retries_even_a_bad_url() {
    let mut config = worker_config(false);
    config.connect = "ftp://127.0.0.1".into();
    let mut driver = WorkerDriver::new(config, WorkerRuntime::default());
    for secs in [1, 2, 4, 8, 16, 30, 30] {
        let (next, lost) = step(driver, WorkerEvent::Proceed);
        assert_eq!(
            lost,
            Step {
                out: None,
                err: Some(
                    "worker connection lost: unsupported websocket base URL: ftp://127.0.0.1"
                        .to_string()
                ),
                action: WorkerAction::Sleep(Delay::from_secs(secs)),
            }
        );
        driver = next;
    }
}

#[test]
fn zero_pulls_are_never_reached() {
    let driver = handshake(WorkerDriver::new(worker_config(false), runtime(1, Some(0))));
    let (driver, idle) = no_work(driver, "3");
    assert_eq!(idle.action, WorkerAction::Sleep(Delay::from_millis(1)));
    assert_eq!(driver.completed_pulls, 1);
}

#[test]
fn events_out_of_turn_are_not_accepted() {
    let driver = WorkerDriver::new(worker_config(false), WorkerRuntime::default());
    assert!(!driver.can_accept(&WorkerEvent::Connected));
    assert!(!driver.can_accept(&WorkerEvent::Sent));
    assert!(!driver.can_accept(&WorkerEvent::Received(Incoming::Other)));
    let (driver, _) = step(driver, WorkerEvent::Proceed);
    assert!(!driver.can_accept(&WorkerEvent::Proceed));
    assert!(!driver.can_accept(&WorkerEvent::ConnectFailed(ConnectFailure::Http {
        status: 99,
        body: None
    })));
    assert!(driver.can_accept(&WorkerEvent::ConnectFailed(ConnectFailure::Http {
        status: 999,
        body: None
    })));
}

#[test]
fn reconnect_backoff_grows_and_caps() {
    let mut backoff = ReconnectBackoff::new(Delay::from_millis(100), Delay::from_millis(1_000));

    assert_eq!(backoff.next_delay(), Delay::from_millis(100));
    assert_eq!(backoff.next_delay(), Delay::from_millis(200));
    assert_eq!(backoff.next_delay(), Delay::from_millis(400));
    assert_eq!(backoff.next_delay(), Delay::from_millis(800));
    assert_eq!(backoff.next_delay(), Delay::from_millis(1_000));
    assert_eq!(backoff.next_delay(), Delay::from_millis(1_000));
}

#[test]
fn reconnect_backoff_resets_after_success() {
    let mut backoff = ReconnectBackoff::new(Delay::from_millis(100), Delay::from_millis(1_000));

    assert_eq!(backoff.next_delay(), Delay::from_millis(100));
    assert_eq!(backoff.next_delay(), Delay::from_millis(200));

    backoff.reset();

    assert_eq!(backoff.next_delay(), Delay::from_millis(100));
}

#[test]
fn first_delay_is_not_capped() {
    let mut backoff = ReconnectBackoff::new(Delay::from_secs(9), Delay::from_secs(4));
    assert_eq!(backoff.next_delay(), Delay::from_secs(9));
    assert_eq!(backoff.next_delay(), Delay::from_secs(4));
    assert_eq!(backoff.next_delay(), Delay::from_secs(4));

    let mut backoff =
        ReconnectBackoff::new(Delay::from_secs(u64::MAX), Delay::from_secs(u64::MAX));
    assert_eq!(backoff.next_delay(), Delay::from_secs(u64::MAX));
    assert_eq!(backoff.next_delay(), Delay::from_secs(u64::MAX));
}

#[test]
fn runtime_defaults() {
    let runtime = WorkerRuntime::default();
    assert_eq!(runtime.idle_delay, Delay::from_secs(5));
    assert_eq!(runtime.reconnect_base_delay, Delay::from_secs(1));
    assert_eq!(runtime.reconnect_max_delay, Delay::from_secs(30));
    assert_eq!(runtime.max_pulls, None);
    assert_eq!(SUPPORTED_PROTOCOL_VERSION, 1);
}

#[test]
fn requests_are_sent_as_json() {
    assert_eq!(
        text_of_request(12, ClientEvent::PullWork),
        r#"["1","12","workers:crf_search","pull_work",{}]"#
    );
    let announcement = AnnouncePayload {
        worker_id: "a \"b\"".into(),
        protocol_version: u64::MAX,
        version: "0".into(),
        capabilities: Capabilities { crf_search: false },
    };
    assert_eq!(
        text_of_request(2, ClientEvent::Announce(announcement)),
        r#"["1","2","workers:crf_search","announce",{"capabilities":{"crf_search":false},"protocol_version":18446744073709551615,"version":"0","worker_id":"a \"b\""}]"#
    );
}

#[test]
fn report_names_worker_and_status() {
    let link = ConnectedWorker {
        assigned_worker_id: "w".into(),
        negotiated_protocol_version: 42,
        next_ref: 4,
    };
    assert_eq!(link.report("job_assigned"), "connected worker w via 42 and received job_assigned");
}
