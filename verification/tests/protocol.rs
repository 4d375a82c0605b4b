use ab_av1::command::worker::{AnnounceResponse, JoinResponse, PullWorkResponse};
use ab_av1::command::worker_protocol::{
    AnnouncePayload, Capabilities, ClientEvent, ClientFrame, ClientPayload, EmptyPayload,
    ErrorReplyPayload, JobAssignedPayload, NoWorkPayload, ReplyBody, ServerFrame, ServerReply,
    Wire, WorkStatus, CRF_SEARCH_TOPIC,
};
use ab_av1::json::Json;

fn text(t: &str) -> Json {
    Json::Text(t.to_string())
}

fn object(members: Vec<(&str, Json)>) -> Json {
    Json::Object(members.into_iter().map(|(name, value)| (name.to_string(), value)).collect())
}

fn announcement() -> AnnouncePayload {
    AnnouncePayload {
        worker_id: "abav1-dev".into(),
        protocol_version: 1,
        version: "0.11.4".into(),
        capabilities: Capabilities { crf_search: true },
    }
}

fn job() -> JobAssignedPayload {
    JobAssignedPayload {
        status: WorkStatus::JobAssigned,
        job_id: "job-123".into(),
        source_name: "movie.mkv".into(),
        size_bytes: 1024,
        chunk_size_bytes: 256,
    }
}

#[test]
fn announce_request_serializes_to_current_reencodarr_contract() {
    let frame = ClientFrame::new(2, ClientEvent::Announce(announcement()));

    assert_eq!(
        frame.to_json(),
        Json::Array(vec![
            text("1"),
            text("2"),
            text("workers:crf_search"),
            text("announce"),
            object(vec![
                ("worker_id", text("abav1-dev")),
                ("protocol_version", Json::U64(1)),
                ("version", text("0.11.4")),
                ("capabilities", object(vec![("crf_search", Json::Bool(true))])),
            ]),
        ])
    );
}

#[test]
fn server_reply_parses_current_no_work_payload() {
    let reply = ServerFrame::<ServerReply>::from_json(&Json::Array(vec![
        Json::Null,
        text("3"),
        text("workers:crf_search"),
        text("phx_reply"),
        object(vec![
            ("status", text("ok")),
            ("response", object(vec![("status", text("no_work"))])),
        ]),
    ]))
    .expect("parse no_work reply");

    assert_eq!(
        reply,
        ServerFrame::reply(
            3,
            ReplyBody::ok(ServerReply::NoWork(NoWorkPayload {
                status: WorkStatus::NoWork,
            })),
        )
    );
}

#[test]
fn server_reply_parses_future_job_assignment_payload() {
    let reply = ServerFrame::<ServerReply>::from_json(&Json::Array(vec![
        Json::Null,
        text("4"),
        text("workers:crf_search"),
        text("phx_reply"),
        object(vec![
            ("status", text("ok")),
            (
                "response",
                object(vec![
                    ("status", text("job_assigned")),
                    ("job_id", text("job-123")),
                    ("source_name", text("movie.mkv")),
                    ("size_bytes", Json::U64(1024)),
                    ("chunk_size_bytes", Json::U64(256)),
                ]),
            ),
        ]),
    ]))
    .expect("parse job_assigned reply");

    assert_eq!(
        reply,
        ServerFrame::reply(4, ReplyBody::ok(ServerReply::JobAssigned(job())))
    );
}

#[test]
fn server_error_reply_parses_protocol_mismatch_payload() {
    let reply = ServerFrame::<ErrorReplyPayload>::from_json(&Json::Array(vec![
        Json::Null,
        text("2"),
        text("workers:crf_search"),
        text("phx_reply"),
        object(vec![
            ("status", text("error")),
            (
                "response",
                object(vec![
                    ("reason", text("unsupported_protocol_version")),
                    ("supported_protocol_versions", Json::Array(vec![Json::U64(1)])),
                ]),
            ),
        ]),
    ]))
    .expect("parse error reply");

    assert_eq!(
        reply,
        ServerFrame::reply(
            2,
            ReplyBody::error(
                ErrorReplyPayload::new("unsupported_protocol_version")
                    .with_supported_protocol_versions(vec![1]),
            ),
        )
    );
}

#[test]
fn requests_without_payload_carry_an_empty_object() {
    assert_eq!(
        ClientFrame::new(1, ClientEvent::Join).to_json(),
        Json::Array(vec![
            text("1"),
            text("1"),
            text(CRF_SEARCH_TOPIC),
            text("phx_join"),
            Json::Object(vec![]),
        ])
    );
    assert_eq!(
        ClientEvent::PullWork.into_parts(),
        ("pull_work", ClientPayload::Empty(EmptyPayload {}))
    );
    assert_eq!(
        ClientEvent::Announce(announcement()).into_parts(),
        ("announce", ClientPayload::Announce(announcement()))
    );
}

#[test]
fn references_are_decimal() {
    assert_eq!(ClientFrame::new(0, ClientEvent::PullWork).1, "0");
    assert_eq!(ClientFrame::new(1_234_567_890, ClientEvent::PullWork).1, "1234567890");
    assert_eq!(
        ClientFrame::new(u64::MAX, ClientEvent::PullWork).1,
        "18446744073709551615"
    );
}

#[test]
fn messages_read_back_what_was_written() {
    let granted = ServerFrame::reply(7, ReplyBody::ok(ServerReply::JobAssigned(job())));
    assert_eq!(ServerFrame::from_json(&granted.to_json()), Some(granted));

    let odd = ServerFrame(
        Some("1".to_string()),
        "7".to_string(),
        "elsewhere".to_string(),
        "phx_close".to_string(),
        ReplyBody {
            status: "strange".to_string(),
            response: ServerReply::NoWork(NoWorkPayload { status: WorkStatus::JobAssigned }),
        },
    );
    assert_eq!(ServerFrame::from_json(&odd.to_json()), Some(odd));

    let refused = ReplyBody::error(
        ErrorReplyPayload::new("busy").with_supported_protocol_versions(vec![3, 1, 2]),
    );
    assert_eq!(ReplyBody::from_json(&refused.to_json()), Some(refused));

    assert_eq!(
        AnnouncePayload::from_json(&announcement().to_json()),
        Some(announcement())
    );

    let join = JoinResponse { worker_id: "worker-123".to_string() };
    assert_eq!(JoinResponse::from_json(&join.to_json()), Some(join));
    let announce = AnnounceResponse { accepted: false, protocol_version: 9 };
    assert_eq!(AnnounceResponse::from_json(&announce.to_json()), Some(announce));
    let pull = PullWorkResponse { status: "no_work".to_string() };
    assert_eq!(PullWorkResponse::from_json(&pull.to_json()), Some(pull));
}

#[test]
fn a_refusal_may_leave_the_versions_out() {
    let expected = Some(ErrorReplyPayload::new("busy"));
    assert_eq!(
        ErrorReplyPayload::from_json(&object(vec![("reason", text("busy"))])),
        expected
    );
    assert_eq!(
        ErrorReplyPayload::from_json(&Json::Array(vec![text("busy")])),
        expected
    );
    assert_eq!(
        ErrorReplyPayload::from_json(&Json::Array(vec![
            text("busy"),
            Json::Array(vec![Json::U64(2)])
        ])),
        Some(ErrorReplyPayload::new("busy").with_supported_protocol_versions(vec![2]))
    );
    assert_eq!(
        ErrorReplyPayload::from_json(&object(vec![
            ("reason", text("busy")),
            ("supported_protocol_versions", Json::Null),
        ])),
        None
    );
    assert_eq!(
        ErrorReplyPayload::from_json(&object(vec![
            ("reason", text("busy")),
            ("supported_protocol_versions", Json::Array(vec![Json::I64(-1)])),
        ])),
        None
    );
    assert_eq!(ErrorReplyPayload::from_json(&Json::Array(vec![])), None);
}

#[test]
fn records_are_objects_or_arrays() {
    assert_eq!(
        AnnounceResponse::from_json(&Json::Array(vec![Json::Bool(true), Json::U64(1)])),
        Some(AnnounceResponse { accepted: true, protocol_version: 1 })
    );
    assert_eq!(
        AnnounceResponse::from_json(&Json::Array(vec![
            Json::Bool(true),
            Json::U64(1),
            Json::Null
        ])),
        None
    );
    // Members that are not asked for do not matter.
    assert_eq!(
        PullWorkResponse::from_json(&object(vec![
            ("job_id", text("job-123")),
            ("status", text("job_assigned")),
        ])),
        Some(PullWorkResponse { status: "job_assigned".to_string() })
    );
    assert_eq!(
        AnnounceResponse::from_json(&object(vec![
            ("accepted", Json::Bool(true)),
            ("protocol_version", Json::Float("1.0".to_string())),
        ])),
        None
    );
    assert_eq!(JoinResponse::from_json(&object(vec![])), None);
    assert_eq!(JoinResponse::from_json(&Json::Null), None);
    assert_eq!(JoinResponse::from_json(&text("worker-123")), None);
}

#[test]
fn work_status_names() {
    assert_eq!(WorkStatus::NoWork.as_str(), "no_work");
    assert_eq!(WorkStatus::JobAssigned.as_str(), "job_assigned");
    assert_eq!(WorkStatus::from_json(&text("job_assigned")), Some(WorkStatus::JobAssigned));
    assert_eq!(
        WorkStatus::from_json(&object(vec![("no_work", Json::Null)])),
        Some(WorkStatus::NoWork)
    );
    assert_eq!(
        WorkStatus::from_json(&object(vec![("no_work", Json::Bool(true))])),
        None
    );
    assert_eq!(WorkStatus::from_json(&text("NoWork")), None);
    assert_eq!(WorkStatus::from_json(&Json::U64(0)), None);
}

#[test]
fn an_incomplete_job_is_no_work() {
    assert_eq!(
        ServerReply::from_json(&object(vec![
            ("status", text("job_assigned")),
            ("job_id", text("job-123")),
        ])),
        Some(ServerReply::NoWork(NoWorkPayload { status: WorkStatus::JobAssigned }))
    );
    assert_eq!(ServerReply::from_json(&object(vec![("status", text("later"))])), None);
}

#[test]
fn a_frame_has_five_parts() {
    assert_eq!(
        ServerFrame::<NoWorkPayload>::from_json(&Json::Array(vec![
            Json::Null,
            text("3"),
            text("t"),
            text("e"),
        ])),
        None
    );
    assert_eq!(
        ServerFrame::<NoWorkPayload>::from_json(&Json::Array(vec![
            Json::Null,
            Json::Null,
            text("t"),
            text("e"),
            object(vec![
                ("status", text("ok")),
                ("response", object(vec![("status", text("no_work"))])),
            ]),
        ])),
        None
    );
    assert_eq!(
        ReplyBody::<NoWorkPayload>::from_json(&object(vec![("status", text("ok"))])),
        None
    );
}
