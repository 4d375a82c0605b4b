//! What the messages look like on the wire, name for name.
use vstd::prelude::*;

use crate::command::worker_protocol::{
    encoded_frame, request, AnnouncePayload, AnnounceView, Capabilities, ClientEvent,
    ClientEventView, ClientFrame, ClientPayload, ErrorReplyPayload, ErrorReplyView,
    JobAssignedPayload, JobAssignedView, NoWorkPayload, ReplyBody, ReplyBodyView, ServerFrame,
    ServerFrameView, ServerReply, ServerReplyView, Wire, WorkStatus,
};
use crate::json::{fields_of_records, holds, lacks, values_are_read_as_their_kind, JsonView};
use crate::text::decimal;

verus! {

/// A worker says "phx_join", "announce" or "pull_work" on the topic of CRF
/// searches, under the join reference 1 and the decimal reference of the
/// request; only the announcement carries anything.
pub proof fn requests_on_the_wire(reference: u64, announcement: AnnounceView)
    ensures
        encoded_frame(request(reference, ClientEventView::Join)) == JsonView::Array(
            seq![
                JsonView::Text("1"@),
                JsonView::Text(decimal(reference as nat)),
                JsonView::Text("workers:crf_search"@),
                JsonView::Text("phx_join"@),
                JsonView::Object(seq![]),
            ],
        ),
        encoded_frame(request(reference, ClientEventView::PullWork)) == JsonView::Array(
            seq![
                JsonView::Text("1"@),
                JsonView::Text(decimal(reference as nat)),
                JsonView::Text("workers:crf_search"@),
                JsonView::Text("pull_work"@),
                JsonView::Object(seq![]),
            ],
        ),
        encoded_frame(request(reference, ClientEventView::Announce(announcement)))
            == JsonView::Array(
            seq![
                JsonView::Text("1"@),
                JsonView::Text(decimal(reference as nat)),
                JsonView::Text("workers:crf_search"@),
                JsonView::Text("announce"@),
                JsonView::Object(
                    seq![
                        ("worker_id"@, JsonView::Text(announcement.worker_id)),
                        ("protocol_version"@, JsonView::U64(announcement.protocol_version)),
                        ("version"@, JsonView::Text(announcement.version)),
                        (
                            "capabilities"@,
                            JsonView::Object(
                                seq![("crf_search"@, JsonView::Bool(announcement.crf_search))],
                            ),
                        ),
                    ],
                ),
            ],
        ),
{
}

/// A status is written as its name, and read of its name, alone or as the one
/// member of an object, which is null. Nothing else is a status.
pub proof fn statuses_on_the_wire(text: Seq<char>, members: Seq<(Seq<char>, JsonView)>, json: JsonView)
    ensures
        WorkStatus::encoded(WorkStatus::NoWork) == JsonView::Text("no_work"@),
        WorkStatus::encoded(WorkStatus::JobAssigned) == JsonView::Text("job_assigned"@),
        WorkStatus::decoded(JsonView::Text("no_work"@)) == Some(WorkStatus::NoWork),
        WorkStatus::decoded(JsonView::Text("job_assigned"@)) == Some(WorkStatus::JobAssigned),
        text != "no_work"@ && text != "job_assigned"@ ==> WorkStatus::decoded(
            JsonView::Text(text),
        ) is None,
        WorkStatus::decoded(JsonView::Object(seq![(text, JsonView::Null)])) == WorkStatus::decoded(
            JsonView::Text(text),
        ),
        members.len() != 1 ==> WorkStatus::decoded(JsonView::Object(members)) is None,
        members.len() == 1 && !(members[0].1 is Null) ==> WorkStatus::decoded(
            JsonView::Object(members),
        ) is None,
        !(json is Text || json is Object) ==> WorkStatus::decoded(json) is None,
{
    reveal_strlit("no_work");
    reveal_strlit("job_assigned");
    assert("no_work"@.len() != "job_assigned"@.len());
}

/// That there is no work is told by the member "status".
pub proof fn no_work_on_the_wire(members: Seq<(Seq<char>, JsonView)>, value: JsonView, status: WorkStatus)
    ensures
        NoWorkPayload::encoded(status) == JsonView::Object(
            seq![("status"@, WorkStatus::encoded(status))],
        ),
        holds(members, "status"@, value) ==> NoWorkPayload::decoded(JsonView::Object(members))
            == WorkStatus::decoded(value),
        NoWorkPayload::decoded(JsonView::Array(seq![value])) == WorkStatus::decoded(value),
        lacks(members, "status"@) ==> NoWorkPayload::decoded(JsonView::Object(members)) is None,
{
    fields_of_records(JsonView::Object(members), "status"@, value, 0, 1);
    fields_of_records(JsonView::Array(seq![value]), "status"@, value, 0, 1);
}

/// A job is told by its status, id, source, size and chunk size, each under its
/// name. It is read only where all five are there.
pub proof fn jobs_on_the_wire(
    members: Seq<(Seq<char>, JsonView)>,
    status: JsonView,
    job_id: JsonView,
    source_name: JsonView,
    size_bytes: JsonView,
    chunk_size_bytes: JsonView,
    job: JobAssignedView,
)
    ensures
        JobAssignedPayload::encoded(job) == JsonView::Object(
            seq![
                ("status"@, WorkStatus::encoded(job.status)),
                ("job_id"@, JsonView::Text(job.job_id)),
                ("source_name"@, JsonView::Text(job.source_name)),
                ("size_bytes"@, JsonView::U64(job.size_bytes)),
                ("chunk_size_bytes"@, JsonView::U64(job.chunk_size_bytes)),
            ],
        ),
        ({
            &&& holds(members, "status"@, status)
            &&& holds(members, "job_id"@, job_id)
            &&& holds(members, "source_name"@, source_name)
            &&& holds(members, "size_bytes"@, size_bytes)
            &&& holds(members, "chunk_size_bytes"@, chunk_size_bytes)
        }) ==> JobAssignedPayload::decoded(JsonView::Object(members)) == JobAssignedPayload::decoded(
            JsonView::Array(seq![status, job_id, source_name, size_bytes, chunk_size_bytes]),
        ),
        JobAssignedPayload::decoded(
            JsonView::Array(seq![status, job_id, source_name, size_bytes, chunk_size_bytes]),
        ) == (match (WorkStatus::decoded(status), job_id, source_name, size_bytes, chunk_size_bytes) {
            (
                Some(status),
                JsonView::Text(job_id),
                JsonView::Text(source_name),
                JsonView::U64(size_bytes),
                JsonView::U64(chunk_size_bytes),
            ) => Some(
                JobAssignedView { status, job_id, source_name, size_bytes, chunk_size_bytes },
            ),
            _ => None,
        }),
        lacks(members, "status"@) || lacks(members, "job_id"@) || lacks(members, "source_name"@)
            || lacks(members, "size_bytes"@) || lacks(members, "chunk_size_bytes"@)
            ==> JobAssignedPayload::decoded(JsonView::Object(members)) is None,
{
    let object = JsonView::Object(members);
    let array = JsonView::Array(seq![status, job_id, source_name, size_bytes, chunk_size_bytes]);
    fields_of_records(object, "status"@, status, 0, 5);
    fields_of_records(object, "job_id"@, job_id, 1, 5);
    fields_of_records(object, "source_name"@, source_name, 2, 5);
    fields_of_records(object, "size_bytes"@, size_bytes, 3, 5);
    fields_of_records(object, "chunk_size_bytes"@, chunk_size_bytes, 4, 5);
    fields_of_records(array, "status"@, status, 0, 5);
    fields_of_records(array, "job_id"@, job_id, 1, 5);
    fields_of_records(array, "source_name"@, source_name, 2, 5);
    fields_of_records(array, "size_bytes"@, size_bytes, 3, 5);
    fields_of_records(array, "chunk_size_bytes"@, chunk_size_bytes, 4, 5);
}

/// What can be read as a job is one, whatever its status; only what cannot is
/// read as the news that there is no work.
pub proof fn jobs_come_first(json: JsonView)
    ensures
        ServerReply::decoded(json) matches Some(ServerReplyView::JobAssigned(job))
            ==> JobAssignedPayload::decoded(json) == Some(job),
        JobAssignedPayload::decoded(json) matches Some(job) ==> ServerReply::decoded(json) == Some(
            ServerReplyView::JobAssigned(job),
        ),
        JobAssignedPayload::decoded(json) is None ==> (NoWorkPayload::decoded(json) matches Some(status)
            ==> ServerReply::decoded(json) == Some(ServerReplyView::NoWork(status))),
        ServerReply::decoded(json) is None <==> JobAssignedPayload::decoded(json) is None
            && NoWorkPayload::decoded(json) is None,
{
}

/// A refusal gives its reason, and may give the versions that are supported;
/// where it does not, there are none.
pub proof fn refusals_on_the_wire(
    members: Seq<(Seq<char>, JsonView)>,
    reason: Seq<char>,
    versions: Seq<u64>,
    items: Seq<JsonView>,
)
    requires
        items.len() == versions.len(),
        forall|i: int| 0 <= i < items.len() ==> #[trigger] items[i] == JsonView::U64(versions[i]),
    ensures
        ErrorReplyPayload::encoded(
            ErrorReplyView { reason, supported_protocol_versions: versions },
        ) == JsonView::Object(
            seq![
                ("reason"@, JsonView::Text(reason)),
                ("supported_protocol_versions"@, JsonView::Array(items)),
            ],
        ),
        holds(members, "reason"@, JsonView::Text(reason)) && holds(
            members,
            "supported_protocol_versions"@,
            JsonView::Array(items),
        ) ==> ErrorReplyPayload::decoded(JsonView::Object(members)) == Some(
            ErrorReplyView { reason, supported_protocol_versions: versions },
        ),
        holds(members, "reason"@, JsonView::Text(reason)) && lacks(
            members,
            "supported_protocol_versions"@,
        ) ==> ErrorReplyPayload::decoded(JsonView::Object(members)) == Some(
            ErrorReplyView { reason, supported_protocol_versions: Seq::empty() },
        ),
        lacks(members, "reason"@) ==> ErrorReplyPayload::decoded(JsonView::Object(members)) is None,
        ErrorReplyPayload::decoded(JsonView::Array(seq![JsonView::Text(reason)])) == Some(
            ErrorReplyView { reason, supported_protocol_versions: Seq::empty() },
        ),
        ErrorReplyPayload::decoded(
            JsonView::Array(seq![JsonView::Text(reason), JsonView::Array(items)]),
        ) == Some(ErrorReplyView { reason, supported_protocol_versions: versions }),
{
    let object = JsonView::Object(members);
    let list = JsonView::Array(items);
    let encoded = ErrorReplyPayload::encoded(
        ErrorReplyView { reason, supported_protocol_versions: versions },
    );
    assert(encoded->Object_0[1].1->Array_0 =~= items);
    values_are_read_as_their_kind(list, versions, items);
    fields_of_records(object, "reason"@, JsonView::Text(reason), 0, 2);
    fields_of_records(object, "supported_protocol_versions"@, list, 1, 2);
}

/// A reply gives its status and its response under those names; the response is
/// read as what the request asks for.
pub proof fn replies_on_the_wire<T: Wire>(
    members: Seq<(Seq<char>, JsonView)>,
    status: Seq<char>,
    form: JsonView,
    response: T::V,
)
    ensures
        ReplyBody::<T>::encoded(ReplyBodyView { status, response }) == JsonView::Object(
            seq![("status"@, JsonView::Text(status)), ("response"@, T::encoded(response))],
        ),
        holds(members, "status"@, JsonView::Text(status)) && holds(members, "response"@, form)
            ==> ReplyBody::<T>::decoded(JsonView::Object(members)) == ReplyBody::<T>::decoded(
            JsonView::Array(seq![JsonView::Text(status), form]),
        ),
        T::decoded(form) == Some(response) ==> ReplyBody::<T>::decoded(
            JsonView::Array(seq![JsonView::Text(status), form]),
        ) == Some(ReplyBodyView { status, response }),
        T::decoded(form) is None ==> ReplyBody::<T>::decoded(
            JsonView::Array(seq![JsonView::Text(status), form]),
        ) is None,
        lacks(members, "status"@) || lacks(members, "response"@) ==> ReplyBody::<T>::decoded(
            JsonView::Object(members),
        ) is None,
{
    let object = JsonView::Object(members);
    fields_of_records(object, "status"@, JsonView::Text(status), 0, 2);
    fields_of_records(object, "response"@, form, 1, 2);
}

/// A message of the coordinator is the reference of the join or null, the
/// reference of the request, the topic, the event and the reply, in that order.
pub proof fn frames_on_the_wire<T: Wire>(
    join_ref: Option<Seq<char>>,
    msg_ref: Seq<char>,
    topic: Seq<char>,
    event: Seq<char>,
    form: JsonView,
    body: ReplyBodyView<T::V>,
)
    ensures
        ({
            let first = match join_ref {
                Some(text) => JsonView::Text(text),
                None => JsonView::Null,
            };
            let frame = ServerFrameView { join_ref, msg_ref, topic, event, body };
            let read = ServerFrame::<T>::decoded(
                JsonView::Array(
                    seq![
                        first,
                        JsonView::Text(msg_ref),
                        JsonView::Text(topic),
                        JsonView::Text(event),
                        form,
                    ],
                ),
            );
            &&& ServerFrame::<T>::encoded(frame) == JsonView::Array(
                seq![
                    first,
                    JsonView::Text(msg_ref),
                    JsonView::Text(topic),
                    JsonView::Text(event),
                    ReplyBody::<T>::encoded(body),
                ],
            )
            &&& ReplyBody::<T>::decoded(form) == Some(body) ==> read == Some(frame)
            &&& ReplyBody::<T>::decoded(form) is None ==> read is None
        }),
{
}

/// An announcement gives the worker's id, the version of the protocol, the
/// version of the worker and what it can do, each under its name.
pub proof fn announcements_on_the_wire(
    members: Seq<(Seq<char>, JsonView)>,
    capabilities: Seq<(Seq<char>, JsonView)>,
    announcement: AnnounceView,
)
    ensures
        holds(capabilities, "crf_search"@, JsonView::Bool(announcement.crf_search)) && holds(
            members,
            "worker_id"@,
            JsonView::Text(announcement.worker_id),
        ) && holds(
            members,
            "protocol_version"@,
            JsonView::U64(announcement.protocol_version),
        ) && holds(members, "version"@, JsonView::Text(announcement.version)) && holds(
            members,
            "capabilities"@,
            JsonView::Object(capabilities),
        ) ==> AnnouncePayload::decoded(JsonView::Object(members)) == Some(announcement),
        lacks(members, "worker_id"@) || lacks(members, "protocol_version"@) || lacks(
            members,
            "version"@,
        ) || lacks(members, "capabilities"@) ==> AnnouncePayload::decoded(
            JsonView::Object(members),
        ) is None,
        Capabilities::encoded(announcement.crf_search) == JsonView::Object(
            seq![("crf_search"@, JsonView::Bool(announcement.crf_search))],
        ),
        lacks(capabilities, "crf_search"@) ==> Capabilities::decoded(
            JsonView::Object(capabilities),
        ) is None,
{
    let object = JsonView::Object(members);
    let can = JsonView::Object(capabilities);
    fields_of_records(can, "crf_search"@, JsonView::Bool(announcement.crf_search), 0, 1);
    fields_of_records(object, "worker_id"@, JsonView::Text(announcement.worker_id), 0, 4);
    fields_of_records(
        object,
        "protocol_version"@,
        JsonView::U64(announcement.protocol_version),
        1,
        4,
    );
    fields_of_records(object, "version"@, JsonView::Text(announcement.version), 2, 4);
    fields_of_records(object, "capabilities"@, can, 3, 4);
}

/// What the messages hold is what their fields hold.
pub proof fn messages_hold_their_fields<T: View>(
    status: WorkStatus,
    none: NoWorkPayload,
    job: JobAssignedPayload,
    reply: ServerReply,
    refusal: ErrorReplyPayload,
    body: ReplyBody<T>,
    frame: ServerFrame<T>,
    announcement: AnnouncePayload,
    event: ClientEvent,
    payload: ClientPayload,
    request: ClientFrame,
)
    ensures
        status@ == status,
        none@ == none.status,
        job@.status == job.status && job@.job_id == job.job_id@ && job@.source_name
            == job.source_name@,
        job@.size_bytes == job.size_bytes && job@.chunk_size_bytes == job.chunk_size_bytes,
        reply matches ServerReply::JobAssigned(job) ==> reply@ == ServerReplyView::JobAssigned(job@),
        reply matches ServerReply::NoWork(none) ==> reply@ == ServerReplyView::NoWork(none.status),
        refusal@.reason == refusal.reason@,
        refusal@.supported_protocol_versions == refusal.supported_protocol_versions@,
        body@.status == body.status@ && body@.response == body.response@,
        frame.0 matches Some(text) ==> frame@.join_ref == Some(text@),
        frame.0 is None ==> frame@.join_ref is None,
        frame@.msg_ref == frame.1@ && frame@.topic == frame.2@ && frame@.event == frame.3@
            && frame@.body == frame.4@,
        announcement@.worker_id == announcement.worker_id@ && announcement@.version
            == announcement.version@,
        announcement@.protocol_version == announcement.protocol_version,
        announcement@.crf_search == announcement.capabilities.crf_search,
        event is Join ==> event@ is Join,
        event is PullWork ==> event@ is PullWork,
        event matches ClientEvent::Announce(payload) ==> event@ == ClientEventView::Announce(
            payload@,
        ),
        payload is Empty ==> payload@ is None,
        payload matches ClientPayload::Announce(announcement) ==> payload@ == Some(announcement@),
        request@.join_ref == request.0@ && request@.msg_ref == request.1@ && request@.topic
            == request.2@ && request@.event == request.3@ && request@.payload == request.4@,
{
}

} // verus!
