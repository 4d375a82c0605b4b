//! The messages between a worker and its coordinator, and their form in JSON.
pub mod laws;

use vstd::prelude::*;

use crate::json::{as_bool, as_text, as_u64, as_u64s, field, member, text_view, Json, JsonView};
use crate::text::{decimal, decimal_is_injective, decimal_of, same_text};

verus! {

/// The topic that a worker of CRF searches joins.
pub const CRF_SEARCH_TOPIC: &'static str = "workers:crf_search";

/// What has a form in JSON.
pub trait Wire: View + Sized {
    /// The form of a value.
    spec fn encoded(value: Self::V) -> JsonView;

    /// The value that a form stands for, if it stands for one.
    spec fn decoded(json: JsonView) -> Option<Self::V>;

    /// Reading gives back what was written.
    proof fn decodes_what_it_encodes(value: Self::V)
        ensures
            Self::decoded(Self::encoded(value)) == Some(value),
    ;

    /// Writes the value.
    fn to_json(&self) -> (r: Json)
        ensures
            r@ == Self::encoded(self@),
    ;

    /// Reads a value.
    fn from_json(json: &Json) -> (r: Option<Self>)
        ensures
            match r {
                Some(value) => Self::decoded(json@) == Some(value@),
                None => Self::decoded(json@) is None,
            },
    ;
}

/// What work there is for a worker.
#[derive(Debug, Clone, PartialEq, Eq)]
pub enum WorkStatus {
    NoWork,
    JobAssigned,
}

impl View for WorkStatus {
    type V = WorkStatus;

    open spec fn view(&self) -> WorkStatus {
        *self
    }
}

/// The name of a status in messages.
pub open spec fn status_name(status: WorkStatus) -> Seq<char> {
    match status {
        WorkStatus::NoWork => "no_work"@,
        WorkStatus::JobAssigned => "job_assigned"@,
    }
}

/// The status of that name.
pub open spec fn status_named(name: Seq<char>) -> Option<WorkStatus> {
    if name == "no_work"@ {
        Some(WorkStatus::NoWork)
    } else if name == "job_assigned"@ {
        Some(WorkStatus::JobAssigned)
    } else {
        None
    }
}

impl WorkStatus {
    /// The name of the status in messages.
    pub fn as_str(&self) -> (r: &'static str)
        ensures
            r@ == status_name(*self),
    {
        match self {
            WorkStatus::NoWork => "no_work",
            WorkStatus::JobAssigned => "job_assigned",
        }
    }

    fn named(name: &str) -> (r: Option<WorkStatus>)
        ensures
            r == status_named(name@),
    {
        if same_text(name, "no_work") {
            Some(WorkStatus::NoWork)
        } else if same_text(name, "job_assigned") {
            Some(WorkStatus::JobAssigned)
        } else {
            None
        }
    }
}

/// A status is its name, or an object with the name as its one member, null.
impl Wire for WorkStatus {
    open spec fn encoded(value: WorkStatus) -> JsonView {
        JsonView::Text(status_name(value))
    }

    open spec fn decoded(json: JsonView) -> Option<WorkStatus> {
        match json {
            JsonView::Text(name) => status_named(name),
            JsonView::Object(members) => if members.len() == 1 && members[0].1 is Null {
                status_named(members[0].0)
            } else {
                None
            },
            _ => None,
        }
    }

    proof fn decodes_what_it_encodes(value: WorkStatus) {
        reveal_strlit("no_work");
        reveal_strlit("job_assigned");
        assert("no_work"@.len() != "job_assigned"@.len());
    }

    fn to_json(&self) -> Json {
        Json::text(self.as_str())
    }

    fn from_json(json: &Json) -> Option<WorkStatus> {
        match json {
            Json::Text(name) => WorkStatus::named(name.as_str()),
            Json::Object(members) => if members.len() == 1 {
                assert(json@->Object_0[0] == (members@[0].0@, members@[0].1@));
                match &members[0].1 {
                    Json::Null => WorkStatus::named(members[0].0.as_str()),
                    _ => None,
                }
            } else {
                None
            },
            _ => None,
        }
    }
}

/// The status in the first field of a record of `arity` fields.
pub open spec fn status_field(record: JsonView, arity: nat) -> Option<WorkStatus> {
    match field(record, "status"@, 0, arity) {
        Some(status) => WorkStatus::decoded(status),
        None => None,
    }
}

/// The answer to a request for work when there is none.
#[derive(Debug, Clone, PartialEq, Eq)]
pub struct NoWorkPayload {
    pub status: WorkStatus,
}

impl View for NoWorkPayload {
    type V = WorkStatus;

    open spec fn view(&self) -> WorkStatus {
        self.status
    }
}

impl Wire for NoWorkPayload {
    open spec fn encoded(value: WorkStatus) -> JsonView {
        JsonView::Object(seq![("status"@, WorkStatus::encoded(value))])
    }

    open spec fn decoded(json: JsonView) -> Option<WorkStatus> {
        status_field(json, 1)
    }

    proof fn decodes_what_it_encodes(value: WorkStatus) {
        WorkStatus::decodes_what_it_encodes(value);
    }

    fn to_json(&self) -> Json {
        let r = Json::Object(vec![("status".to_owned(), self.status.to_json())]);
        assert(r@->Object_0 =~= Self::encoded(self@)->Object_0);
        r
    }

    fn from_json(json: &Json) -> Option<NoWorkPayload> {
        match json.field("status", 0, 1) {
            Some(status) => match WorkStatus::from_json(status) {
                Some(status) => Some(NoWorkPayload { status }),
                None => None,
            },
            None => None,
        }
    }
}

/// The answer to a request for work when there is a job.
#[derive(Debug, Clone, PartialEq, Eq)]
pub struct JobAssignedPayload {
    pub status: WorkStatus,
    pub job_id: String,
    pub source_name: String,
    pub size_bytes: u64,
    pub chunk_size_bytes: u64,
}

/// What such an answer holds.
pub struct JobAssignedView {
    pub status: WorkStatus,
    pub job_id: Seq<char>,
    pub source_name: Seq<char>,
    pub size_bytes: u64,
    pub chunk_size_bytes: u64,
}

impl View for JobAssignedPayload {
    type V = JobAssignedView;

    open spec fn view(&self) -> JobAssignedView {
        JobAssignedView {
            status: self.status,
            job_id: self.job_id@,
            source_name: self.source_name@,
            size_bytes: self.size_bytes,
            chunk_size_bytes: self.chunk_size_bytes,
        }
    }
}

impl Wire for JobAssignedPayload {
    open spec fn encoded(value: JobAssignedView) -> JsonView {
        JsonView::Object(
            seq![
                ("status"@, WorkStatus::encoded(value.status)),
                ("job_id"@, JsonView::Text(value.job_id)),
                ("source_name"@, JsonView::Text(value.source_name)),
                ("size_bytes"@, JsonView::U64(value.size_bytes)),
                ("chunk_size_bytes"@, JsonView::U64(value.chunk_size_bytes)),
            ],
        )
    }

    open spec fn decoded(json: JsonView) -> Option<JobAssignedView> {
        match (
            status_field(json, 5),
            as_text(field(json, "job_id"@, 1, 5)),
            as_text(field(json, "source_name"@, 2, 5)),
            as_u64(field(json, "size_bytes"@, 3, 5)),
            as_u64(field(json, "chunk_size_bytes"@, 4, 5)),
        ) {
            (
                Some(status),
                Some(job_id),
                Some(source_name),
                Some(size_bytes),
                Some(chunk_size_bytes),
            ) => Some(
                JobAssignedView { status, job_id, source_name, size_bytes, chunk_size_bytes },
            ),
            _ => None,
        }
    }

    proof fn decodes_what_it_encodes(value: JobAssignedView) {
        WorkStatus::decodes_what_it_encodes(value.status);
        lemma_job_names_differ();
        let members = Self::encoded(value)->Object_0;
        reveal_with_fuel(member, 6);
        assert(members.drop_last().last() == members[3]);
        assert(members.drop_last().drop_last().last() == members[2]);
        assert(members.drop_last().drop_last().drop_last().last() == members[1]);
        assert(members.drop_last().drop_last().drop_last().drop_last().last() == members[0]);
    }

    fn to_json(&self) -> Json {
        let r = Json::Object(
            vec![
                ("status".to_owned(), self.status.to_json()),
                ("job_id".to_owned(), Json::text(self.job_id.as_str())),
                ("source_name".to_owned(), Json::text(self.source_name.as_str())),
                ("size_bytes".to_owned(), Json::number(self.size_bytes)),
                ("chunk_size_bytes".to_owned(), Json::number(self.chunk_size_bytes)),
            ],
        );
        assert(r@->Object_0 =~= Self::encoded(self@)->Object_0);
        r
    }

    fn from_json(json: &Json) -> Option<JobAssignedPayload> {
        let status = match json.field("status", 0, 5) {
            Some(status) => WorkStatus::from_json(status),
            None => None,
        };
        let job_id = json.text_field("job_id", 1, 5);
        let source_name = json.text_field("source_name", 2, 5);
        let size_bytes = json.u64_field("size_bytes", 3, 5);
        let chunk_size_bytes = json.u64_field("chunk_size_bytes", 4, 5);
        match (status, job_id, source_name, size_bytes, chunk_size_bytes) {
            (
                Some(status),
                Some(job_id),
                Some(source_name),
                Some(size_bytes),
                Some(chunk_size_bytes),
            ) => Some(
                JobAssignedPayload { status, job_id, source_name, size_bytes, chunk_size_bytes },
            ),
            _ => None,
        }
    }
}

proof fn lemma_job_names_differ()
    ensures
        "status"@ != "job_id"@,
        "status"@.len() == 6,
        "job_id"@.len() == 6,
        "source_name"@.len() == 11,
        "size_bytes"@.len() == 10,
        "chunk_size_bytes"@.len() == 16,
{
    reveal_strlit("status");
    reveal_strlit("job_id");
    reveal_strlit("source_name");
    reveal_strlit("size_bytes");
    reveal_strlit("chunk_size_bytes");
    assert("status"@[0] != "job_id"@[0]);
}

/// The answer to a request for work.
#[derive(Debug, Clone, PartialEq, Eq)]
pub enum ServerReply {
    JobAssigned(JobAssignedPayload),
    NoWork(NoWorkPayload),
}

/// What such an answer holds.
pub enum ServerReplyView {
    JobAssigned(JobAssignedView),
    NoWork(WorkStatus),
}

impl View for ServerReply {
    type V = ServerReplyView;

    open spec fn view(&self) -> ServerReplyView {
        match self {
            ServerReply::JobAssigned(payload) => ServerReplyView::JobAssigned(payload@),
            ServerReply::NoWork(payload) => ServerReplyView::NoWork(payload@),
        }
    }
}

/// The form does not tell which answer it is: what can be read as an assigned
/// job is one.
impl Wire for ServerReply {
    open spec fn encoded(value: ServerReplyView) -> JsonView {
        match value {
            ServerReplyView::JobAssigned(job) => JobAssignedPayload::encoded(job),
            ServerReplyView::NoWork(status) => NoWorkPayload::encoded(status),
        }
    }

    open spec fn decoded(json: JsonView) -> Option<ServerReplyView> {
        match JobAssignedPayload::decoded(json) {
            Some(job) => Some(ServerReplyView::JobAssigned(job)),
            None => match NoWorkPayload::decoded(json) {
                Some(status) => Some(ServerReplyView::NoWork(status)),
                None => None,
            },
        }
    }

    proof fn decodes_what_it_encodes(value: ServerReplyView) {
        match value {
            ServerReplyView::JobAssigned(job) => JobAssignedPayload::decodes_what_it_encodes(job),
            ServerReplyView::NoWork(status) => {
                NoWorkPayload::decodes_what_it_encodes(status);
                lemma_job_names_differ();
                let members = NoWorkPayload::encoded(status)->Object_0;
                reveal_with_fuel(member, 2);
                assert(members.drop_last().len() == 0);
                assert(member(members, "job_id"@) is None);
            },
        }
    }

    fn to_json(&self) -> Json {
        match self {
            ServerReply::JobAssigned(payload) => payload.to_json(),
            ServerReply::NoWork(payload) => payload.to_json(),
        }
    }

    fn from_json(json: &Json) -> Option<ServerReply> {
        match JobAssignedPayload::from_json(json) {
            Some(payload) => Some(ServerReply::JobAssigned(payload)),
            None => match NoWorkPayload::from_json(json) {
                Some(payload) => Some(ServerReply::NoWork(payload)),
                None => None,
            },
        }
    }
}

/// Why a request was refused.
#[derive(Debug, Clone, PartialEq, Eq)]
pub struct ErrorReplyPayload {
    pub reason: String,
    pub supported_protocol_versions: Vec<u64>,
}

/// What such a refusal holds.
pub struct ErrorReplyView {
    pub reason: Seq<char>,
    pub supported_protocol_versions: Seq<u64>,
}

impl View for ErrorReplyPayload {
    type V = ErrorReplyView;

    open spec fn view(&self) -> ErrorReplyView {
        ErrorReplyView {
            reason: self.reason@,
            supported_protocol_versions: self.supported_protocol_versions@,
        }
    }
}

impl ErrorReplyPayload {
    /// A refusal for that reason.
    pub fn new(reason: &str) -> (r: ErrorReplyPayload)
        ensures
            r@.reason == reason@,
            r@.supported_protocol_versions == Seq::<u64>::empty(),
    {
        ErrorReplyPayload { reason: reason.to_owned(), supported_protocol_versions: Vec::new() }
    }

    /// The same refusal, with the protocol versions that would be accepted.
    pub fn with_supported_protocol_versions(self, versions: Vec<u64>) -> (r: ErrorReplyPayload)
        ensures
            r.reason == self.reason,
            r.supported_protocol_versions == versions,
    {
        ErrorReplyPayload { reason: self.reason, supported_protocol_versions: versions }
    }
}

/// The numbers as JSON.
pub open spec fn encoded_numbers(numbers: Seq<u64>) -> JsonView {
    JsonView::Array(Seq::new(numbers.len(), |i: int| JsonView::U64(numbers[i])))
}

/// The versions are none where the refusal does not give them.
impl Wire for ErrorReplyPayload {
    open spec fn encoded(value: ErrorReplyView) -> JsonView {
        JsonView::Object(
            seq![
                ("reason"@, JsonView::Text(value.reason)),
                ("supported_protocol_versions"@, encoded_numbers(value.supported_protocol_versions)),
            ],
        )
    }

    open spec fn decoded(json: JsonView) -> Option<ErrorReplyView> {
        let given_one = json is Array && json->Array_0.len() == 1;
        let arity: nat = if given_one { 1 } else { 2 };
        let versions = match field(json, "supported_protocol_versions"@, 1, 2) {
            Some(JsonView::Array(items)) => as_u64s(items),
            Some(_) => None,
            None => Some(Seq::empty()),
        };
        match (as_text(field(json, "reason"@, 0, arity)), versions) {
            (Some(reason), Some(supported_protocol_versions)) => Some(
                ErrorReplyView { reason, supported_protocol_versions },
            ),
            _ => None,
        }
    }

    proof fn decodes_what_it_encodes(value: ErrorReplyView) {
        reveal_strlit("reason");
        reveal_strlit("supported_protocol_versions");
        assert("reason"@.len() != "supported_protocol_versions"@.len());
        let members = Self::encoded(value)->Object_0;
        reveal_with_fuel(member, 3);
        assert(members.drop_last().last() == members[0]);
        let items = encoded_numbers(value.supported_protocol_versions)->Array_0;
        assert(as_u64s(items)->Some_0 =~= value.supported_protocol_versions);
    }

    fn to_json(&self) -> Json {
        let versions = numbers_to_json(&self.supported_protocol_versions);
        let r = Json::Object(
            vec![
                ("reason".to_owned(), Json::text(self.reason.as_str())),
                ("supported_protocol_versions".to_owned(), versions),
            ],
        );
        assert(r@->Object_0 =~= Self::encoded(self@)->Object_0);
        r
    }

    fn from_json(json: &Json) -> Option<ErrorReplyPayload> {
        let arity: usize = match json {
            Json::Array(items) => if items.len() == 1 { 1 } else { 2 },
            _ => 2,
        };
        let versions = match json.field("supported_protocol_versions", 1, 2) {
            Some(versions) => versions.u64s(),
            None => Some(Vec::new()),
        };
        match (json.text_field("reason", 0, arity), versions) {
            (Some(reason), Some(supported_protocol_versions)) => Some(
                ErrorReplyPayload { reason, supported_protocol_versions },
            ),
            _ => None,
        }
    }
}

fn numbers_to_json(numbers: &Vec<u64>) -> (r: Json)
    ensures
        r@ == encoded_numbers(numbers@),
{
    let mut items: Vec<Json> = Vec::new();
    let mut i: usize = 0;
    while i < numbers.len()
        invariant
            i <= numbers@.len(),
            items@.len() == i,
            forall|k: int| 0 <= k < i ==> #[trigger] items@[k]@ == JsonView::U64(numbers@[k]),
        decreases numbers@.len() - i,
    {
        items.push(Json::number(numbers[i]));
        i = i + 1;
    }
    let ghost views = items@;
    let r = Json::Array(items);
    assert(forall|k: int| 0 <= k < views.len() ==> #[trigger] r@->Array_0[k] == views[k]@);
    assert(r@->Array_0 =~= encoded_numbers(numbers@)->Array_0);
    r
}

/// The body of a reply.
#[derive(Debug, Clone, PartialEq, Eq)]
pub struct ReplyBody<T> {
    pub status: String,
    pub response: T,
}

/// What the body of a reply holds.
pub struct ReplyBodyView<V> {
    pub status: Seq<char>,
    pub response: V,
}

impl<T: View> View for ReplyBody<T> {
    type V = ReplyBodyView<T::V>;

    open spec fn view(&self) -> ReplyBodyView<T::V> {
        ReplyBodyView { status: self.status@, response: self.response@ }
    }
}

impl<T> ReplyBody<T> {
    /// The reply to a request that was granted.
    pub fn ok(response: T) -> (r: ReplyBody<T>)
        ensures
            r.status@ == "ok"@,
            r.response == response,
    {
        ReplyBody { status: "ok".to_owned(), response }
    }

    /// The reply to a request that was refused.
    pub fn error(response: T) -> (r: ReplyBody<T>)
        ensures
            r.status@ == "error"@,
            r.response == response,
    {
        ReplyBody { status: "error".to_owned(), response }
    }
}

impl<T: Wire> Wire for ReplyBody<T> {
    open spec fn encoded(value: ReplyBodyView<T::V>) -> JsonView {
        JsonView::Object(
            seq![
                ("status"@, JsonView::Text(value.status)),
                ("response"@, T::encoded(value.response)),
            ],
        )
    }

    open spec fn decoded(json: JsonView) -> Option<ReplyBodyView<T::V>> {
        match (as_text(field(json, "status"@, 0, 2)), field(json, "response"@, 1, 2)) {
            (Some(status), Some(response)) => match T::decoded(response) {
                Some(response) => Some(ReplyBodyView { status, response }),
                None => None,
            },
            _ => None,
        }
    }

    proof fn decodes_what_it_encodes(value: ReplyBodyView<T::V>) {
        T::decodes_what_it_encodes(value.response);
        reveal_strlit("status");
        reveal_strlit("response");
        assert("status"@.len() != "response"@.len());
        let members = Self::encoded(value)->Object_0;
        reveal_with_fuel(member, 3);
        assert(members.drop_last().last() == members[0]);
    }

    fn to_json(&self) -> Json {
        let r = Json::Object(
            vec![
                ("status".to_owned(), Json::text(self.status.as_str())),
                ("response".to_owned(), self.response.to_json()),
            ],
        );
        assert(r@->Object_0 =~= Self::encoded(self@)->Object_0);
        r
    }

    fn from_json(json: &Json) -> Option<ReplyBody<T>> {
        match (json.text_field("status", 0, 2), json.field("response", 1, 2)) {
            (Some(status), Some(response)) => match T::from_json(response) {
                Some(response) => Some(ReplyBody { status, response }),
                None => None,
            },
            _ => None,
        }
    }
}

/// A message of the coordinator: the reference of the join, the reference of
/// the request, the topic, the event and the body.
#[derive(Debug, Clone, PartialEq, Eq)]
pub struct ServerFrame<T>(
    pub Option<String>,
    pub String,
    pub String,
    pub String,
    pub ReplyBody<T>,
);

/// What a message of the coordinator holds.
pub struct ServerFrameView<V> {
    pub join_ref: Option<Seq<char>>,
    pub msg_ref: Seq<char>,
    pub topic: Seq<char>,
    pub event: Seq<char>,
    pub body: ReplyBodyView<V>,
}

impl<T: View> View for ServerFrame<T> {
    type V = ServerFrameView<T::V>;

    open spec fn view(&self) -> ServerFrameView<T::V> {
        ServerFrameView {
            join_ref: text_view(self.0),
            msg_ref: self.1@,
            topic: self.2@,
            event: self.3@,
            body: self.4@,
        }
    }
}

/// The reply to the request of that reference.
pub open spec fn reply_frame<V>(reference: u64, body: ReplyBodyView<V>) -> ServerFrameView<V> {
    ServerFrameView {
        join_ref: None,
        msg_ref: decimal(reference as nat),
        topic: CRF_SEARCH_TOPIC@,
        event: "phx_reply"@,
        body,
    }
}

impl<T> ServerFrame<T> {
    /// The reply to the request of that reference.
    pub fn reply(reference: u64, body: ReplyBody<T>) -> (r: ServerFrame<T>)
        ensures
            r.0 is None,
            r.1@ == decimal(reference as nat),
            r.2@ == CRF_SEARCH_TOPIC@,
            r.3@ == "phx_reply"@,
            r.4 == body,
    {
        ServerFrame(
            None,
            decimal_of(reference),
            CRF_SEARCH_TOPIC.to_owned(),
            "phx_reply".to_owned(),
            body,
        )
    }
}

/// A text that may be missing, as JSON.
pub open spec fn encoded_option(text: Option<Seq<char>>) -> JsonView {
    match text {
        Some(t) => JsonView::Text(t),
        None => JsonView::Null,
    }
}

impl<T: Wire> Wire for ServerFrame<T> {
    open spec fn encoded(value: ServerFrameView<T::V>) -> JsonView {
        JsonView::Array(
            seq![
                encoded_option(value.join_ref),
                JsonView::Text(value.msg_ref),
                JsonView::Text(value.topic),
                JsonView::Text(value.event),
                ReplyBody::<T>::encoded(value.body),
            ],
        )
    }

    open spec fn decoded(json: JsonView) -> Option<ServerFrameView<T::V>> {
        if !(json is Array && json->Array_0.len() == 5) {
            None
        } else {
            let items = json->Array_0;
            match (items[0], items[1], items[2], items[3], ReplyBody::<T>::decoded(items[4])) {
                (
                    JsonView::Null,
                    JsonView::Text(msg_ref),
                    JsonView::Text(topic),
                    JsonView::Text(event),
                    Some(body),
                ) => Some(ServerFrameView { join_ref: None, msg_ref, topic, event, body }),
                (
                    JsonView::Text(join_ref),
                    JsonView::Text(msg_ref),
                    JsonView::Text(topic),
                    JsonView::Text(event),
                    Some(body),
                ) => Some(
                    ServerFrameView { join_ref: Some(join_ref), msg_ref, topic, event, body },
                ),
                _ => None,
            }
        }
    }

    proof fn decodes_what_it_encodes(value: ServerFrameView<T::V>) {
        ReplyBody::<T>::decodes_what_it_encodes(value.body);
    }

    fn to_json(&self) -> Json {
        let join_ref = match &self.0 {
            Some(join_ref) => Json::text(join_ref.as_str()),
            None => Json::Null,
        };
        let r = Json::Array(
            vec![
                join_ref,
                Json::text(self.1.as_str()),
                Json::text(self.2.as_str()),
                Json::text(self.3.as_str()),
                self.4.to_json(),
            ],
        );
        assert(join_ref@ == encoded_option(text_view(self.0)));
        assert(r@->Array_0 =~= Self::encoded(self@)->Array_0);
        r
    }

    fn from_json(json: &Json) -> Option<ServerFrame<T>> {
        match json {
            Json::Array(items) => if items.len() == 5 {
                let ghost views = json@->Array_0;
                assert(forall|i: int| 0 <= i < 5 ==> #[trigger] views[i] == items@[i]@);
                let join_ref = match &items[0] {
                    Json::Null => None,
                    Json::Text(join_ref) => Some(join_ref.clone()),
                    _ => {
                        return None;
                    },
                };
                match (&items[1], &items[2], &items[3], ReplyBody::<T>::from_json(&items[4])) {
                    (
                        Json::Text(msg_ref),
                        Json::Text(topic),
                        Json::Text(event),
                        Some(body),
                    ) => Some(
                        ServerFrame(join_ref, msg_ref.clone(), topic.clone(), event.clone(), body),
                    ),
                    _ => None,
                }
            } else {
                None
            },
            _ => None,
        }
    }
}

/// What a worker can do.
#[derive(Debug, Clone, PartialEq, Eq)]
pub struct Capabilities {
    pub crf_search: bool,
}

impl View for Capabilities {
    type V = bool;

    open spec fn view(&self) -> bool {
        self.crf_search
    }
}

impl Wire for Capabilities {
    open spec fn encoded(value: bool) -> JsonView {
        JsonView::Object(seq![("crf_search"@, JsonView::Bool(value))])
    }

    open spec fn decoded(json: JsonView) -> Option<bool> {
        as_bool(field(json, "crf_search"@, 0, 1))
    }

    proof fn decodes_what_it_encodes(value: bool) {
    }

    fn to_json(&self) -> Json {
        let r = Json::Object(vec![("crf_search".to_owned(), Json::truth(self.crf_search))]);
        assert(r@->Object_0 =~= Self::encoded(self@)->Object_0);
        r
    }

    fn from_json(json: &Json) -> Option<Capabilities> {
        match json.bool_field("crf_search", 0, 1) {
            Some(crf_search) => Some(Capabilities { crf_search }),
            None => None,
        }
    }
}

/// How a worker announces itself.
#[derive(Debug, Clone, PartialEq, Eq)]
pub struct AnnouncePayload {
    pub worker_id: String,
    pub protocol_version: u64,
    pub version: String,
    pub capabilities: Capabilities,
}

/// What an announcement holds.
pub struct AnnounceView {
    pub worker_id: Seq<char>,
    pub protocol_version: u64,
    pub version: Seq<char>,
    pub crf_search: bool,
}

impl View for AnnouncePayload {
    type V = AnnounceView;

    open spec fn view(&self) -> AnnounceView {
        AnnounceView {
            worker_id: self.worker_id@,
            protocol_version: self.protocol_version,
            version: self.version@,
            crf_search: self.capabilities@,
        }
    }
}

impl Wire for AnnouncePayload {
    open spec fn encoded(value: AnnounceView) -> JsonView {
        JsonView::Object(
            seq![
                ("worker_id"@, JsonView::Text(value.worker_id)),
                ("protocol_version"@, JsonView::U64(value.protocol_version)),
                ("version"@, JsonView::Text(value.version)),
                ("capabilities"@, Capabilities::encoded(value.crf_search)),
            ],
        )
    }

    open spec fn decoded(json: JsonView) -> Option<AnnounceView> {
        let crf_search = match field(json, "capabilities"@, 3, 4) {
            Some(capabilities) => Capabilities::decoded(capabilities),
            None => None,
        };
        match (
            as_text(field(json, "worker_id"@, 0, 4)),
            as_u64(field(json, "protocol_version"@, 1, 4)),
            as_text(field(json, "version"@, 2, 4)),
            crf_search,
        ) {
            (Some(worker_id), Some(protocol_version), Some(version), Some(crf_search)) => Some(
                AnnounceView { worker_id, protocol_version, version, crf_search },
            ),
            _ => None,
        }
    }

    proof fn decodes_what_it_encodes(value: AnnounceView) {
        Capabilities::decodes_what_it_encodes(value.crf_search);
        reveal_strlit("worker_id");
        reveal_strlit("protocol_version");
        reveal_strlit("version");
        reveal_strlit("capabilities");
        assert("worker_id"@.len() == 9);
        assert("protocol_version"@.len() == 16);
        assert("version"@.len() == 7);
        assert("capabilities"@.len() == 12);
        let members = Self::encoded(value)->Object_0;
        reveal_with_fuel(member, 5);
        assert(members.drop_last().last() == members[2]);
        assert(members.drop_last().drop_last().last() == members[1]);
        assert(members.drop_last().drop_last().drop_last().last() == members[0]);
    }

    fn to_json(&self) -> Json {
        let r = Json::Object(
            vec![
                ("worker_id".to_owned(), Json::text(self.worker_id.as_str())),
                ("protocol_version".to_owned(), Json::number(self.protocol_version)),
                ("version".to_owned(), Json::text(self.version.as_str())),
                ("capabilities".to_owned(), self.capabilities.to_json()),
            ],
        );
        assert(r@->Object_0 =~= Self::encoded(self@)->Object_0);
        r
    }

    fn from_json(json: &Json) -> Option<AnnouncePayload> {
        let capabilities = match json.field("capabilities", 3, 4) {
            Some(capabilities) => Capabilities::from_json(capabilities),
            None => None,
        };
        let worker_id = json.text_field("worker_id", 0, 4);
        let protocol_version = json.u64_field("protocol_version", 1, 4);
        let version = json.text_field("version", 2, 4);
        match (worker_id, protocol_version, version, capabilities) {
            (Some(worker_id), Some(protocol_version), Some(version), Some(capabilities)) => Some(
                AnnouncePayload { worker_id, protocol_version, version, capabilities },
            ),
            _ => None,
        }
    }
}

/// What a worker asks of its coordinator.
#[derive(Debug, Clone, PartialEq, Eq)]
pub enum ClientEvent {
    Join,
    Announce(AnnouncePayload),
    PullWork,
}

/// What a request holds.
pub enum ClientEventView {
    Join,
    Announce(AnnounceView),
    PullWork,
}

impl View for ClientEvent {
    type V = ClientEventView;

    open spec fn view(&self) -> ClientEventView {
        match self {
            ClientEvent::Join => ClientEventView::Join,
            ClientEvent::Announce(payload) => ClientEventView::Announce(payload@),
            ClientEvent::PullWork => ClientEventView::PullWork,
        }
    }
}

/// The name of a request in messages.
pub open spec fn event_name(event: ClientEventView) -> Seq<char> {
    match event {
        ClientEventView::Join => "phx_join"@,
        ClientEventView::Announce(_) => "announce"@,
        ClientEventView::PullWork => "pull_work"@,
    }
}

/// What a request carries: an announcement, or nothing.
pub open spec fn event_payload(event: ClientEventView) -> Option<AnnounceView> {
    match event {
        ClientEventView::Announce(payload) => Some(payload),
        _ => None,
    }
}

impl ClientEvent {
    /// The name of the request in messages, and what it carries.
    pub fn into_parts(self) -> (r: (&'static str, ClientPayload))
        ensures
            r.0@ == event_name(self@),
            r.1@ == event_payload(self@),
    {
        match self {
            ClientEvent::Join => ("phx_join", ClientPayload::Empty(EmptyPayload {  })),
            ClientEvent::Announce(payload) => ("announce", ClientPayload::Announce(payload)),
            ClientEvent::PullWork => ("pull_work", ClientPayload::Empty(EmptyPayload {  })),
        }
    }
}

/// What a request carries.
#[derive(Debug, Clone, PartialEq, Eq)]
pub enum ClientPayload {
    Empty(EmptyPayload),
    Announce(AnnouncePayload),
}

impl View for ClientPayload {
    type V = Option<AnnounceView>;

    open spec fn view(&self) -> Option<AnnounceView> {
        match self {
            ClientPayload::Empty(_) => None,
            ClientPayload::Announce(payload) => Some(payload@),
        }
    }
}

/// Nothing.
#[derive(Debug, Clone, PartialEq, Eq)]
pub struct EmptyPayload {}

/// What a request carries, as JSON.
pub open spec fn encoded_payload(payload: Option<AnnounceView>) -> JsonView {
    match payload {
        None => JsonView::Object(seq![]),
        Some(payload) => AnnouncePayload::encoded(payload),
    }
}

impl ClientPayload {
    /// Writes what the request carries.
    pub fn to_json(&self) -> (r: Json)
        ensures
            r@ == encoded_payload(self@),
    {
        match self {
            ClientPayload::Empty(_) => {
                let r = Json::Object(Vec::new());
                assert(r@->Object_0 =~= seq![]);
                r
            },
            ClientPayload::Announce(payload) => payload.to_json(),
        }
    }
}

/// A message of a worker: the reference of the join, the reference of the
/// request, the topic, the event and what it carries.
#[derive(Debug, Clone, PartialEq, Eq)]
pub struct ClientFrame(pub String, pub String, pub String, pub String, pub ClientPayload);

/// What a message of a worker holds.
pub struct ClientFrameView {
    pub join_ref: Seq<char>,
    pub msg_ref: Seq<char>,
    pub topic: Seq<char>,
    pub event: Seq<char>,
    pub payload: Option<AnnounceView>,
}

impl View for ClientFrame {
    type V = ClientFrameView;

    open spec fn view(&self) -> ClientFrameView {
        ClientFrameView {
            join_ref: self.0@,
            msg_ref: self.1@,
            topic: self.2@,
            event: self.3@,
            payload: self.4@,
        }
    }
}

/// The message that makes a request under a reference.
pub open spec fn request(reference: u64, event: ClientEventView) -> ClientFrameView {
    ClientFrameView {
        join_ref: "1"@,
        msg_ref: decimal(reference as nat),
        topic: CRF_SEARCH_TOPIC@,
        event: event_name(event),
        payload: event_payload(event),
    }
}

/// A message of a worker, as JSON.
pub open spec fn encoded_frame(frame: ClientFrameView) -> JsonView {
    JsonView::Array(
        seq![
            JsonView::Text(frame.join_ref),
            JsonView::Text(frame.msg_ref),
            JsonView::Text(frame.topic),
            JsonView::Text(frame.event),
            encoded_payload(frame.payload),
        ],
    )
}

impl ClientFrame {
    /// The message that makes a request under a reference.
    pub fn new(reference: u64, event: ClientEvent) -> (r: ClientFrame)
        ensures
            r@ == request(reference, event@),
    {
        let (event_name, payload) = event.into_parts();
        ClientFrame(
            "1".to_owned(),
            decimal_of(reference),
            CRF_SEARCH_TOPIC.to_owned(),
            event_name.to_owned(),
            payload,
        )
    }

    /// Writes the message.
    pub fn to_json(&self) -> (r: Json)
        ensures
            r@ == encoded_frame(self@),
    {
        let r = Json::Array(
            vec![
                Json::text(self.0.as_str()),
                Json::text(self.1.as_str()),
                Json::text(self.2.as_str()),
                Json::text(self.3.as_str()),
                self.4.to_json(),
            ],
        );
        assert(r@->Array_0 =~= encoded_frame(self@)->Array_0);
        r
    }
}

/// No two requests look alike: the reference and the request can be told from
/// the message.
pub proof fn requests_are_distinct(a: u64, x: ClientEventView, b: u64, y: ClientEventView)
    requires
        encoded_frame(request(a, x)) == encoded_frame(request(b, y)),
    ensures
        a == b,
        x == y,
{
    let xs = encoded_frame(request(a, x))->Array_0;
    let ys = encoded_frame(request(b, y))->Array_0;
    assert(xs[1] == ys[1]);
    assert(xs[3] == ys[3]);
    assert(xs[4] == ys[4]);
    decimal_is_injective(a as nat, b as nat);
    reveal_strlit("phx_join");
    reveal_strlit("announce");
    reveal_strlit("pull_work");
    assert("phx_join"@[0] != "announce"@[0]);
    assert("pull_work"@.len() == 9);
    if let (ClientEventView::Announce(p), ClientEventView::Announce(q)) = (x, y) {
        AnnouncePayload::decodes_what_it_encodes(p);
        AnnouncePayload::decodes_what_it_encodes(q);
    }
}

} // verus!
