//! What the worker does next: it is told what happened and says what to do.
use vstd::pervasive::unreached;
use vstd::prelude::*;

use crate::command::worker::{
    error_message, expect_reply, failure_reason, settled, websocket_connect_error, websocket_url,
    worker_websocket_url, AnnounceResponse, ConnectFailure, ErrorView, FailureView, Incoming,
    IncomingView, JoinResponse, PullWorkResponse, ReconnectBackoff, SessionView, WorkerConfig,
    WorkerError, WorkerRuntime, WorkerSession,
};
use crate::command::worker_protocol::{
    encoded_frame, request, AnnouncePayload, AnnounceView, Capabilities, ClientEvent,
    ClientEventView, ClientFrame, Wire,
};
use crate::delay::Delay;
use crate::json::{json_display, json_text, text_view, Json, JsonView};
use crate::text::{decimal, decimal_of};

verus! {

/// What the coordinator and the worker have agreed on.
#[derive(Debug, PartialEq, Eq)]
pub struct ConnectedWorker {
    /// The id that the coordinator gave the worker.
    pub assigned_worker_id: String,
    /// The version of the protocol that the coordinator settled on.
    pub negotiated_protocol_version: u64,
    /// The reference of the next request.
    pub next_ref: u64,
}

/// What that holds.
pub struct LinkView {
    pub assigned_worker_id: Seq<char>,
    pub negotiated_protocol_version: u64,
    pub next_ref: u64,
}

impl View for ConnectedWorker {
    type V = LinkView;

    open spec fn view(&self) -> LinkView {
        LinkView {
            assigned_worker_id: self.assigned_worker_id@,
            negotiated_protocol_version: self.negotiated_protocol_version,
            next_ref: self.next_ref,
        }
    }
}

/// What the worker waits for.
#[derive(Debug, PartialEq, Eq)]
pub enum Phase {
    /// To begin.
    Start,
    /// The websocket at that URL.
    Connecting { url: String },
    /// The join: to be sent, then to be answered.
    Joining { sent: bool },
    /// The announcement: to be sent, then to be answered.
    Announcing { assigned_worker_id: String, sent: bool },
    /// A request for work: to be sent, then to be answered.
    Pulling { link: ConnectedWorker, sent: bool },
    /// The time for the next request for work.
    Idle { link: ConnectedWorker },
    /// The time for the next attempt to connect.
    BackingOff,
    /// Nothing any more.
    Finished,
}

/// What a phase holds.
pub enum PhaseView {
    Start,
    Connecting { url: Seq<char> },
    Joining { sent: bool },
    Announcing { assigned_worker_id: Seq<char>, sent: bool },
    Pulling { link: LinkView, sent: bool },
    Idle { link: LinkView },
    BackingOff,
    Finished,
}

impl View for Phase {
    type V = PhaseView;

    open spec fn view(&self) -> PhaseView {
        match self {
            Phase::Start => PhaseView::Start,
            Phase::Connecting { url } => PhaseView::Connecting { url: url@ },
            Phase::Joining { sent } => PhaseView::Joining { sent: *sent },
            Phase::Announcing { assigned_worker_id, sent } => PhaseView::Announcing {
                assigned_worker_id: assigned_worker_id@,
                sent: *sent,
            },
            Phase::Pulling { link, sent } => PhaseView::Pulling { link: link@, sent: *sent },
            Phase::Idle { link } => PhaseView::Idle { link: link@ },
            Phase::BackingOff => PhaseView::BackingOff,
            Phase::Finished => PhaseView::Finished,
        }
    }
}

/// What happened.
#[derive(Debug, PartialEq, Eq)]
pub enum WorkerEvent {
    /// The time to wait is over; at first there is none.
    Proceed,
    /// The websocket is open.
    Connected,
    /// The websocket could not be opened.
    ConnectFailed(ConnectFailure),
    /// The message is sent.
    Sent,
    /// The message could not be sent.
    SendFailed,
    /// Something came out of the websocket.
    Received(Incoming),
}

/// What an event holds.
pub enum EventView {
    Proceed,
    Connected,
    ConnectFailed(FailureView),
    Sent,
    SendFailed,
    Received(IncomingView),
}

impl View for WorkerEvent {
    type V = EventView;

    open spec fn view(&self) -> EventView {
        match self {
            WorkerEvent::Proceed => EventView::Proceed,
            WorkerEvent::Connected => EventView::Connected,
            WorkerEvent::ConnectFailed(failure) => EventView::ConnectFailed(failure@),
            WorkerEvent::Sent => EventView::Sent,
            WorkerEvent::SendFailed => EventView::SendFailed,
            WorkerEvent::Received(incoming) => EventView::Received(incoming@),
        }
    }
}

/// What to do, and then to tell the outcome of.
#[derive(Debug, PartialEq, Eq)]
pub enum WorkerAction {
    /// Open the websocket at that URL.
    Connect(String),
    /// Send that text.
    Send(String),
    /// Wait for what comes out of the websocket.
    Receive,
    /// Wait that long. Before an attempt to connect, the websocket is dropped.
    Sleep(Delay),
    /// End, with what came of it.
    Finish(Result<Option<WorkerSession>, WorkerError>),
}

/// What an action holds.
pub enum ActionView {
    Connect(Seq<char>),
    Send(Seq<char>),
    Receive,
    Sleep(Delay),
    Finish(Result<Option<SessionView>, ErrorView>),
}

impl View for WorkerAction {
    type V = ActionView;

    open spec fn view(&self) -> ActionView {
        match self {
            WorkerAction::Connect(url) => ActionView::Connect(url@),
            WorkerAction::Send(text) => ActionView::Send(text@),
            WorkerAction::Receive => ActionView::Receive,
            WorkerAction::Sleep(delay) => ActionView::Sleep(*delay),
            WorkerAction::Finish(Ok(Some(session))) => ActionView::Finish(Ok(Some(session@))),
            WorkerAction::Finish(Ok(None)) => ActionView::Finish(Ok(None)),
            WorkerAction::Finish(Err(error)) => ActionView::Finish(Err(error@)),
        }
    }
}

/// What to say first, and what to do then.
#[derive(Debug, PartialEq, Eq)]
pub struct Step {
    /// A line on the standard output.
    pub out: Option<String>,
    /// A line on the standard error.
    pub err: Option<String>,
    pub action: WorkerAction,
}

/// What a step holds.
pub struct StepView {
    pub out: Option<Seq<char>>,
    pub err: Option<Seq<char>>,
    pub action: ActionView,
}

impl View for Step {
    type V = StepView;

    open spec fn view(&self) -> StepView {
        StepView {
            out: text_view(self.out),
            err: text_view(self.err),
            action: self.action@,
        }
    }
}

/// The worker.
#[derive(Debug)]
pub struct WorkerDriver {
    pub config: WorkerConfig,
    pub runtime: WorkerRuntime,
    pub phase: Phase,
    /// How many requests for work were answered.
    pub completed_pulls: usize,
    pub backoff: ReconnectBackoff,
}

/// What a configuration holds.
pub struct ConfigView {
    pub connect: Seq<char>,
    pub token: Seq<char>,
    pub worker_id: Seq<char>,
    pub version: Seq<char>,
    pub protocol_version: u64,
    pub once: bool,
}

impl View for WorkerConfig {
    type V = ConfigView;

    open spec fn view(&self) -> ConfigView {
        ConfigView {
            connect: self.connect@,
            token: self.token@,
            worker_id: self.worker_id@,
            version: self.version@,
            protocol_version: self.protocol_version,
            once: self.once,
        }
    }
}

/// What a worker holds.
pub struct DriverView {
    pub config: ConfigView,
    pub runtime: WorkerRuntime,
    pub phase: PhaseView,
    pub completed_pulls: usize,
    pub backoff: ReconnectBackoff,
}

impl View for WorkerDriver {
    type V = DriverView;

    open spec fn view(&self) -> DriverView {
        DriverView {
            config: self.config@,
            runtime: self.runtime,
            phase: self.phase@,
            completed_pulls: self.completed_pulls,
            backoff: self.backoff,
        }
    }
}

/// The text of the message that makes a request under a reference.
pub open spec fn request_text(reference: u64, event: ClientEventView) -> Seq<char> {
    json_display(encoded_frame(request(reference, event)))
}

/// How a worker of that configuration announces itself.
pub open spec fn announcement(config: ConfigView) -> AnnounceView {
    AnnounceView {
        worker_id: config.worker_id,
        protocol_version: config.protocol_version,
        version: config.version,
        crf_search: true,
    }
}

/// What the worker says of an answered request for work.
pub open spec fn report(link: LinkView, status: Seq<char>) -> Seq<char> {
    "connected worker "@ + link.assigned_worker_id + " via "@ + decimal(
        link.negotiated_protocol_version as nat,
    ) + " and received "@ + status
}

/// A step without a line to say.
pub open spec fn silent(action: ActionView) -> StepView {
    StepView { out: None, err: None, action }
}

impl PhaseView {
    /// There is a message to be sent.
    pub open spec fn sending(self) -> bool {
        match self {
            PhaseView::Joining { sent } => !sent,
            PhaseView::Announcing { sent, .. } => !sent,
            PhaseView::Pulling { sent, .. } => !sent,
            _ => false,
        }
    }

    /// There is a reply to come.
    pub open spec fn awaiting(self) -> bool {
        match self {
            PhaseView::Joining { sent } => sent,
            PhaseView::Announcing { sent, .. } => sent,
            PhaseView::Pulling { sent, .. } => sent,
            _ => false,
        }
    }

    /// The phase once the message is sent.
    pub open spec fn sent(self) -> PhaseView {
        match self {
            PhaseView::Joining { .. } => PhaseView::Joining { sent: true },
            PhaseView::Announcing { assigned_worker_id, .. } => PhaseView::Announcing {
                assigned_worker_id,
                sent: true,
            },
            PhaseView::Pulling { link, .. } => PhaseView::Pulling { link, sent: true },
            _ => self,
        }
    }

    /// The reference of the request that is to be answered.
    pub open spec fn reference(self) -> nat {
        match self {
            PhaseView::Joining { .. } => 1,
            PhaseView::Announcing { .. } => 2,
            PhaseView::Pulling { link, .. } => (link.next_ref - 1) as nat,
            _ => 0,
        }
    }

    /// The name of the request that is to be answered.
    pub open spec fn event(self) -> Seq<char> {
        match self {
            PhaseView::Joining { .. } => "phx_join"@,
            PhaseView::Announcing { .. } => "announce"@,
            _ => "pull_work"@,
        }
    }
}

impl DriverView {
    /// The worker as it begins.
    pub open spec fn initial(config: ConfigView, runtime: WorkerRuntime) -> DriverView {
        DriverView {
            config,
            runtime,
            phase: PhaseView::Start,
            completed_pulls: 0,
            backoff: ReconnectBackoff {
                current: runtime.reconnect_base_delay,
                base: runtime.reconnect_base_delay,
                max: runtime.reconnect_max_delay,
            },
        }
    }

    /// The references of requests for work come after those of the join and
    /// the announcement.
    pub open spec fn valid(self) -> bool {
        match self.phase {
            PhaseView::Pulling { link, .. } => link.next_ref > 3,
            PhaseView::Idle { link } => link.next_ref > 3,
            _ => true,
        }
    }

    /// The event can happen now.
    pub open spec fn accepts(self, event: EventView) -> bool {
        match event {
            EventView::Proceed => self.phase is Start || self.phase is BackingOff || self.phase is Idle,
            EventView::Connected => self.phase is Connecting,
            EventView::ConnectFailed(failure) => self.phase is Connecting && failure.valid(),
            EventView::Sent => self.phase.sending(),
            EventView::SendFailed => self.phase.sending(),
            EventView::Received(_) => self.phase.awaiting(),
        }
    }

    /// There is a number left for the next request and for its answer.
    pub open spec fn countable(self) -> bool {
        &&& self.completed_pulls < usize::MAX
        &&& self.phase matches PhaseView::Idle { link } ==> link.next_ref < u64::MAX
    }

    pub open spec fn at(self, phase: PhaseView) -> DriverView {
        DriverView { phase, ..self }
    }

    /// An error ends a worker that runs once; another one says so and waits to
    /// connect again.
    pub open spec fn failed(self, error: ErrorView) -> (DriverView, StepView) {
        if self.config.once {
            (self.at(PhaseView::Finished), silent(ActionView::Finish(Err(error))))
        } else {
            (
                DriverView {
                    phase: PhaseView::BackingOff,
                    backoff: self.backoff.advanced(),
                    ..self
                },
                StepView {
                    out: None,
                    err: Some("worker connection lost: "@ + error_message(error)),
                    action: ActionView::Sleep(self.backoff.current),
                },
            )
        }
    }

    /// The worker connects.
    pub open spec fn connecting(self) -> (DriverView, StepView) {
        match websocket_url(self.config.connect, self.config.token) {
            Ok(url) => (self.at(PhaseView::Connecting { url }), silent(ActionView::Connect(url))),
            Err(error) => self.failed(error),
        }
    }

    /// The worker asks for work.
    pub open spec fn pulling(self, link: LinkView) -> (DriverView, StepView) {
        (
            self.at(
                PhaseView::Pulling {
                    link: LinkView { next_ref: (link.next_ref + 1) as u64, ..link },
                    sent: false,
                },
            ),
            silent(ActionView::Send(request_text(link.next_ref, ClientEventView::PullWork))),
        )
    }

    /// The request for work is answered.
    pub open spec fn pulled(self, link: LinkView, status: Seq<char>) -> (DriverView, StepView) {
        let counted = DriverView { completed_pulls: (self.completed_pulls + 1) as usize, ..self };
        let reported = StepView {
            out: Some(report(link, status)),
            err: None,
            action: ActionView::Sleep(self.runtime.idle_delay),
        };
        if self.config.once {
            (
                counted.at(PhaseView::Finished),
                StepView {
                    action: ActionView::Finish(
                        Ok(
                            Some(
                                SessionView {
                                    assigned_worker_id: link.assigned_worker_id,
                                    negotiated_protocol_version: link.negotiated_protocol_version,
                                    work_status: status,
                                },
                            ),
                        ),
                    ),
                    ..reported
                },
            )
        } else if self.runtime.max_pulls == Some(counted.completed_pulls) {
            (
                DriverView {
                    phase: PhaseView::Finished,
                    backoff: ReconnectBackoff { current: self.backoff.base, ..self.backoff },
                    ..counted
                },
                StepView { action: ActionView::Finish(Ok(None)), ..reported },
            )
        } else {
            (counted.at(PhaseView::Idle { link }), reported)
        }
    }

    /// The request that is to be answered is granted.
    pub open spec fn granted(self, response: JsonView) -> (DriverView, StepView) {
        match self.phase {
            PhaseView::Joining { .. } => match JoinResponse::decoded(response) {
                Some(assigned_worker_id) => (
                    self.at(PhaseView::Announcing { assigned_worker_id, sent: false }),
                    silent(
                        ActionView::Send(
                            request_text(2, ClientEventView::Announce(announcement(self.config))),
                        ),
                    ),
                ),
                None => self.failed(ErrorView::DecodeOkReply),
            },
            PhaseView::Announcing { assigned_worker_id, .. } => match AnnounceResponse::decoded(
                response,
            ) {
                Some((true, negotiated_protocol_version)) => self.pulling(
                    LinkView { assigned_worker_id, negotiated_protocol_version, next_ref: 3 },
                ),
                Some((false, _)) => self.failed(ErrorView::NotAccepted),
                None => self.failed(ErrorView::DecodeOkReply),
            },
            PhaseView::Pulling { link, .. } => match PullWorkResponse::decoded(response) {
                Some(status) => self.pulled(link, status),
                None => self.failed(ErrorView::DecodeOkReply),
            },
            _ => (self, silent(ActionView::Receive)),
        }
    }

    /// The worker after an event, and what it does then.
    pub open spec fn step(self, event: EventView) -> (DriverView, StepView) {
        match event {
            EventView::Proceed => match self.phase {
                PhaseView::Idle { link } => self.pulling(link),
                _ => self.connecting(),
            },
            EventView::Connected => (
                self.at(PhaseView::Joining { sent: false }),
                silent(ActionView::Send(request_text(1, ClientEventView::Join))),
            ),
            EventView::ConnectFailed(failure) => self.failed(
                ErrorView::Connect { url: self.phase->url, reason: failure_reason(failure) },
            ),
            EventView::Sent => (self.at(self.phase.sent()), silent(ActionView::Receive)),
            EventView::SendFailed => self.failed(ErrorView::Send),
            EventView::Received(incoming) => match settled(
                incoming,
                decimal(self.phase.reference()),
                self.phase.event(),
            ) {
                None => (self, silent(ActionView::Receive)),
                Some(Ok(response)) => self.granted(response),
                Some(Err(error)) => self.failed(error),
            },
        }
    }
}

/// The text of the message that makes a request under a reference.
pub fn text_of_request(reference: u64, event: ClientEvent) -> (r: String)
    ensures
        r@ == request_text(reference, event@),
{
    json_text(&ClientFrame::new(reference, event).to_json())
}

impl ConnectedWorker {
    /// What the worker says of an answered request for work.
    pub fn report(&self, status: &str) -> (r: String)
        ensures
            r@ == report(self@, status@),
    {
        "connected worker ".to_owned().concat(self.assigned_worker_id.as_str()).concat(
            " via ",
        ).concat(decimal_of(self.negotiated_protocol_version).as_str()).concat(
            " and received ",
        ).concat(status)
    }
}

fn quiet(action: WorkerAction) -> (r: Step)
    ensures
        r@ == silent(action@),
{
    Step { out: None, err: None, action }
}

impl WorkerDriver {
    /// A worker that has not begun.
    pub fn new(config: WorkerConfig, runtime: WorkerRuntime) -> (r: WorkerDriver)
        ensures
            r@ == DriverView::initial(config@, runtime),
            r@.valid(),
    {
        WorkerDriver {
            config,
            runtime,
            phase: Phase::Start,
            completed_pulls: 0,
            backoff: ReconnectBackoff::new(
                runtime.reconnect_base_delay,
                runtime.reconnect_max_delay,
            ),
        }
    }

    fn at(self, phase: Phase) -> (r: WorkerDriver)
        ensures
            r@ == self@.at(phase@),
    {
        WorkerDriver {
            config: self.config,
            runtime: self.runtime,
            phase,
            completed_pulls: self.completed_pulls,
            backoff: self.backoff,
        }
    }

    /// An error ends a worker that runs once; another one says so and waits to
    /// connect again.
    fn fail(self, error: WorkerError) -> (r: (WorkerDriver, Step))
        ensures
            (r.0@, r.1@) == self@.failed(error@),
    {
        if self.config.once {
            (self.at(Phase::Finished), quiet(WorkerAction::Finish(Err(error))))
        } else {
            let mut backoff = self.backoff;
            let delay = backoff.next_delay();
            let line = "worker connection lost: ".to_owned().concat(error.message().as_str());
            (
                WorkerDriver {
                    config: self.config,
                    runtime: self.runtime,
                    phase: Phase::BackingOff,
                    completed_pulls: self.completed_pulls,
                    backoff,
                },
                Step { out: None, err: Some(line), action: WorkerAction::Sleep(delay) },
            )
        }
    }

    /// The worker connects.
    fn connect(self) -> (r: (WorkerDriver, Step))
        ensures
            (r.0@, r.1@) == self@.connecting(),
    {
        match worker_websocket_url(self.config.connect.as_str(), self.config.token.as_str()) {
            Ok(url) => {
                let phase = Phase::Connecting { url: url.clone() };
                (self.at(phase), quiet(WorkerAction::Connect(url)))
            },
            Err(error) => self.fail(error),
        }
    }

    /// The worker asks for work.
    fn request_work(self, link: ConnectedWorker) -> (r: (WorkerDriver, Step))
        requires
            link.next_ref < u64::MAX,
        ensures
            (r.0@, r.1@) == self@.pulling(link@),
    {
        let request_ref = link.next_ref;
        let link = ConnectedWorker {
            assigned_worker_id: link.assigned_worker_id,
            negotiated_protocol_version: link.negotiated_protocol_version,
            next_ref: request_ref + 1,
        };
        (
            self.at(Phase::Pulling { link, sent: false }),
            quiet(WorkerAction::Send(text_of_request(request_ref, ClientEvent::PullWork))),
        )
    }

    /// The request for work is answered.
    fn complete_pull(self, link: ConnectedWorker, status: String) -> (r: (WorkerDriver, Step))
        requires
            self.completed_pulls < usize::MAX,
        ensures
            (r.0@, r.1@) == self@.pulled(link@, status@),
    {
        let out = Some(link.report(status.as_str()));
        let completed_pulls: usize = self.completed_pulls + 1;
        let mut backoff = self.backoff;
        let (phase, action) = if self.config.once {
            let session = WorkerSession {
                assigned_worker_id: link.assigned_worker_id,
                negotiated_protocol_version: link.negotiated_protocol_version,
                work_status: status,
            };
            (Phase::Finished, WorkerAction::Finish(Ok(Some(session))))
        } else if self.runtime.max_pulls == Some(completed_pulls) {
            backoff.reset();
            (Phase::Finished, WorkerAction::Finish(Ok(None)))
        } else {
            (Phase::Idle { link }, WorkerAction::Sleep(self.runtime.idle_delay))
        };
        (
            WorkerDriver {
                config: self.config,
                runtime: self.runtime,
                phase,
                completed_pulls,
                backoff,
            },
            Step { out, err: None, action },
        )
    }

    /// The worker without its phase, and the phase.
    fn into_parts(self) -> (r: (WorkerDriver, Phase))
        ensures
            r.0@ == self@.at(PhaseView::Start),
            r.1 == self.phase,
    {
        let WorkerDriver { config, runtime, phase, completed_pulls, backoff } = self;
        (WorkerDriver { config, runtime, phase: Phase::Start, completed_pulls, backoff }, phase)
    }

    /// The request that is to be answered is granted.
    fn grant(self, response: &Json) -> (r: (WorkerDriver, Step))
        requires
            self@.phase.awaiting(),
            self@.completed_pulls < usize::MAX,
        ensures
            (r.0@, r.1@) == self@.granted(response@),
    {
        let (driver, phase) = self.into_parts();
        match phase {
            Phase::Announcing { assigned_worker_id, .. } => match AnnounceResponse::from_json(
                response,
            ) {
                Some(announce) => if announce.accepted {
                    driver.request_work(
                        ConnectedWorker {
                            assigned_worker_id,
                            negotiated_protocol_version: announce.protocol_version,
                            next_ref: 3,
                        },
                    )
                } else {
                    driver.fail(WorkerError::NotAccepted)
                },
                None => driver.fail(WorkerError::DecodeOkReply),
            },
            Phase::Pulling { link, .. } => match PullWorkResponse::from_json(response) {
                Some(pull) => driver.complete_pull(link, pull.status),
                None => driver.fail(WorkerError::DecodeOkReply),
            },
            _ => match JoinResponse::from_json(response) {
                Some(join) => {
                    let announcement = AnnouncePayload {
                        worker_id: driver.config.worker_id.clone(),
                        protocol_version: driver.config.protocol_version,
                        version: driver.config.version.clone(),
                        capabilities: Capabilities { crf_search: true },
                    };
                    (
                        driver.at(
                            Phase::Announcing { assigned_worker_id: join.worker_id, sent: false },
                        ),
                        quiet(
                            WorkerAction::Send(
                                text_of_request(2, ClientEvent::Announce(announcement)),
                            ),
                        ),
                    )
                },
                None => driver.fail(WorkerError::DecodeOkReply),
            },
        }
    }

    /// The reference of the request that is to be answered, and its name.
    fn outstanding(&self) -> (r: (String, &'static str))
        requires
            self@.valid(),
            self@.phase.awaiting(),
        ensures
            r.0@ == decimal(self@.phase.reference()),
            r.1@ == self@.phase.event(),
    {
        match &self.phase {
            Phase::Joining { .. } => (decimal_of(1), "phx_join"),
            Phase::Announcing { .. } => (decimal_of(2), "announce"),
            Phase::Pulling { link, .. } => (decimal_of(link.next_ref - 1), "pull_work"),
            _ => unreached(),
        }
    }

    /// Whether the event can happen now.
    pub fn can_accept(&self, event: &WorkerEvent) -> (r: bool)
        ensures
            r == (self@.accepts(event@) && self@.countable()),
    {
        let countable = self.completed_pulls < usize::MAX && match &self.phase {
            Phase::Idle { link } => link.next_ref < u64::MAX,
            _ => true,
        };
        let (sending, awaiting) = match &self.phase {
            Phase::Joining { sent } => (!*sent, *sent),
            Phase::Announcing { sent, .. } => (!*sent, *sent),
            Phase::Pulling { sent, .. } => (!*sent, *sent),
            _ => (false, false),
        };
        countable && match event {
            WorkerEvent::Proceed => match &self.phase {
                Phase::Start => true,
                Phase::BackingOff => true,
                Phase::Idle { .. } => true,
                _ => false,
            },
            WorkerEvent::Connected => match &self.phase {
                Phase::Connecting { .. } => true,
                _ => false,
            },
            WorkerEvent::ConnectFailed(failure) => match &self.phase {
                Phase::Connecting { .. } => match failure {
                    ConnectFailure::Http { status, .. } => 100 <= *status && *status < 1000,
                    ConnectFailure::Other(_) => true,
                },
                _ => false,
            },
            WorkerEvent::Sent => sending,
            WorkerEvent::SendFailed => sending,
            WorkerEvent::Received(_) => awaiting,
        }
    }

    /// The worker after an event, and what it does then.
    pub fn step(self, event: WorkerEvent) -> (r: (WorkerDriver, Step))
        requires
            self@.valid(),
            self@.accepts(event@),
            self@.countable(),
        ensures
            (r.0@, r.1@) == self@.step(event@),
            r.0@.valid(),
    {
        match event {
            WorkerEvent::Proceed => {
                let (driver, phase) = self.into_parts();
                match phase {
                    Phase::Idle { link } => driver.request_work(link),
                    _ => driver.connect(),
                }
            },
            WorkerEvent::Connected => (
                self.at(Phase::Joining { sent: false }),
                quiet(WorkerAction::Send(text_of_request(1, ClientEvent::Join))),
            ),
            WorkerEvent::ConnectFailed(failure) => {
                let error = match &self.phase {
                    Phase::Connecting { url } => websocket_connect_error(url.as_str(), &failure),
                    _ => unreached(),
                };
                self.fail(error)
            },
            WorkerEvent::Sent => {
                let (driver, phase) = self.into_parts();
                let phase = match phase {
                    Phase::Announcing { assigned_worker_id, .. } => Phase::Announcing {
                        assigned_worker_id,
                        sent: true,
                    },
                    Phase::Pulling { link, .. } => Phase::Pulling { link, sent: true },
                    _ => Phase::Joining { sent: true },
                };
                (driver.at(phase), quiet(WorkerAction::Receive))
            },
            WorkerEvent::SendFailed => self.fail(WorkerError::Send),
            WorkerEvent::Received(incoming) => {
                let (expected_ref, expected_event) = self.outstanding();
                match expect_reply(incoming, expected_ref.as_str(), expected_event) {
                    None => (self, quiet(WorkerAction::Receive)),
                    Some(Ok(response)) => self.grant(&response),
                    Some(Err(error)) => self.fail(error),
                }
            },
        }
    }
}

} // verus!
