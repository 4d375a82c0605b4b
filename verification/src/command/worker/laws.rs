//! What holds of the worker over many steps.
use vstd::arithmetic::power2::pow2;
use vstd::prelude::*;

use crate::command::worker::driver::{
    announcement, report, request_text, silent, ActionView, ConfigView, DriverView, EventView,
    LinkView, PhaseView, StepView,
};
use crate::command::worker::{
    error_message, settled, websocket_url, AnnounceResponse, EnvelopeView, ErrorView, IncomingView,
    JoinResponse, PullWorkResponse, ReconnectBackoff, SessionView, WorkerRuntime,
};
use crate::command::worker_protocol::{
    reply_frame, ClientEventView, ReplyBodyView, ServerFrameView, Wire, CRF_SEARCH_TOPIC,
};
use crate::delay::Delay;
use crate::json::{json_display, JsonView};
use crate::text::{decimal, decimal_is_injective};

verus! {

/// The delays after `n` of them.
pub open spec fn delays_after(backoff: ReconnectBackoff, n: nat) -> ReconnectBackoff
    decreases n,
{
    if n == 0 {
        backoff
    } else {
        delays_after(backoff, (n - 1) as nat).advanced()
    }
}

/// The delay after `n` others is the first one doubled `n` times, or the
/// greatest where that is less. The first one is not held to the greatest.
pub proof fn delays_double_up_to_the_greatest(base: Delay, max: Delay, n: nat)
    ensures
        delays_after(ReconnectBackoff { current: base, base, max }, 0).current == base,
        n > 0 ==> delays_after(ReconnectBackoff { current: base, base, max }, n).current.nanos == (
        if base.nanos * pow2(n) <= max.nanos {
            base.nanos * pow2(n)
        } else {
            max.nanos as int
        }),
        delays_after(ReconnectBackoff { current: base, base, max }, n).base == base,
        delays_after(ReconnectBackoff { current: base, base, max }, n).max == max,
    decreases n,
{
    if n > 0 {
        let before = (n - 1) as nat;
        delays_double_up_to_the_greatest(base, max, before);
        vstd::arithmetic::power2::lemma_pow2_unfold(n);
        vstd::arithmetic::power2::lemma2_to64();
        assert(base.nanos * pow2(n) == 2 * (base.nanos * pow2(before))) by (nonlinear_arith)
            requires
                pow2(n) == 2 * pow2(before),
        ;
        assert(base.nanos * pow2(0) == base.nanos) by (nonlinear_arith)
            requires
                pow2(0) == 1,
        ;
        if before > 0 && base.nanos * pow2(before) > max.nanos {
            assert(base.nanos * pow2(n) > max.nanos);
            assert(max.capped_double(max).nanos == max.nanos);
        }
    }
}

/// No delay is shorter than the one before it, once the greatest is not less
/// than the first.
pub proof fn delays_never_shrink(backoff: ReconnectBackoff)
    requires
        backoff.current.nanos <= backoff.max.nanos,
    ensures
        backoff.current.nanos <= backoff.advanced().current.nanos <= backoff.max.nanos,
{
}

impl DriverView {
    /// The worker after those events.
    pub open spec fn after(self, events: Seq<EventView>) -> DriverView
        decreases events.len(),
    {
        if events.len() == 0 {
            self
        } else {
            self.after(events.drop_last()).step(events.last()).0
        }
    }

    /// Each of those events can happen when its turn comes.
    pub open spec fn can_see(self, events: Seq<EventView>) -> bool
        decreases events.len(),
    {
        events.len() > 0 ==> {
            &&& self.can_see(events.drop_last())
            &&& self.after(events.drop_last()).accepts(events.last())
            &&& self.after(events.drop_last()).countable()
        }
    }

    /// How often those events make the worker wait to connect again.
    pub open spec fn losses(self, events: Seq<EventView>) -> nat
        decreases events.len(),
    {
        if events.len() == 0 {
            0
        } else {
            self.losses(events.drop_last()) + if self.after(events).phase is BackingOff {
                1nat
            } else {
                0
            }
        }
    }
}

impl DriverView {
    /// The event answers the request for work that is to be answered.
    pub open spec fn answered_by(self, event: EventView) -> bool {
        match (self.phase, event) {
            (PhaseView::Pulling { sent: true, .. }, EventView::Received(incoming)) => match settled(
                incoming,
                decimal(self.phase.reference()),
                self.phase.event(),
            ) {
                Some(Ok(response)) => PullWorkResponse::decoded(response) is Some,
                _ => false,
            },
            _ => false,
        }
    }

    /// How many of those events answer a request for work.
    pub open spec fn answers(self, events: Seq<EventView>) -> nat
        decreases events.len(),
    {
        if events.len() == 0 {
            0
        } else {
            self.answers(events.drop_last()) + if self.after(events.drop_last()).answered_by(
                events.last(),
            ) {
                1nat
            } else {
                0
            }
        }
    }

    /// How many requests for work those events make over the connection that
    /// there is after them.
    pub open spec fn requests(self, events: Seq<EventView>) -> nat
        decreases events.len(),
    {
        let now = self.after(events).phase;
        if events.len() == 0 || !(now is Pulling || now is Idle) {
            0
        } else {
            self.requests(events.drop_last()) + if now is Pulling && !(self.after(
                events.drop_last(),
            ).phase is Pulling) {
                1nat
            } else {
                0
            }
        }
    }
}

/// The coordinator grants the request of that reference.
pub open spec fn granting(reference: nat, response: JsonView) -> EventView {
    EventView::Received(
        IncomingView::Text(
            Some(
                EnvelopeView {
                    join_ref: None,
                    msg_ref: Some(decimal(reference)),
                    topic: CRF_SEARCH_TOPIC@,
                    event: "phx_reply"@,
                    body: ReplyBodyView { status: "ok"@, response },
                },
            ),
        ),
    )
}

/// What a worker reads of a message of the coordinator: the response is not
/// taken for anything yet.
pub open spec fn envelope_of<T: Wire>(frame: ServerFrameView<T::V>) -> EnvelopeView {
    EnvelopeView {
        join_ref: frame.join_ref,
        msg_ref: Some(frame.msg_ref),
        topic: frame.topic,
        event: frame.event,
        body: ReplyBodyView { status: frame.body.status, response: T::encoded(frame.body.response) },
    }
}

/// The reply of a coordinator that grants a request settles that request, and
/// the worker reads the response that the coordinator gave.
pub proof fn granted_response_arrives<T: Wire>(reference: u64, response: T::V, event: Seq<char>)
    ensures
        ({
            let frame = reply_frame(reference, ReplyBodyView { status: "ok"@, response });
            &&& settled(
                IncomingView::Text(Some(envelope_of::<T>(frame))),
                decimal(reference as nat),
                event,
            ) == Some(Ok::<JsonView, ErrorView>(T::encoded(response)))
            &&& T::decoded(T::encoded(response)) == Some(response)
        }),
{
    T::decodes_what_it_encodes(response);
}

/// The reply of a coordinator that refuses a request settles that request with
/// an error that names the request and tells the refusal.
pub proof fn refusal_is_told<T: Wire>(reference: u64, refusal: T::V, event: Seq<char>)
    ensures
        ({
            let frame = reply_frame(reference, ReplyBodyView { status: "error"@, response: refusal });
            let told = json_display(T::encoded(refusal));
            &&& settled(
                IncomingView::Text(Some(envelope_of::<T>(frame))),
                decimal(reference as nat),
                event,
            ) == Some(Err::<JsonView, ErrorView>(ErrorView::Refused { event, response: told }))
            &&& error_message(ErrorView::Refused { event, response: told }) == event + " failed: "@
                + told
        }),
{
    reveal_strlit("ok");
    reveal_strlit("error");
    assert("ok"@.len() != "error"@.len());
}

/// The state of a worker stays valid, whatever happens.
pub proof fn worker_stays_valid(driver: DriverView, event: EventView)
    requires
        driver.valid(),
        driver.accepts(event),
        driver.countable(),
    ensures
        driver.step(event).0.valid(),
{
}

/// A message that is no reply to the outstanding request, and a frame that is
/// no text, change nothing: the worker goes on waiting.
pub proof fn unrelated_messages_change_nothing(driver: DriverView, incoming: IncomingView)
    requires
        driver.phase.awaiting(),
        match incoming {
            IncomingView::Text(Some(envelope)) => !envelope.answers(
                decimal(driver.phase.reference()),
            ),
            IncomingView::Other => true,
            _ => false,
        },
    ensures
        driver.step(EventView::Received(incoming)) == (driver, silent(ActionView::Receive)),
{
}

/// A reply to one request is never taken for the reply to another.
pub proof fn reply_to_another_request_is_ignored(driver: DriverView, reference: nat, response: JsonView)
    requires
        driver.phase.awaiting(),
        reference != driver.phase.reference(),
    ensures
        driver.step(granting(reference, response)) == (driver, silent(ActionView::Receive)),
{
    if decimal(reference) == decimal(driver.phase.reference()) {
        decimal_is_injective(reference, driver.phase.reference());
    }
}

/// A worker that has connected joins, announces itself once the join is
/// granted, and asks for work once the announcement is accepted.
pub proof fn handshake(
    driver: DriverView,
    assigned_worker_id: Seq<char>,
    negotiated_protocol_version: u64,
)
    requires
        driver.phase is Connecting,
    ensures
        ({
            let (joining, join) = driver.step(EventView::Connected);
            let (joined, _) = joining.step(EventView::Sent);
            let (announcing, announce) = joined.step(
                granting(1, JoinResponse::encoded(assigned_worker_id)),
            );
            let (announced, _) = announcing.step(EventView::Sent);
            let (pulling, pull) = announced.step(
                granting(2, AnnounceResponse::encoded((true, negotiated_protocol_version))),
            );
            &&& join == silent(ActionView::Send(request_text(1, ClientEventView::Join)))
            &&& announce == silent(
                ActionView::Send(
                    request_text(2, ClientEventView::Announce(announcement(driver.config))),
                ),
            )
            &&& pull == silent(ActionView::Send(request_text(3, ClientEventView::PullWork)))
            &&& pulling == driver.at(
                PhaseView::Pulling {
                    link: LinkView { assigned_worker_id, negotiated_protocol_version, next_ref: 4 },
                    sent: false,
                },
            )
        }),
{
    JoinResponse::decodes_what_it_encodes(assigned_worker_id);
    AnnounceResponse::decodes_what_it_encodes((true, negotiated_protocol_version));
}

/// The event is the coordinator's acceptance of the announcement.
pub open spec fn accepts_announcement(driver: DriverView, event: EventView) -> bool {
    match event {
        EventView::Received(incoming) => match settled(incoming, decimal(2), "announce"@) {
            Some(Ok(response)) => driver.phase is Announcing && match AnnounceResponse::decoded(
                response,
            ) {
                Some((accepted, _)) => accepted,
                None => false,
            },
            _ => false,
        },
        _ => false,
    }
}

/// Work is asked for only of a coordinator that has accepted the announcement,
/// or that was asked before over the same connection.
pub proof fn work_is_asked_for_after_acceptance(driver: DriverView, event: EventView)
    requires
        driver.accepts(event),
        driver.step(event).0.phase is Pulling,
        !(driver.phase is Pulling),
    ensures
        driver.phase is Idle || accepts_announcement(driver, event),
{
}

/// The requests for work over one connection bear the references 3, 4, 5 and
/// so on, whatever happens: the request of number `k` bears the reference
/// `k + 2`, and it is sent under that reference.
pub proof fn references_count_up(config: ConfigView, runtime: WorkerRuntime, events: Seq<EventView>)
    requires
        DriverView::initial(config, runtime).can_see(events),
    ensures
        ({
            let begun = DriverView::initial(config, runtime);
            let now = begun.after(events);
            let k = begun.requests(events);
            &&& now.phase is Pulling ==> k > 0 && now.phase.reference() == k + 2
            &&& now.phase matches PhaseView::Idle { link } ==> k > 0 && link.next_ref == k + 3
            &&& now.phase is Pulling && !(begun.after(events.drop_last()).phase is Pulling)
                ==> begun.after(events.drop_last()).step(events.last()).1 == silent(
                ActionView::Send(request_text((k + 2) as u64, ClientEventView::PullWork)),
            )
            &&& now.valid()
        }),
    decreases events.len(),
{
    if events.len() > 0 {
        let begun = DriverView::initial(config, runtime);
        let before = events.drop_last();
        references_count_up(config, runtime, before);
        let then = begun.after(before);
        if !(then.phase is Pulling || then.phase is Idle) {
            assert(begun.requests(before) == 0);
        }
    }
}

/// A worker that runs once and is granted everything ends with the session
/// that the coordinator gave it, and says so.
pub proof fn session_is_what_the_coordinator_gave(driver: DriverView, link: LinkView, status: Seq<char>)
    requires
        driver.config.once,
        driver.phase == (PhaseView::Pulling { link, sent: true }),
    ensures
        driver.step(
            granting(driver.phase.reference(), PullWorkResponse::encoded(status)),
        ).1 == (StepView {
            out: Some(report(link, status)),
            err: None,
            action: ActionView::Finish(
                Ok(
                    Some(
                        SessionView {
                            assigned_worker_id: link.assigned_worker_id,
                            negotiated_protocol_version: link.negotiated_protocol_version,
                            work_status: status,
                        },
                    ),
                ),
            ),
        }),
{
    PullWorkResponse::decodes_what_it_encodes(status);
}

/// A worker that runs on stays connected after an answer: it waits, and asks
/// again over the same connection under the next reference.
pub proof fn worker_stays_connected(driver: DriverView, link: LinkView, status: Seq<char>)
    requires
        !driver.config.once,
        driver.phase == (PhaseView::Pulling { link, sent: true }),
        driver.valid(),
        driver.countable(),
        driver.runtime.max_pulls != Some((driver.completed_pulls + 1) as usize),
    ensures
        ({
            let (idle, waiting) = driver.step(
                granting(driver.phase.reference(), PullWorkResponse::encoded(status)),
            );
            let (pulling, pull) = idle.step(EventView::Proceed);
            &&& waiting == (StepView {
                out: Some(report(link, status)),
                err: None,
                action: ActionView::Sleep(driver.runtime.idle_delay),
            })
            &&& idle.completed_pulls == driver.completed_pulls + 1
            &&& pull == silent(
                ActionView::Send(request_text(link.next_ref, ClientEventView::PullWork)),
            )
            &&& pulling.phase == (PhaseView::Pulling {
                link: LinkView { next_ref: (link.next_ref + 1) as u64, ..link },
                sent: false,
            })
        }),
{
    PullWorkResponse::decodes_what_it_encodes(status);
}

/// A worker that runs on and loses its coordinator says so, waits, and
/// connects again; it forgets none of the answers that it had.
pub proof fn worker_reconnects(driver: DriverView, error: ErrorView)
    requires
        !driver.config.once,
    ensures
        ({
            let (lost, waiting) = driver.failed(error);
            &&& waiting == (StepView {
                out: None,
                err: Some("worker connection lost: "@ + error_message(error)),
                action: ActionView::Sleep(driver.backoff.current),
            })
            &&& lost.accepts(EventView::Proceed)
            &&& lost.completed_pulls == driver.completed_pulls
            &&& websocket_url(driver.config.connect, driver.config.token) matches Ok(url) ==> {
                lost.step(EventView::Proceed).1 == silent(ActionView::Connect(url))
            }
        }),
{
}

/// The worker counts the answers to its requests for work, over all of its
/// connections.
pub proof fn pulls_are_the_answers(config: ConfigView, runtime: WorkerRuntime, events: Seq<EventView>)
    requires
        DriverView::initial(config, runtime).can_see(events),
    ensures
        DriverView::initial(config, runtime).after(events).completed_pulls
            == DriverView::initial(config, runtime).answers(events),
        DriverView::initial(config, runtime).after(events).config == config,
        DriverView::initial(config, runtime).after(events).runtime == runtime,
    decreases events.len(),
{
    if events.len() > 0 {
        pulls_are_the_answers(config, runtime, events.drop_last());
    }
}

/// A worker that runs on ends only when it has had as many answers as it was
/// to have, and then without an error. It ends with the first such answer.
pub proof fn worker_ends_after_its_pulls(config: ConfigView, runtime: WorkerRuntime, events: Seq<EventView>)
    requires
        !config.once,
        DriverView::initial(config, runtime).can_see(events),
        events.len() > 0,
    ensures
        ({
            let begun = DriverView::initial(config, runtime);
            let before = begun.after(events.drop_last());
            let (now, step) = before.step(events.last());
            &&& now.phase is Finished <==> step.action is Finish
            &&& now.phase is Finished <==> before.answered_by(events.last()) && runtime.max_pulls
                == Some(begun.answers(events) as usize)
            &&& step.action matches ActionView::Finish(result) ==> result == Ok::<
                Option<SessionView>,
                ErrorView,
            >(None)
        }),
{
    pulls_are_the_answers(config, runtime, events);
    pulls_are_the_answers(config, runtime, events.drop_last());
}

/// A worker that runs once ends with the first error.
pub proof fn single_session_ends_with_its_error(driver: DriverView, error: ErrorView)
    requires
        driver.config.once,
    ensures
        driver.failed(error).0.phase is Finished,
        driver.failed(error).1 == silent(ActionView::Finish(Err(error))),
{
}

/// While a worker runs on, its next delay depends only on how often it has
/// lost its coordinator.
pub proof fn delay_depends_on_losses(config: ConfigView, runtime: WorkerRuntime, events: Seq<EventView>)
    requires
        !config.once,
        DriverView::initial(config, runtime).can_see(events),
    ensures
        ({
            let begun = DriverView::initial(config, runtime);
            let now = begun.after(events);
            &&& now.config == config
            &&& now.runtime == runtime
            &&& !(now.phase is Finished) ==> now.backoff == delays_after(
                begun.backoff,
                begun.losses(events),
            )
        }),
    decreases events.len(),
{
    if events.len() > 0 {
        delay_depends_on_losses(config, runtime, events.drop_last());
    }
}

/// A worker that runs on without a limit never ends.
pub proof fn unlimited_worker_never_ends(config: ConfigView, runtime: WorkerRuntime, events: Seq<EventView>)
    requires
        !config.once,
        runtime.max_pulls is None,
        DriverView::initial(config, runtime).can_see(events),
    ensures
        !(DriverView::initial(config, runtime).after(events).phase is Finished),
    decreases events.len(),
{
    if events.len() > 0 {
        unlimited_worker_never_ends(config, runtime, events.drop_last());
        delay_depends_on_losses(config, runtime, events.drop_last());
    }
}

} // verus!
