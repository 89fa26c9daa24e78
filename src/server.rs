use crate::backoff::{advanced, Backoff};
use crate::config::QUEUE_TIMEOUT_SECS;
use crate::err::{scope_of, AppliesTo, ErrorKind, IoErrorExt};
use vstd::prelude::*;

verus! {

/// What the accept loop does after a failed accept.
#[derive(Clone, Copy, PartialEq, Eq, Structural, Debug)]
pub enum AcceptAction {
    /// Accept again at once: another connection may be waiting.
    Retry,
    /// Sleep this many seconds, then accept again.
    Sleep(u8),
}

/// Decides how the accept loop goes on after a failed accept. A failure of one
/// connection is retried at once; a failure of the listener backs off.
pub fn accept_failed(backoff: &mut Backoff, kind: ErrorKind) -> (r: AcceptAction)
    requires
        old(backoff).wf(),
    ensures
        final(backoff).wf(),
        scope_of(kind) == AppliesTo::Connection ==> r == AcceptAction::Retry && final(backoff)@
            == old(backoff)@,
        scope_of(kind) == AppliesTo::Listener ==> r == AcceptAction::Sleep(
            old(backoff)@.value as u8,
        ) && final(backoff)@ == advanced(old(backoff)@),
{
    match kind.applies_to() {
        AppliesTo::Connection => AcceptAction::Retry,
        AppliesTo::Listener => AcceptAction::Sleep(backoff.next()),
    }
}

/// The outcome of one quick accept while the queue of public connections is drained.
#[derive(Clone, Copy, PartialEq, Eq, Structural, Debug)]
pub enum DrainOutcome {
    /// A queued connection was taken, and dropped.
    Accepted,
    /// The accept failed.
    Failed(ErrorKind),
    /// Nothing was waiting.
    TimedOut,
}

/// Whether draining goes on after `outcome`: it stops once nothing waits or
/// the listener itself fails.
pub fn drain_continues(outcome: DrainOutcome) -> (r: bool)
    ensures
        r == match outcome {
            DrainOutcome::Accepted => true,
            DrainOutcome::Failed(kind) => scope_of(kind) == AppliesTo::Connection,
            DrainOutcome::TimedOut => false,
        },
{
    match outcome {
        DrainOutcome::Accepted => true,
        DrainOutcome::Failed(kind) => match kind.applies_to() {
            AppliesTo::Connection => true,
            AppliesTo::Listener => false,
        },
        DrainOutcome::TimedOut => false,
    }
}

/// Where the gateway pipeline stands with the connection it holds.
#[derive(Clone, Copy, PartialEq, Eq, Structural, Debug)]
pub enum GatewayStage {
    /// No gateway connection is held.
    Accept,
    /// The early handshake of the connection held is being read.
    EarlyHandshake,
    /// The first heartbeat is being written to the connection held.
    FirstHeartbeat,
    /// Heartbeats are written to the connection held until a request comes.
    Heartbeat,
}

/// What happened to the gateway pipeline since its last step.
#[derive(Clone, Copy, PartialEq, Eq, Structural, Debug)]
pub enum GatewayEvent {
    /// A gateway connection was accepted.
    Accepted,
    /// The early handshake checked out.
    EarlyHandshakeOk,
    /// The early handshake failed or timed out.
    EarlyHandshakeFailed,
    /// The first heartbeat was written.
    HeartbeatWritten,
    /// The consumer requested a gateway while heartbeats were being written.
    Requested,
    /// A heartbeat write failed.
    HeartbeatFailed,
    /// The consumer went away.
    RequestsClosed,
}

/// What the gateway pipeline does next.
#[derive(Clone, Copy, PartialEq, Eq, Structural, Debug)]
pub enum GatewayAction {
    /// Close the connection held, if any, and accept the next one.
    Accept,
    /// Read the early handshake.
    ReadEarlyHandshake,
    /// Write one heartbeat.
    WriteHeartbeat,
    /// Write heartbeats until a request comes or a write fails.
    HeartbeatUntilRequested,
    /// Hand the connection held to the consumer with its request, then accept the next one.
    Emit,
    /// End the pipeline.
    Stop,
}

/// The events that can happen at each stage of the gateway pipeline.
pub open spec fn gateway_fits(stage: GatewayStage, event: GatewayEvent) -> bool {
    match stage {
        GatewayStage::Accept => event == GatewayEvent::Accepted,
        GatewayStage::EarlyHandshake => event == GatewayEvent::EarlyHandshakeOk || event
            == GatewayEvent::EarlyHandshakeFailed,
        GatewayStage::FirstHeartbeat => event == GatewayEvent::HeartbeatWritten || event
            == GatewayEvent::HeartbeatFailed,
        GatewayStage::Heartbeat => event == GatewayEvent::Requested || event
            == GatewayEvent::HeartbeatFailed || event == GatewayEvent::RequestsClosed,
    }
}

/// One step of the gateway pipeline: the next stage and the action to take.
pub open spec fn gateway_step(event: GatewayEvent) -> (GatewayStage, GatewayAction) {
    match event {
        GatewayEvent::Accepted => (GatewayStage::EarlyHandshake, GatewayAction::ReadEarlyHandshake),
        GatewayEvent::EarlyHandshakeOk => (GatewayStage::FirstHeartbeat, GatewayAction::WriteHeartbeat),
        GatewayEvent::HeartbeatWritten => (
            GatewayStage::Heartbeat,
            GatewayAction::HeartbeatUntilRequested,
        ),
        GatewayEvent::EarlyHandshakeFailed => (GatewayStage::Accept, GatewayAction::Accept),
        GatewayEvent::Requested => (GatewayStage::Accept, GatewayAction::Emit),
        GatewayEvent::HeartbeatFailed => (GatewayStage::Accept, GatewayAction::Accept),
        GatewayEvent::RequestsClosed => (GatewayStage::Accept, GatewayAction::Stop),
    }
}

/// The state of the server's gateway pipeline: early handshake, then
/// heartbeats until the consumer asks for the connection.
pub struct GatewayPipeline {
    pub stage: GatewayStage,
}

impl GatewayPipeline {
    /// Starts by accepting a gateway connection.
    pub fn new() -> (r: Self)
        ensures
            r.stage == GatewayStage::Accept,
    {
        GatewayPipeline { stage: GatewayStage::Accept }
    }

    /// Takes one event and says what to do next.
    pub fn step(&mut self, event: GatewayEvent) -> (r: GatewayAction)
        requires
            gateway_fits(old(self).stage, event),
        ensures
            (final(self).stage, r) == gateway_step(event),
    {
        match event {
            GatewayEvent::Accepted => {
                self.stage = GatewayStage::EarlyHandshake;
                GatewayAction::ReadEarlyHandshake
            },
            GatewayEvent::EarlyHandshakeOk => {
                self.stage = GatewayStage::FirstHeartbeat;
                GatewayAction::WriteHeartbeat
            },
            GatewayEvent::HeartbeatWritten => {
                self.stage = GatewayStage::Heartbeat;
                GatewayAction::HeartbeatUntilRequested
            },
            GatewayEvent::EarlyHandshakeFailed => {
                self.stage = GatewayStage::Accept;
                GatewayAction::Accept
            },
            GatewayEvent::Requested => {
                self.stage = GatewayStage::Accept;
                GatewayAction::Emit
            },
            GatewayEvent::HeartbeatFailed => {
                self.stage = GatewayStage::Accept;
                GatewayAction::Accept
            },
            GatewayEvent::RequestsClosed => {
                self.stage = GatewayStage::Accept;
                GatewayAction::Stop
            },
        }
    }
}

/// A gateway connection is handed to the consumer only from the heartbeat
/// stage, which a connection enters only once a first heartbeat was written to
/// it, which is written only after its early handshake checked out.
pub proof fn lemma_emit_follows_heartbeat(stage: GatewayStage, event: GatewayEvent)
    requires
        gateway_fits(stage, event),
    ensures
        gateway_step(event).1 == GatewayAction::Emit ==> stage == GatewayStage::Heartbeat,
        gateway_step(event).0 == GatewayStage::Heartbeat ==> stage == GatewayStage::FirstHeartbeat
            && event == GatewayEvent::HeartbeatWritten,
        gateway_step(event).0 == GatewayStage::FirstHeartbeat ==> stage
            == GatewayStage::EarlyHandshake && event == GatewayEvent::EarlyHandshakeOk,
{
}

/// Where the pairing of one public connection with one gateway stands.
#[derive(Clone, Copy, PartialEq, Eq, Structural, Debug)]
pub enum PairStage {
    /// No public connection is held.
    AwaitPublic,
    /// A public connection waits for a gateway that finished its early handshake.
    AwaitGateway,
    /// A gateway was taken; the exit tag is being written to it.
    FinishHeartbeat,
    /// The exit tag went out; the late handshake is being read.
    LateHandshake,
}

/// What happened since the last step. Instants are milliseconds on a monotonic clock.
#[derive(Clone, Copy, PartialEq, Eq, Structural, Debug)]
pub enum PairEvent {
    /// A public connection was accepted at this instant.
    PublicAccepted(u64),
    /// A gateway was taken from the gateway pipeline at this instant.
    GatewayReady(u64),
    /// The wait for a gateway ended at this instant without one.
    QueueTimer(u64),
    /// The exit tag was written to the gateway.
    ExitWritten,
    /// The gateway's late handshake checked out at this instant.
    LateHandshakeOk(u64),
    /// Writing the exit tag, or reading the late handshake, failed.
    GatewayFailed,
}

/// What the orchestrator does next.
#[derive(Clone, Copy, PartialEq, Eq, Structural, Debug)]
pub enum PairAction {
    /// Take the next ready gateway, waiting until this instant at the latest.
    AwaitGateway(u64),
    /// Write the exit tag to the gateway held.
    WriteExit,
    /// Read the late handshake from the gateway held.
    ReadLateHandshake,
    /// Splice the public connection with the gateway, then accept the next public connection.
    Splice,
    /// Close the public connection, drain the public queue, then accept the next public connection.
    Expire,
    /// Close the public connection and the gateway, then accept the next public connection.
    DropPair,
}

/// The instant by which a public connection admitted at `now` must be paired.
pub open spec fn queue_deadline(now: u64) -> u64 {
    if now + QUEUE_TIMEOUT_SECS * 1000 <= u64::MAX {
        (now + QUEUE_TIMEOUT_SECS * 1000) as u64
    } else {
        u64::MAX
    }
}

/// The events that can happen at each stage.
pub open spec fn fits(stage: PairStage, event: PairEvent) -> bool {
    match stage {
        PairStage::AwaitPublic => event is PublicAccepted,
        PairStage::AwaitGateway => event is GatewayReady || event is QueueTimer,
        PairStage::FinishHeartbeat => event is ExitWritten || event is GatewayFailed,
        PairStage::LateHandshake => event is LateHandshakeOk || event is GatewayFailed,
    }
}

/// One step of the pairing: the next stage, the deadline of the public
/// connection held, and the action to take.
pub open spec fn pair_step(deadline: u64, event: PairEvent) -> (PairStage, u64, PairAction) {
    match event {
        PairEvent::PublicAccepted(now) => (
            PairStage::AwaitGateway,
            queue_deadline(now),
            PairAction::AwaitGateway(queue_deadline(now)),
        ),
        PairEvent::GatewayReady(now) => if now < deadline {
            (PairStage::FinishHeartbeat, deadline, PairAction::WriteExit)
        } else {
            (PairStage::AwaitPublic, deadline, PairAction::DropPair)
        },
        PairEvent::QueueTimer(now) => if now < deadline {
            (PairStage::AwaitGateway, deadline, PairAction::AwaitGateway(deadline))
        } else {
            (PairStage::AwaitPublic, deadline, PairAction::Expire)
        },
        PairEvent::ExitWritten => (PairStage::LateHandshake, deadline, PairAction::ReadLateHandshake),
        PairEvent::LateHandshakeOk(now) => if now < deadline {
            (PairStage::AwaitPublic, deadline, PairAction::Splice)
        } else {
            (PairStage::AwaitPublic, deadline, PairAction::DropPair)
        },
        PairEvent::GatewayFailed => (
            PairStage::AwaitGateway,
            deadline,
            PairAction::AwaitGateway(deadline),
        ),
    }
}

/// The pairing state of the server's top-level loop.
pub struct Pairing {
    pub stage: PairStage,
    /// Deadline of the public connection held, if one is.
    pub deadline: u64,
}

impl Pairing {
    /// Starts with no public connection held: the loop accepts one first.
    pub fn new() -> (r: Self)
        ensures
            r.stage == PairStage::AwaitPublic,
    {
        Pairing { stage: PairStage::AwaitPublic, deadline: 0 }
    }

    /// Takes one event and says what to do next.
    pub fn step(&mut self, event: PairEvent) -> (r: PairAction)
        requires
            fits(old(self).stage, event),
        ensures
            (final(self).stage, final(self).deadline, r) == pair_step(old(self).deadline, event),
    {
        match event {
            PairEvent::PublicAccepted(now) => {
                let d: u64 = if now <= u64::MAX - QUEUE_TIMEOUT_SECS * 1000 {
                    now + QUEUE_TIMEOUT_SECS * 1000
                } else {
                    u64::MAX
                };
                self.stage = PairStage::AwaitGateway;
                self.deadline = d;
                PairAction::AwaitGateway(d)
            },
            PairEvent::GatewayReady(now) => if now < self.deadline {
                self.stage = PairStage::FinishHeartbeat;
                PairAction::WriteExit
            } else {
                self.stage = PairStage::AwaitPublic;
                PairAction::DropPair
            },
            PairEvent::QueueTimer(now) => if now < self.deadline {
                PairAction::AwaitGateway(self.deadline)
            } else {
                self.stage = PairStage::AwaitPublic;
                PairAction::Expire
            },
            PairEvent::ExitWritten => {
                self.stage = PairStage::LateHandshake;
                PairAction::ReadLateHandshake
            },
            PairEvent::LateHandshakeOk(now) => {
                self.stage = PairStage::AwaitPublic;
                if now < self.deadline {
                    PairAction::Splice
                } else {
                    PairAction::DropPair
                }
            },
            PairEvent::GatewayFailed => {
                self.stage = PairStage::AwaitGateway;
                PairAction::AwaitGateway(self.deadline)
            },
        }
    }
}

/// A gateway is spliced only after its late handshake checked out before the
/// public connection's deadline; that handshake is read only after the exit tag
/// ending its heartbeat was written, which is written only to a gateway taken
/// before the deadline. The deadline stays fixed while the public connection waits.
pub proof fn lemma_splice_follows_heartbeat(stage: PairStage, deadline: u64, event: PairEvent)
    requires
        fits(stage, event),
    ensures
        pair_step(deadline, event).2 == PairAction::Splice ==> stage == PairStage::LateHandshake
            && event is LateHandshakeOk && event->LateHandshakeOk_0 < deadline,
        pair_step(deadline, event).0 == PairStage::LateHandshake ==> stage
            == PairStage::FinishHeartbeat && event == PairEvent::ExitWritten,
        pair_step(deadline, event).0 == PairStage::FinishHeartbeat ==> stage
            == PairStage::AwaitGateway && event is GatewayReady && event->GatewayReady_0
            < deadline,
        stage != PairStage::AwaitPublic ==> pair_step(deadline, event).1 == deadline,
{
}

/// A public connection is closed once its deadline has passed, and not before:
/// a wait that ends early goes on until the deadline, without taking a gateway.
/// A gateway that comes, or finishes its late handshake, after the deadline is
/// never spliced with it.
pub proof fn lemma_expired_public_closed(stage: PairStage, deadline: u64, event: PairEvent)
    requires
        stage == PairStage::AwaitGateway || stage == PairStage::LateHandshake,
        fits(stage, event),
    ensures
        event is QueueTimer && event->QueueTimer_0 >= deadline ==> pair_step(deadline, event) == (
            PairStage::AwaitPublic,
            deadline,
            PairAction::Expire,
        ),
        event is QueueTimer && event->QueueTimer_0 < deadline ==> pair_step(deadline, event) == (
            PairStage::AwaitGateway,
            deadline,
            PairAction::AwaitGateway(deadline),
        ),
        event is GatewayReady && event->GatewayReady_0 >= deadline ==> pair_step(deadline, event)
            == (PairStage::AwaitPublic, deadline, PairAction::DropPair),
        event is LateHandshakeOk && event->LateHandshakeOk_0 >= deadline ==> pair_step(
            deadline,
            event,
        ) == (PairStage::AwaitPublic, deadline, PairAction::DropPair),
        stage == PairStage::AwaitGateway ==> pair_step(deadline, event).2 != PairAction::Splice,
{
}

/// The deadline of an admitted public connection is the admission instant
/// plus the queue timeout.
pub proof fn lemma_queue_deadline(now: u64)
    requires
        now + QUEUE_TIMEOUT_SECS * 1000 <= u64::MAX,
    ensures
        pair_step(0, PairEvent::PublicAccepted(now)).1 == now + QUEUE_TIMEOUT_SECS * 1000,
{
}

} // verus!
