use tunnel::backoff::Backoff;
use tunnel::client::{Client, ClientStage};
use tunnel::future::{select_step, SelectStep};
use tunnel::err::{AppliesTo, ErrorKind, IoErrorExt};
use tunnel::server::{
    accept_failed, drain_continues, AcceptAction, DrainOutcome, GatewayAction, GatewayEvent,
    GatewayPipeline, GatewayStage, PairAction, PairEvent, PairStage, Pairing,
};
use tunnel::stream::TokenLedger;
use tunnel::util::{NoneError, OptionExt};

#[test]
fn error_scopes() {
    assert_eq!(ErrorKind::ConnectionRefused.applies_to(), AppliesTo::Connection);
    assert_eq!(ErrorKind::ConnectionAborted.applies_to(), AppliesTo::Connection);
    assert_eq!(ErrorKind::ConnectionReset.applies_to(), AppliesTo::Connection);
    assert_eq!(ErrorKind::Other.applies_to(), AppliesTo::Listener);
}

#[test]
fn accept_failures_back_off_on_listener_errors_only() {
    let mut backoff = Backoff::new(1..=64);
    assert_eq!(accept_failed(&mut backoff, ErrorKind::ConnectionReset), AcceptAction::Retry);
    let mut sleeps = Vec::new();
    for _ in 0..9 {
        match accept_failed(&mut backoff, ErrorKind::Other) {
            AcceptAction::Sleep(s) => sleeps.push(s),
            AcceptAction::Retry => panic!("listener failure retried at once"),
        }
    }
    assert_eq!(sleeps, vec![1, 2, 4, 8, 16, 32, 64, 64, 64]);
    assert_eq!(accept_failed(&mut backoff, ErrorKind::ConnectionAborted), AcceptAction::Retry);
    backoff.reset();
    assert_eq!(accept_failed(&mut backoff, ErrorKind::Other), AcceptAction::Sleep(1));
}

#[test]
fn drain_stops_when_nothing_waits() {
    assert!(drain_continues(DrainOutcome::Accepted));
    assert!(drain_continues(DrainOutcome::Failed(ErrorKind::ConnectionRefused)));
    assert!(!drain_continues(DrainOutcome::Failed(ErrorKind::Other)));
    assert!(!drain_continues(DrainOutcome::TimedOut));
}

#[test]
fn pairing_happy_path() {
    let mut p = Pairing::new();
    assert_eq!(p.stage, PairStage::AwaitPublic);
    assert_eq!(p.step(PairEvent::PublicAccepted(1_000)), PairAction::AwaitGateway(61_000));
    assert_eq!(p.step(PairEvent::GatewayReady(2_000)), PairAction::WriteExit);
    assert_eq!(p.step(PairEvent::ExitWritten), PairAction::ReadLateHandshake);
    assert_eq!(p.step(PairEvent::LateHandshakeOk(2_500)), PairAction::Splice);
    assert_eq!(p.stage, PairStage::AwaitPublic);
}

#[test]
fn queue_expiry_takes_no_gateway() {
    let mut p = Pairing::new();
    p.step(PairEvent::PublicAccepted(0));
    // a wait that ends before the deadline goes on, and takes no gateway
    assert_eq!(p.step(PairEvent::QueueTimer(59_999)), PairAction::AwaitGateway(60_000));
    assert_eq!(p.stage, PairStage::AwaitGateway);
    assert_eq!(p.step(PairEvent::QueueTimer(60_000)), PairAction::Expire);
    assert_eq!(p.stage, PairStage::AwaitPublic);
    assert_eq!(p.step(PairEvent::PublicAccepted(70_000)), PairAction::AwaitGateway(130_000));
    assert_eq!(p.step(PairEvent::GatewayReady(70_001)), PairAction::WriteExit);
}

#[test]
fn pairing_gateway_after_deadline_drops_pair() {
    let mut p = Pairing::new();
    p.step(PairEvent::PublicAccepted(0));
    assert_eq!(p.step(PairEvent::GatewayReady(60_000)), PairAction::DropPair);
    assert_eq!(p.stage, PairStage::AwaitPublic);
}

#[test]
fn late_handshake_after_deadline_drops_pair() {
    let mut p = Pairing::new();
    p.step(PairEvent::PublicAccepted(0));
    p.step(PairEvent::GatewayReady(59_000));
    p.step(PairEvent::ExitWritten);
    assert_eq!(p.step(PairEvent::LateHandshakeOk(60_001)), PairAction::DropPair);
    assert_eq!(p.stage, PairStage::AwaitPublic);
}

#[test]
fn late_handshake_drop_pairs_next_gateway() {
    let mut p = Pairing::new();
    p.step(PairEvent::PublicAccepted(500));
    p.step(PairEvent::GatewayReady(600));
    p.step(PairEvent::ExitWritten);
    assert_eq!(p.step(PairEvent::GatewayFailed), PairAction::AwaitGateway(60_500));
    assert_eq!(p.step(PairEvent::GatewayReady(700)), PairAction::WriteExit);
    assert_eq!(p.step(PairEvent::GatewayFailed), PairAction::AwaitGateway(60_500));
    assert_eq!(p.step(PairEvent::GatewayReady(800)), PairAction::WriteExit);
    assert_eq!(p.step(PairEvent::ExitWritten), PairAction::ReadLateHandshake);
    assert_eq!(p.step(PairEvent::LateHandshakeOk(900)), PairAction::Splice);
}

#[test]
fn pairing_deadline_saturates() {
    let mut p = Pairing::new();
    assert_eq!(p.step(PairEvent::PublicAccepted(u64::MAX - 5)), PairAction::AwaitGateway(u64::MAX));
}

#[test]
fn heartbeat_failure_enters_backoff() {
    let mut c = Client::new();
    assert_eq!(c.stage(), ClientStage::ConnectGateway);
    assert!(!c.succeeded());
    assert_eq!(c.stage(), ClientStage::EarlyHandshake);
    assert!(!c.succeeded());
    assert_eq!(c.stage(), ClientStage::AwaitHeartbeatEnd);
    // heartbeat read timed out: back off, starting at one second
    assert_eq!(c.failed(), 1);
    assert_eq!(c.stage(), ClientStage::ConnectGateway);
    assert_eq!(c.failed(), 2);
    assert_eq!(c.failed(), 4);
    for expected in [ClientStage::EarlyHandshake, ClientStage::AwaitHeartbeatEnd, ClientStage::LateHandshake, ClientStage::ConnectPrivate] {
        assert!(!c.succeeded());
        assert_eq!(c.stage(), expected);
    }
    assert!(c.succeeded());
    assert_eq!(c.stage(), ClientStage::ConnectGateway);
    assert_eq!(c.failed(), 1);
}

#[test]
fn token_ledger_one_at_a_time() {
    let mut ledger = TokenLedger::new();
    assert!(!ledger.is_outstanding());
    let token = ledger.request().unwrap();
    assert!(ledger.is_outstanding());
    assert!(ledger.request().is_none());
    ledger.redeem(token);
    assert!(!ledger.is_outstanding());
    let again = ledger.request().unwrap();
    ledger.redeem(again);
}

#[test]
fn option_into_result() {
    assert_eq!(Some(3).into_result(), Ok(3));
    assert_eq!(None::<u8>.into_result(), Err(NoneError));
}

#[test]
fn gateway_pipeline_heartbeats_before_emit() {
    let mut g = GatewayPipeline::new();
    assert_eq!(g.stage, GatewayStage::Accept);
    assert_eq!(g.step(GatewayEvent::Accepted), GatewayAction::ReadEarlyHandshake);
    assert_eq!(g.step(GatewayEvent::EarlyHandshakeOk), GatewayAction::WriteHeartbeat);
    assert_eq!(g.stage, GatewayStage::FirstHeartbeat);
    assert_eq!(g.step(GatewayEvent::HeartbeatWritten), GatewayAction::HeartbeatUntilRequested);
    assert_eq!(g.stage, GatewayStage::Heartbeat);
    assert_eq!(g.step(GatewayEvent::Requested), GatewayAction::Emit);
    assert_eq!(g.stage, GatewayStage::Accept);
}

#[test]
fn gateway_pipeline_discards_failures() {
    let mut g = GatewayPipeline::new();
    g.step(GatewayEvent::Accepted);
    assert_eq!(g.step(GatewayEvent::EarlyHandshakeFailed), GatewayAction::Accept);
    g.step(GatewayEvent::Accepted);
    g.step(GatewayEvent::EarlyHandshakeOk);
    assert_eq!(g.step(GatewayEvent::HeartbeatFailed), GatewayAction::Accept);
    g.step(GatewayEvent::Accepted);
    g.step(GatewayEvent::EarlyHandshakeOk);
    g.step(GatewayEvent::HeartbeatWritten);
    assert_eq!(g.step(GatewayEvent::HeartbeatFailed), GatewayAction::Accept);
    g.step(GatewayEvent::Accepted);
    g.step(GatewayEvent::EarlyHandshakeOk);
    g.step(GatewayEvent::HeartbeatWritten);
    assert_eq!(g.step(GatewayEvent::RequestsClosed), GatewayAction::Stop);
}

#[test]
fn select_tries_in_order_then_reports() {
    assert_eq!(select_step(0, 3), SelectStep::Try(0));
    assert_eq!(select_step(2, 3), SelectStep::Try(2));
    assert_eq!(select_step(3, 3), SelectStep::LastError);
    assert_eq!(select_step(0, 0), SelectStep::NoAlternatives);
}
