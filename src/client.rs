use crate::backoff::{advanced, backoff_term, Backoff};
use crate::config::{BACKOFF_MAX_SECS, BACKOFF_MIN_SECS};
use vstd::prelude::*;

verus! {

/// The step of a dial-and-handshake round that the client performs next.
#[derive(Clone, Copy, PartialEq, Eq, Structural, Debug)]
pub enum ClientStage {
    /// Connect to the first reachable gateway address.
    ConnectGateway,
    /// Send the early handshake.
    EarlyHandshake,
    /// Read heartbeats until the exit tag.
    AwaitHeartbeatEnd,
    /// Send the late handshake.
    LateHandshake,
    /// Connect to the first reachable private address, then splice.
    ConnectPrivate,
}

/// The stage after `stage` succeeded; none once the round is complete.
pub open spec fn following(stage: ClientStage) -> Option<ClientStage> {
    match stage {
        ClientStage::ConnectGateway => Some(ClientStage::EarlyHandshake),
        ClientStage::EarlyHandshake => Some(ClientStage::AwaitHeartbeatEnd),
        ClientStage::AwaitHeartbeatEnd => Some(ClientStage::LateHandshake),
        ClientStage::LateHandshake => Some(ClientStage::ConnectPrivate),
        ClientStage::ConnectPrivate => None,
    }
}

/// The client's single dial-and-handshake loop, guarded by a backoff.
pub struct Client {
    stage: ClientStage,
    backoff: Backoff,
}

impl Client {
    pub closed spec fn wf(&self) -> bool {
        &&& self.backoff.wf()
        &&& self.backoff@.min == BACKOFF_MIN_SECS
        &&& self.backoff@.max == BACKOFF_MAX_SECS
    }

    pub closed spec fn stage_spec(&self) -> ClientStage {
        self.stage
    }

    pub closed spec fn backoff_spec(&self) -> Backoff {
        self.backoff
    }

    pub fn new() -> (r: Self)
        ensures
            r.wf(),
            r.stage_spec() == ClientStage::ConnectGateway,
            r.backoff_spec()@.min == BACKOFF_MIN_SECS,
            r.backoff_spec()@.max == BACKOFF_MAX_SECS,
            r.backoff_spec()@.value == BACKOFF_MIN_SECS,
            r.backoff_spec()@.calls == 0,
    {
        Client { stage: ClientStage::ConnectGateway, backoff: Backoff::new(BACKOFF_MIN_SECS..=BACKOFF_MAX_SECS) }
    }

    /// The step to perform now.
    pub fn stage(&self) -> (r: ClientStage)
        ensures
            r == self.stage_spec(),
    {
        self.stage
    }

    /// Records that the current step succeeded. Returns true when the round is
    /// complete: the two connections are to be spliced, the backoff starts over
    /// and the next round begins with a new gateway connection.
    pub fn succeeded(&mut self) -> (r: bool)
        requires
            old(self).wf(),
        ensures
            final(self).wf(),
            final(self).backoff_spec()@.min == BACKOFF_MIN_SECS,
            final(self).backoff_spec()@.max == BACKOFF_MAX_SECS,
            r == (following(old(self).stage_spec()) is None),
            r ==> {
                &&& final(self).stage_spec() == ClientStage::ConnectGateway
                &&& final(self).backoff_spec()@.value == BACKOFF_MIN_SECS
                &&& final(self).backoff_spec()@.calls == 0
            },
            !r ==> {
                &&& Some(final(self).stage_spec()) == following(old(self).stage_spec())
                &&& final(self).backoff_spec()@ == old(self).backoff_spec()@
            },
    {
        match self.stage {
            ClientStage::ConnectGateway => {
                self.stage = ClientStage::EarlyHandshake;
                false
            },
            ClientStage::EarlyHandshake => {
                self.stage = ClientStage::AwaitHeartbeatEnd;
                false
            },
            ClientStage::AwaitHeartbeatEnd => {
                self.stage = ClientStage::LateHandshake;
                false
            },
            ClientStage::LateHandshake => {
                self.stage = ClientStage::ConnectPrivate;
                false
            },
            ClientStage::ConnectPrivate => {
                self.stage = ClientStage::ConnectGateway;
                self.backoff.reset();
                true
            },
        }
    }

    /// Records that the current step failed: the round is abandoned, and the
    /// client sleeps the returned number of seconds before it starts over.
    pub fn failed(&mut self) -> (r: u8)
        requires
            old(self).wf(),
        ensures
            final(self).wf(),
            final(self).backoff_spec()@.min == BACKOFF_MIN_SECS,
            final(self).backoff_spec()@.max == BACKOFF_MAX_SECS,
            r == old(self).backoff_spec()@.value,
            r == backoff_term(
                BACKOFF_MIN_SECS as nat,
                BACKOFF_MAX_SECS as nat,
                old(self).backoff_spec()@.calls,
            ),
            final(self).stage_spec() == ClientStage::ConnectGateway,
            final(self).backoff_spec()@ == advanced(old(self).backoff_spec()@),
    {
        self.stage = ClientStage::ConnectGateway;
        self.backoff.next()
    }
}

} // verus!
