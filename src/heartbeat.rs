use vstd::prelude::*;

verus! {

/// The byte that the server writes while a gateway connection waits.
pub const HEARTBEAT: u8 = 0xdd;

/// The byte that ends the heartbeat phase.
pub const EXIT: u8 = 0x1c;

/// A heartbeat-phase byte, as the reader understands it.
#[derive(Clone, Copy, PartialEq, Eq, Structural, Debug)]
pub enum Tag {
    Heartbeat,
    Exit,
}

/// A byte other than the two tags arrived during the heartbeat phase.
#[derive(Clone, Copy, PartialEq, Eq, Structural, Debug)]
pub struct ProtocolError {
    pub got: u8,
}

pub open spec fn tag_spec(byte: u8) -> Result<Tag, ProtocolError> {
    if byte == HEARTBEAT {
        Ok(Tag::Heartbeat)
    } else if byte == EXIT {
        Ok(Tag::Exit)
    } else {
        Err(ProtocolError { got: byte })
    }
}

/// Reads one heartbeat-phase byte.
pub fn read_tag(byte: u8) -> (r: Result<Tag, ProtocolError>)
    ensures
        r == tag_spec(byte),
{
    if byte == HEARTBEAT {
        Ok(Tag::Heartbeat)
    } else if byte == EXIT {
        Ok(Tag::Exit)
    } else {
        Err(ProtocolError { got: byte })
    }
}

/// Where a reader that takes `bytes` one at a time, and stops at the first
/// exit tag, stands after them.
pub enum ReadOutcome {
    /// Every byte was a heartbeat; the reader waits for more.
    Waiting,
    /// The exit tag came as the byte with this index.
    Exited(nat),
    /// The byte with this index was neither tag.
    Invalid(nat),
}

pub open spec fn read_outcome(bytes: Seq<u8>) -> ReadOutcome
    decreases bytes.len(),
{
    if bytes.len() == 0 {
        ReadOutcome::Waiting
    } else {
        match tag_spec(bytes[0]) {
            Ok(Tag::Heartbeat) => match read_outcome(bytes.drop_first()) {
                ReadOutcome::Waiting => ReadOutcome::Waiting,
                ReadOutcome::Exited(i) => ReadOutcome::Exited(i + 1),
                ReadOutcome::Invalid(i) => ReadOutcome::Invalid(i + 1),
            },
            Ok(Tag::Exit) => ReadOutcome::Exited(0),
            Err(_) => ReadOutcome::Invalid(0),
        }
    }
}

/// What the writing side sends: `n` heartbeats, then the exit tag.
pub open spec fn written(n: nat) -> Seq<u8> {
    Seq::new(n, |i: int| HEARTBEAT).push(EXIT)
}

/// The reader ends the heartbeat phase exactly at the exit tag of what the
/// writer sends, whatever number of heartbeats precede it.
pub proof fn lemma_heartbeat_round_trip(n: nat)
    ensures
        read_outcome(written(n)) == ReadOutcome::Exited(n),
    decreases n,
{
    if n > 0 {
        lemma_heartbeat_round_trip((n - 1) as nat);
        assert(written(n).drop_first() =~= written((n - 1) as nat));
    } else {
        assert(written(0)[0] == EXIT);
    }
}

} // verus!
