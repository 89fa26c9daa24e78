use vstd::prelude::*;

verus! {

/// The byte that a client sends in both handshakes.
pub const MAGIC: u8 = 0x2a;

/// The handshake byte received was not `MAGIC`.
#[derive(Clone, Copy, PartialEq, Eq, Structural, Debug)]
pub struct HandshakeMismatch {
    pub got: u8,
}

/// The outcome of a handshake whose byte read is `byte`.
pub open spec fn check_spec(byte: u8) -> Result<(), HandshakeMismatch> {
    if byte == MAGIC {
        Ok(())
    } else {
        Err(HandshakeMismatch { got: byte })
    }
}

/// Checks the byte read in a handshake.
pub fn check(byte: u8) -> (r: Result<(), HandshakeMismatch>)
    ensures
        r == check_spec(byte),
{
    if byte == MAGIC {
        Ok(())
    } else {
        Err(HandshakeMismatch { got: byte })
    }
}

/// The byte that the writing side of a handshake sends passes the reading
/// side's check, and any other first byte fails it.
pub proof fn lemma_written_handshake_accepted(other: u8)
    ensures
        check_spec(MAGIC) is Ok,
        other != MAGIC ==> check_spec(other) == Err::<(), HandshakeMismatch>(
            HandshakeMismatch { got: other },
        ),
{
}

} // verus!
