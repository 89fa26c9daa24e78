use crate::config::{MAX_BUFFER_SIZE, MIN_BUFFER_SIZE};
use vstd::prelude::*;
use vstd::slice::slice_subrange;

verus! {

/// Lifecycle of one direction of a splice.
#[derive(Clone, Copy, PartialEq, Eq, Structural, Debug)]
pub enum BufState {
    /// Reading from the source and writing to the destination.
    ReadWrite,
    /// The source reached its end; the destination's write half is to be shut down.
    Shutdown,
    /// The destination was shut down; the transferred count is final.
    Done,
}

/// What the driver of one direction has to do next.
#[derive(Clone, Copy, PartialEq, Eq, Structural, Debug)]
pub enum Step {
    /// Read from the source, at most `Buf::capacity` bytes, and hand them to `Buf::on_read`.
    Read,
    /// Write `Buf::pending` to the destination and report the amount to `Buf::on_written`.
    Write,
    /// Shut the destination's write half down and report it to `Buf::on_shutdown`.
    Shutdown,
    /// Nothing is left to do; the direction moved this many bytes.
    Done(u64),
}

/// The destination accepted zero bytes of a non-empty write.
#[derive(Clone, Copy, PartialEq, Eq, Structural, Debug)]
pub struct WriteZero;

/// The sizes a buffer can take: the initial size doubled at most nine times.
pub open spec fn is_buffer_size(n: nat) -> bool {
    ||| n == 4096
    ||| n == 8192
    ||| n == 16384
    ||| n == 32768
    ||| n == 65536
    ||| n == 131072
    ||| n == 262144
    ||| n == 524288
    ||| n == 1048576
    ||| n == 2097152
}

/// The buffer's size after a write: doubled, up to the largest size, when a
/// read had filled the whole buffer (`filled`) and the write sent the last of
/// those bytes (`emptied`), in however many writes they went out.
pub open spec fn grown_size(size: nat, filled: bool, emptied: bool) -> nat {
    if filled && emptied && size < MAX_BUFFER_SIZE {
        2 * size
    } else {
        size
    }
}

pub struct BufView {
    pub state: BufState,
    /// Size of the buffer: the most that one read may bring.
    pub capacity: nat,
    /// Bytes read from the source and not yet accepted by the destination.
    pub pending: Seq<u8>,
    /// Whether the pending bytes came from a read that filled the whole buffer.
    pub filled: bool,
    /// Every byte read from the source, in order.
    pub received: Seq<u8>,
    /// Every byte the destination accepted, in order.
    pub delivered: Seq<u8>,
    /// The transferred count that the direction reports.
    pub count: nat,
}

/// One direction of a splice: the bytes read from a source and not yet written
/// to a destination, and the count of bytes written so far.
pub struct Buf {
    state: BufState,
    pos: usize,
    cap: usize,
    amt: u64,
    buf: Vec<u8>,
    full: bool,
    received: Ghost<Seq<u8>>,
    delivered: Ghost<Seq<u8>>,
}

impl View for Buf {
    type V = BufView;

    closed spec fn view(&self) -> BufView {
        BufView {
            state: self.state,
            capacity: self.buf@.len(),
            pending: self.buf@.subrange(self.pos as int, self.cap as int),
            filled: self.full,
            received: self.received@,
            delivered: self.delivered@,
            count: self.amt as nat,
        }
    }
}

impl Buf {
    pub closed spec fn wf(&self) -> bool {
        &&& is_buffer_size(self.buf@.len())
        &&& self.pos <= self.cap <= self.buf@.len()
        &&& self.received@ == self.delivered@ + self.buf@.subrange(self.pos as int, self.cap as int)
        &&& self.amt == self.delivered@.len()
        &&& self.received@.len() <= u64::MAX
        &&& self.state != BufState::ReadWrite ==> self.pos == self.cap
        &&& self.full ==> self.pos < self.cap && self.cap == self.buf@.len()
    }

    pub fn new() -> (r: Self)
        ensures
            r.wf(),
            r@.state == BufState::ReadWrite,
            r@.capacity == MIN_BUFFER_SIZE,
            r@.pending.len() == 0,
            !r@.filled,
            r@.received.len() == 0,
            r@.delivered.len() == 0,
            r@.count == 0,
    {
        let r = Buf {
            state: BufState::ReadWrite,
            pos: 0,
            cap: 0,
            amt: 0,
            buf: vec![0u8; MIN_BUFFER_SIZE],
            full: false,
            received: Ghost(Seq::empty()),
            delivered: Ghost(Seq::empty()),
        };
        assert(r.received@ =~= r.delivered@ + r.buf@.subrange(0, 0));
        r
    }

    /// Size of the buffer: the most that the next read may bring.
    pub fn capacity(&self) -> (r: usize)
        requires
            self.wf(),
        ensures
            r == self@.capacity,
    {
        self.buf.len()
    }

    /// Number of bytes read from the source so far.
    pub fn received_len(&self) -> (r: u64)
        requires
            self.wf(),
        ensures
            r == self@.received.len(),
    {
        self.amt + (self.cap - self.pos) as u64
    }

    /// What the driver has to do next.
    pub fn next_step(&self) -> (r: Step)
        requires
            self.wf(),
        ensures
            r == match self@.state {
                BufState::ReadWrite => if self@.pending.len() == 0 {
                    Step::Read
                } else {
                    Step::Write
                },
                BufState::Shutdown => Step::Shutdown,
                BufState::Done => Step::Done(self@.count as u64),
            },
    {
        match self.state {
            BufState::ReadWrite => if self.pos == self.cap {
                Step::Read
            } else {
                Step::Write
            },
            BufState::Shutdown => Step::Shutdown,
            BufState::Done => Step::Done(self.amt),
        }
    }

    /// Bytes waiting to be written to the destination.
    pub fn pending(&self) -> (r: &[u8])
        requires
            self.wf(),
        ensures
            r@ == self@.pending,
    {
        slice_subrange(self.buf.as_slice(), self.pos, self.cap)
    }

    /// Takes the bytes that one read from the source brought; none means the source ended.
    pub fn on_read(&mut self, data: &[u8])
        requires
            old(self).wf(),
            old(self)@.state == BufState::ReadWrite,
            old(self)@.pending.len() == 0,
            data@.len() <= old(self)@.capacity,
            old(self)@.received.len() + data@.len() <= u64::MAX,
        ensures
            final(self).wf(),
            final(self)@.state == if data@.len() == 0 {
                BufState::Shutdown
            } else {
                BufState::ReadWrite
            },
            final(self)@.pending == data@,
            final(self)@.filled == (data@.len() == old(self)@.capacity),
            final(self)@.received == old(self)@.received + data@,
            final(self)@.delivered == old(self)@.delivered,
            final(self)@.count == old(self)@.count,
            final(self)@.capacity == old(self)@.capacity,
    {
        let n: usize = data.len();
        if n == 0 {
            self.state = BufState::Shutdown;
            assert(data@ =~= Seq::<u8>::empty());
            assert(self.received@ =~= old(self).received@ + data@);
            return;
        }
        let ghost old_buf = self.buf@;
        let mut i: usize = 0;
        while i < n
            invariant
                n == data@.len(),
                n <= old_buf.len(),
                self.buf@.len() == old_buf.len(),
                self.state == old(self).state,
                self.pos == old(self).pos,
                self.cap == old(self).cap,
                self.full == old(self).full,
                self.amt == old(self).amt,
                self.received == old(self).received,
                self.delivered == old(self).delivered,
                i <= n,
                forall|j: int| 0 <= j < i ==> self.buf@[j] == data@[j],
            decreases n - i,
        {
            self.buf.set(i, data[i]);
            i = i + 1;
        }
        self.pos = 0;
        self.cap = n;
        self.full = n == self.buf.len();
        self.received = Ghost(self.received@ + data@);
        assert(self.buf@.subrange(0, n as int) =~= data@);
        assert(old(self).buf@.subrange(old(self).pos as int, old(self).cap as int) =~= Seq::empty());
        assert(old(self).received@ =~= old(self).delivered@);
    }

    /// Takes the amount that one write of `pending` to the destination accepted.
    /// A write of zero bytes fails the direction.
    pub fn on_written(&mut self, n: usize) -> (r: Result<(), WriteZero>)
        requires
            old(self).wf(),
            old(self)@.state == BufState::ReadWrite,
            n <= old(self)@.pending.len(),
        ensures
            final(self).wf(),
            n == 0 <==> r is Err,
            n == 0 ==> *final(self) == *old(self),
            n > 0 ==> {
                &&& final(self)@.state == BufState::ReadWrite
                &&& final(self)@.delivered == old(self)@.delivered + old(self)@.pending.subrange(0, n as int)
                &&& final(self)@.pending == old(self)@.pending.subrange(n as int, old(self)@.pending.len() as int)
                &&& final(self)@.received == old(self)@.received
                &&& final(self)@.count == old(self)@.count + n
                &&& final(self)@.filled == (old(self)@.filled && n < old(self)@.pending.len())
                &&& final(self)@.capacity == grown_size(
                    old(self)@.capacity,
                    old(self)@.filled,
                    n == old(self)@.pending.len(),
                )
            },
    {
        if n == 0 {
            return Err(WriteZero);
        }
        let ghost old_buf = self.buf@;
        let ghost written = self.buf@.subrange(self.pos as int, self.pos + n);
        self.delivered = Ghost(self.delivered@ + written);
        self.pos = self.pos + n;
        self.amt = self.amt + n as u64;
        // a read filled the whole buffer and all of it went out: double it
        if self.full && self.pos == self.cap && self.buf.len() < MAX_BUFFER_SIZE {
            let double_len: usize = self.buf.len() * 2;
            self.buf.resize(double_len, 0);
            assert(self.buf@.subrange(0, old_buf.len() as int) == old_buf);
            assert(self.buf@.subrange(self.pos as int, self.cap as int) =~= old_buf.subrange(
                self.pos as int,
                self.cap as int,
            ));
        }
        if self.pos == self.cap {
            self.full = false;
        }
        assert(old_buf.subrange(old(self).pos as int, old(self).cap as int) =~= written
            + old_buf.subrange(self.pos as int, self.cap as int));
        assert(old_buf.subrange(old(self).pos as int, old(self).cap as int).subrange(0, n as int)
            =~= written);
        assert(old_buf.subrange(old(self).pos as int, old(self).cap as int).subrange(
            n as int,
            old(self).cap - old(self).pos,
        ) =~= old_buf.subrange(self.pos as int, self.cap as int));
        assert(self.received@ =~= self.delivered@ + self.buf@.subrange(
            self.pos as int,
            self.cap as int,
        ));
        Ok(())
    }

    /// Records that the destination's write half was shut down.
    pub fn on_shutdown(&mut self)
        requires
            old(self).wf(),
            old(self)@.state == BufState::Shutdown,
        ensures
            final(self).wf(),
            final(self)@ == (BufView { state: BufState::Done, ..old(self)@ }),
    {
        self.state = BufState::Done;
    }

    /// The transferred count, once the direction is done.
    pub fn result(&self) -> (r: Option<u64>)
        requires
            self.wf(),
        ensures
            r == if self@.state == BufState::Done {
                Some(self@.count as u64)
            } else {
                None::<u64>
            },
    {
        match self.state {
            BufState::Done => Some(self.amt),
            _ => None,
        }
    }
}

/// The bytes a direction delivered are always the bytes it received, in order,
/// less the ones still waiting in its buffer.
pub proof fn lemma_delivered_in_order(b: &Buf)
    requires
        b.wf(),
    ensures
        b@.received == b@.delivered + b@.pending,
        b@.count == b@.delivered.len(),
        b@.count as int + b@.pending.len() <= u64::MAX,
        is_buffer_size(b@.capacity),
        b@.capacity <= MAX_BUFFER_SIZE,
        b@.pending.len() <= b@.capacity,
        b@.state != BufState::ReadWrite ==> b@.pending.len() == 0,
{
}

/// A finished direction delivered every byte it received, and reports exactly
/// their number.
pub proof fn lemma_done_delivers_all(b: &Buf)
    requires
        b.wf(),
        b@.state == BufState::Done,
    ensures
        b@.delivered == b@.received,
        b@.count == b@.received.len(),
{
    assert(b@.pending =~= Seq::<u8>::empty());
    assert(b@.received =~= b@.delivered);
}

/// The outcome of a splice: the counts of both directions, once both are done.
pub fn joined(a_to_b: &Buf, b_to_a: &Buf) -> (r: Option<(u64, u64)>)
    requires
        a_to_b.wf(),
        b_to_a.wf(),
    ensures
        r == if a_to_b@.state == BufState::Done && b_to_a@.state == BufState::Done {
            Some((a_to_b@.count as u64, b_to_a@.count as u64))
        } else {
            None::<(u64, u64)>
        },
{
    match (a_to_b.result(), b_to_a.result()) {
        (Some(down), Some(up)) => Some((down, up)),
        _ => None,
    }
}

/// Once a splice reports its counts, each equals the number of bytes that
/// direction received, and each peer was handed exactly those bytes.
pub proof fn lemma_joined_counts_exact(a_to_b: &Buf, b_to_a: &Buf)
    requires
        a_to_b.wf(),
        b_to_a.wf(),
        a_to_b@.state == BufState::Done,
        b_to_a@.state == BufState::Done,
    ensures
        a_to_b@.count == a_to_b@.delivered.len(),
        b_to_a@.count == b_to_a@.delivered.len(),
        a_to_b@.delivered == a_to_b@.received,
        b_to_a@.delivered == b_to_a@.received,
{
    lemma_done_delivers_all(a_to_b);
    lemma_done_delivers_all(b_to_a);
}

} // verus!
