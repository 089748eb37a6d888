//! A bounded FIFO of bytes between one producer and one consumer.
//!
//! As with `Mailbox`, the contents change only through `&mut self`, so that
//! every write and read is stated over the bytes held before and after it.

use vstd::prelude::*;

verus! {

/// Capacity of the serial byte pipe of the device.
pub const UART_PIPE_CAPACITY: usize = 4096;

/// A fixed-capacity ring buffer of bytes. A write takes what fits and says
/// how much; the producer waits for room and writes the rest. A read takes
/// from the front, in order.
pub struct BytePipe {
    buf: Vec<u8>,
    head: usize,
    len: usize,
}

/// Position of the `i`-th byte from `head` in a ring of `cap` slots.
pub open spec fn ring_slot(head: int, i: int, cap: int) -> int {
    if head + i < cap {
        head + i
    } else {
        head + i - cap
    }
}

/// The bytes held after a write of `data` into a pipe of capacity `cap`
/// holding `c`, and how many bytes of `data` were taken.
pub open spec fn pipe_accepts(c: Seq<u8>, cap: nat, data: Seq<u8>) -> nat {
    if c.len() + data.len() <= cap {
        data.len()
    } else if c.len() <= cap {
        (cap - c.len()) as nat
    } else {
        0
    }
}

/// How many bytes a read of at most `max` bytes takes from `c`.
pub open spec fn pipe_yields(c: Seq<u8>, max: nat) -> nat {
    if max <= c.len() {
        max
    } else {
        c.len()
    }
}

/// The bytes held after a write of `data` into a pipe of capacity `cap`
/// holding `c`: what fits is appended, in order.
pub open spec fn pipe_after_write(c: Seq<u8>, cap: nat, data: Seq<u8>) -> Seq<u8> {
    c + data.take(pipe_accepts(c, cap, data) as int)
}

/// A read of at most `max` bytes from a pipe holding `c`: the bytes taken,
/// oldest first, and the bytes left.
pub open spec fn pipe_after_read(c: Seq<u8>, max: nat) -> (Seq<u8>, Seq<u8>) {
    (c.take(pipe_yields(c, max) as int), c.skip(pipe_yields(c, max) as int))
}

impl View for BytePipe {
    type V = Seq<u8>;

    /// The bytes held, oldest first.
    closed spec fn view(&self) -> Seq<u8> {
        Seq::new(
            self.len as nat,
            |i: int| self.buf@[ring_slot(self.head as int, i, self.buf@.len() as int)],
        )
    }
}

impl BytePipe {
    /// Number of bytes the pipe can hold.
    pub closed spec fn capacity(&self) -> nat {
        self.buf@.len()
    }

    pub closed spec fn wf(&self) -> bool {
        &&& self.buf@.len() > 0
        &&& self.buf@.len() <= usize::MAX / 2
        &&& self.head < self.buf@.len()
        &&& self.len <= self.buf@.len()
    }

    /// An empty pipe holding at most `capacity` bytes.
    pub fn new(capacity: usize) -> (r: Self)
        requires
            0 < capacity <= usize::MAX / 2,
        ensures
            r.wf(),
            r@ == Seq::<u8>::empty(),
            r.capacity() == capacity,
    {
        let mut buf: Vec<u8> = Vec::new();
        while buf.len() < capacity
            invariant
                buf@.len() <= capacity,
            decreases capacity - buf@.len(),
        {
            buf.push(0);
        }
        let r = BytePipe { buf, head: 0, len: 0 };
        assert(r@ =~= Seq::<u8>::empty());
        r
    }

    /// Number of bytes held; never more than the capacity.
    pub fn len(&self) -> (r: usize)
        requires
            self.wf(),
        ensures
            r == self@.len(),
            r <= self.capacity(),
    {
        self.len
    }

    /// Whether no byte is held: a reader would wait.
    pub fn is_empty(&self) -> (r: bool)
        requires
            self.wf(),
        ensures
            r == (self@.len() == 0),
    {
        self.len == 0
    }

    /// Room left: a writer waits when it is zero.
    pub fn free_capacity(&self) -> (r: usize)
        requires
            self.wf(),
        ensures
            r == self.capacity() - self@.len(),
    {
        self.buf.len() - self.len
    }

    /// Appends as much of `data` as fits, in order, and returns how much that was.
    pub fn try_write(&mut self, data: &[u8]) -> (r: usize)
        requires
            old(self).wf(),
        ensures
            final(self).wf(),
            final(self).capacity() == old(self).capacity(),
            final(self)@.len() <= final(self).capacity(),
            r == pipe_accepts(old(self)@, old(self).capacity(), data@),
            final(self)@ == pipe_after_write(old(self)@, old(self).capacity(), data@),
    {
        let cap = self.buf.len();
        let room = cap - self.len;
        let n = if data.len() <= room {
            data.len()
        } else {
            room
        };
        let ghost start = self@;
        let mut i: usize = 0;
        while i < n
            invariant
                self.wf(),
                self.buf@.len() == cap,
                self.len == start.len() + i,
                i <= n,
                n <= data@.len(),
                start.len() + n <= cap,
                self@ =~= start + data@.take(i as int),
            decreases n - i,
        {
            let pos = if self.head + self.len < cap {
                self.head + self.len
            } else {
                self.head + self.len - cap
            };
            let ghost before = self@;
            self.buf.set(pos, data[i]);
            self.len = self.len + 1;
            assert forall|k: int| 0 <= k < before.len() implies #[trigger] self@[k] == before[k] by {
                assert(ring_slot(self.head as int, k, cap as int) != pos);
            }
            assert(self@ =~= start + data@.take(i + 1));
            i = i + 1;
        }
        n
    }

    /// Removes and returns the oldest bytes held, at most `max` of them.
    pub fn try_read(&mut self, max: usize) -> (r: Vec<u8>)
        requires
            old(self).wf(),
        ensures
            final(self).wf(),
            final(self).capacity() == old(self).capacity(),
            final(self)@.len() <= final(self).capacity(),
            (r@, final(self)@) == pipe_after_read(old(self)@, max as nat),
            r@.len() == pipe_yields(old(self)@, max as nat),
    {
        let cap = self.buf.len();
        let n = if max <= self.len {
            max
        } else {
            self.len
        };
        let mut out: Vec<u8> = Vec::new();
        let mut i: usize = 0;
        while i < n
            invariant
                self.wf(),
                self.buf@.len() == cap,
                i <= n,
                n <= self.len,
                out@ =~= self@.take(i as int),
            decreases n - i,
        {
            let pos = if self.head + i < cap {
                self.head + i
            } else {
                self.head + i - cap
            };
            out.push(self.buf[pos]);
            i = i + 1;
        }
        let ghost before = self@;
        self.head = if self.head + n < cap {
            self.head + n
        } else {
            self.head + n - cap
        };
        self.len = self.len - n;
        assert(self@ =~= before.skip(n as int));
        out
    }
}

/// One call on a pipe, as a sequence of calls is written down.
pub ghost enum PipeOp {
    /// `try_write` of these bytes.
    Write(Seq<u8>),
    /// `try_read` of at most this many bytes.
    Read(nat),
}

/// Running `ops` on a pipe of capacity `cap` that holds `c`, each op as the
/// contract of `try_write` or `try_read` gives it: the bytes held
/// at the end, the bytes the writes were able to put in, and the bytes the
/// reads took out, in order.
pub open spec fn pipe_session(c: Seq<u8>, cap: nat, ops: Seq<PipeOp>) -> (Seq<u8>, Seq<u8>, Seq<u8>)
    decreases ops.len(),
{
    if ops.len() == 0 {
        (c, Seq::empty(), Seq::empty())
    } else {
        let (c1, put, got) = pipe_session(c, cap, ops.drop_last());
        match ops.last() {
            PipeOp::Write(data) => {
                let n = pipe_accepts(c1, cap, data);
                (pipe_after_write(c1, cap, data), put + data.take(n as int), got)
            },
            PipeOp::Read(max) => {
                let (taken, rest) = pipe_after_read(c1, max);
                (rest, put, got + taken)
            },
        }
    }
}

/// No loss, no duplication, no reordering: over any run of writes and reads
/// on a pipe that starts empty, the bytes read, followed by those still held,
/// are exactly the bytes the writes put in; so the bytes read are a prefix of
/// them, and as many as were read.
pub proof fn lemma_pipe_fifo(cap: nat, ops: Seq<PipeOp>)
    ensures
        ({
            let (held, put, got) = pipe_session(Seq::empty(), cap, ops);
            &&& got + held == put
            &&& got.len() + held.len() == put.len()
            &&& got == put.take(got.len() as int)
        }),
    decreases ops.len(),
{
    if ops.len() > 0 {
        lemma_pipe_fifo(cap, ops.drop_last());
        let (c1, put1, got1) = pipe_session(Seq::empty(), cap, ops.drop_last());
        match ops.last() {
            PipeOp::Write(data) => {
                let n = pipe_accepts(c1, cap, data);
                assert(got1 + (c1 + data.take(n as int)) =~= (got1 + c1) + data.take(n as int));
            },
            PipeOp::Read(max) => {
                let n = pipe_yields(c1, max);
                assert((got1 + c1.take(n as int)) + c1.skip(n as int) =~= got1 + c1);
            },
        }
        let (held, put, got) = pipe_session(Seq::empty(), cap, ops);
        assert(got + held == put);
        assert(got =~= put.take(got.len() as int));
    }
}

} // verus!
