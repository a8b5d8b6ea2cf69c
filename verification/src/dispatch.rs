//! The powered dispatch: an echo service that writes every chunk it reads
//! from a connection back to it, and closes the connection at its end or at
//! the first error.

use vstd::prelude::*;

verus! {

/// How many bytes one read takes from a connection at most.
pub const BUFFER_SIZE: usize = 1024;

/// What happened on a connection since the last step.
#[derive(Clone, Copy, Debug, PartialEq, Eq, Structural)]
pub enum EchoEvent {
    /// A read filled the first `n` bytes of the buffer (`0` at the end of
    /// the stream).
    Read(usize),
    /// A read failed.
    ReadFailed,
    /// The last write went through.
    Written,
    /// The last write failed.
    WriteFailed,
}

/// What to do next on a connection.
pub enum EchoAction {
    /// Read the next chunk into the buffer.
    Read,
    /// Write these bytes back, all of them.
    Write(Vec<u8>),
    /// Drop the connection.
    Close,
}

/// Decides the next action on a connection, given the buffer of the last
/// read and what happened.
pub fn echo_step(buf: &[u8], event: EchoEvent) -> (a: EchoAction)
    requires
        event matches EchoEvent::Read(n) ==> n <= buf@.len(),
    ensures
        match event {
            EchoEvent::Read(n) => if n == 0 {
                a is Close
            } else {
                a matches EchoAction::Write(bytes) && bytes@ == buf@.subrange(0, n as int)
            },
            EchoEvent::ReadFailed => a is Close,
            EchoEvent::Written => a is Read,
            EchoEvent::WriteFailed => a is Close,
        },
{
    match event {
        EchoEvent::Read(n) => if n == 0 {
            EchoAction::Close
        } else {
            let mut bytes: Vec<u8> = Vec::new();
            let mut i: usize = 0;
            while i < n
                invariant
                    n <= buf@.len(),
                    i <= n,
                    bytes@ == buf@.subrange(0, i as int),
                decreases n - i,
            {
                bytes.push(buf[i]);
                i = i + 1;
            }
            EchoAction::Write(bytes)
        },
        EchoEvent::ReadFailed => EchoAction::Close,
        EchoEvent::Written => EchoAction::Read,
        EchoEvent::WriteFailed => EchoAction::Close,
    }
}

/// The bytes of a sequence of chunks, one after the other.
pub open spec fn concat(chunks: Seq<Seq<u8>>) -> Seq<u8>
    decreases chunks.len(),
{
    if chunks.len() == 0 {
        Seq::empty()
    } else {
        concat(chunks.drop_last()) + chunks.last()
    }
}

/// The history of a connection so far: `reads` are the chunks its reads
/// filled, in order, and `writes` the chunks written back, in order. Each
/// write is what [`echo_step`] decides after the read of the same rank, and
/// a read comes only after the write of the chunk before it went through.
pub open spec fn echo_history(reads: Seq<Seq<u8>>, writes: Seq<Seq<u8>>) -> bool {
    &&& writes.len() <= reads.len() <= writes.len() + 1
    &&& forall|i: int| 0 <= i < writes.len() ==> #[trigger] writes[i] == reads[i]
}

/// On a connection, the bytes written back are at every moment a prefix of
/// the bytes read, in order; once every chunk read has been written back,
/// they are all the bytes read.
pub proof fn lemma_echo_prefix(reads: Seq<Seq<u8>>, writes: Seq<Seq<u8>>)
    requires
        echo_history(reads, writes),
    ensures
        concat(reads).len() >= concat(writes).len(),
        concat(writes) == concat(reads).subrange(0, concat(writes).len() as int),
        writes.len() == reads.len() ==> concat(writes) == concat(reads),
    decreases reads.len(),
{
    if writes.len() == 0 {
        assert(concat(writes) =~= Seq::<u8>::empty());
        assert(concat(reads).subrange(0, 0) =~= Seq::<u8>::empty());
    } else if reads.len() == writes.len() {
        let n = writes.len() - 1;
        assert(echo_history(reads.drop_last(), writes.drop_last()));
        lemma_echo_prefix(reads.drop_last(), writes.drop_last());
        assert(writes.last() == reads.last());
        assert(writes.drop_last() =~= reads.drop_last());
        assert(concat(writes) =~= concat(reads));
    } else {
        assert(echo_history(reads.drop_last(), writes));
        lemma_echo_prefix(reads.drop_last(), writes);
        let prev = concat(reads.drop_last());
        assert(concat(writes) == prev);
        assert(concat(reads) == prev + reads.last());
        assert(concat(reads).subrange(0, prev.len() as int) =~= prev);
    }
}


/// One connection of the echo service, with its history so far: the chunks
/// read, and the chunks written back (each counted once its write went
/// through). The connection alternates: it waits for a read, then, after a
/// chunk was read, for the write of that chunk.
pub struct EchoConnection {
    awaiting_read: bool,
    reads: Ghost<Seq<Seq<u8>>>,
    writes: Ghost<Seq<Seq<u8>>>,
}

impl EchoConnection {
    /// The chunks read so far, in order.
    pub closed spec fn reads(&self) -> Seq<Seq<u8>> {
        self.reads@
    }

    /// The chunks written back so far, in order.
    pub closed spec fn writes(&self) -> Seq<Seq<u8>> {
        self.writes@
    }

    /// Whether the connection waits for a read (rather than for the write of
    /// the last chunk read).
    pub closed spec fn spec_awaits_read(&self) -> bool {
        self.awaiting_read
    }

    /// The connection's history is an echo history, and it waits for a read
    /// exactly when every chunk read has been written back.
    pub closed spec fn inv(&self) -> bool {
        &&& echo_history(self.reads@, self.writes@)
        &&& self.awaiting_read <==> self.reads@.len() == self.writes@.len()
    }

    /// A fresh connection: nothing read, nothing written.
    pub fn new() -> (c: Self)
        ensures
            c.inv(),
            c.spec_awaits_read(),
            c.reads() == Seq::<Seq<u8>>::empty(),
            c.writes() == Seq::<Seq<u8>>::empty(),
    {
        EchoConnection { awaiting_read: true, reads: Ghost(Seq::empty()), writes: Ghost(Seq::empty()) }
    }

    /// Whether the connection waits for a read.
    pub fn awaits_read(&self) -> (b: bool)
        ensures
            b == self.spec_awaits_read(),
    {
        self.awaiting_read
    }

    /// Takes one step on the connection, as [`echo_step`] decides it, and
    /// records it in the history. Reads are reported while the connection
    /// waits for a read, writes while it waits for a write.
    pub fn step(&mut self, buf: &[u8], event: EchoEvent) -> (a: EchoAction)
        requires
            old(self).inv(),
            event matches EchoEvent::Read(n) ==> n <= buf@.len(),
            (event is Read || event is ReadFailed) ==> old(self).spec_awaits_read(),
            (event is Written || event is WriteFailed) ==> !old(self).spec_awaits_read(),
        ensures
            final(self).inv(),
            match event {
                EchoEvent::Read(n) => if n == 0 {
                    &&& a is Close
                    &&& final(self).reads() == old(self).reads()
                    &&& final(self).writes() == old(self).writes()
                    &&& final(self).spec_awaits_read()
                } else {
                    &&& a matches EchoAction::Write(bytes) && bytes@ == buf@.subrange(0, n as int)
                    &&& final(self).reads() == old(self).reads().push(buf@.subrange(0, n as int))
                    &&& final(self).writes() == old(self).writes()
                    &&& !final(self).spec_awaits_read()
                },
                EchoEvent::ReadFailed => {
                    &&& a is Close
                    &&& final(self).reads() == old(self).reads()
                    &&& final(self).writes() == old(self).writes()
                    &&& final(self).spec_awaits_read()
                },
                EchoEvent::Written => {
                    &&& a is Read
                    &&& final(self).reads() == old(self).reads()
                    &&& final(self).writes() == old(self).writes().push(old(self).reads().last())
                    &&& final(self).spec_awaits_read()
                },
                EchoEvent::WriteFailed => {
                    &&& a is Close
                    &&& final(self).reads() == old(self).reads()
                    &&& final(self).writes() == old(self).writes()
                    &&& !final(self).spec_awaits_read()
                },
            },
    {
        let a = echo_step(buf, event);
        match event {
            EchoEvent::Read(n) => {
                if n != 0 {
                    proof {
                        self.reads@ = self.reads@.push(buf@.subrange(0, n as int));
                    }
                    self.awaiting_read = false;
                    assert(echo_history(self.reads@, self.writes@));
                }
            },
            EchoEvent::Written => {
                proof {
                    self.writes@ = self.writes@.push(self.reads@.last());
                }
                self.awaiting_read = true;
                assert(forall|i: int|
                    0 <= i < self.writes@.len() ==> #[trigger] self.writes@[i] == self.reads@[i]);
            },
            _ => {},
        }
        a
    }
}

/// At every moment of a connection, the bytes written back are a prefix of
/// the bytes read, in order; while the connection waits for a read, they
/// are all the bytes read.
pub proof fn lemma_connection_echoes(c: EchoConnection)
    requires
        c.inv(),
    ensures
        concat(c.writes()) == concat(c.reads()).subrange(0, concat(c.writes()).len() as int),
        c.spec_awaits_read() ==> concat(c.writes()) == concat(c.reads()),
{
    lemma_echo_prefix(c.reads(), c.writes());
}

} // verus!
