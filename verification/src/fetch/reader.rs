//! Reading a response body into a buffer.

use vstd::prelude::*;

use super::abort::Abort;

verus! {

/// What a reader does next, after some bytes were written to the buffer.
#[derive(Debug, Clone, Copy, PartialEq, Eq, Structural)]
pub enum ReadStep {
    /// The call ends with so many bytes.
    Done(usize),
    /// There are so many bytes, and the next chunk of the body is needed.
    NeedChunk(usize),
    /// The call fails, because the body is too large.
    SizeLimit,
}

/// What waiting for the next chunk gave.
#[derive(Debug)]
pub enum ChunkEvent {
    /// A chunk has come.
    Chunk(Vec<u8>),
    /// The body has ended.
    End,
    /// Reading failed.
    Failed,
}

/// `BodyReader` serves as an adapter from async to sync I/O.
///
/// Bytes are taken from the current chunk of a response body until the next chunk is needed.
#[derive(Debug)]
pub struct BodyReader {
    chunk: Vec<u8>,
    open: bool,
    abort: Abort,
    offset: usize,
    count: usize,
}

/// What a reader holds.
#[verifier::ext_equal]
pub struct ReaderView {
    /// The bytes of the current chunk that were not read yet.
    pub pending: Seq<u8>,
    /// Whether more can come. It is not so while a chunk is awaited.
    pub open: bool,
    /// How many bytes were read.
    pub count: nat,
    /// The limit on the number of bytes.
    pub limit: nat,
}

impl View for BodyReader {
    type V = ReaderView;

    closed spec fn view(&self) -> ReaderView {
        ReaderView {
            pending: self.chunk@.skip(self.offset as int),
            open: self.open,
            count: self.count as nat,
            limit: self.abort.size_limit() as nat,
        }
    }
}

/// How many bytes go into the room that a buffer has.
pub open spec fn taken(pending: Seq<u8>, room: nat) -> nat {
    if pending.len() < room {
        pending.len()
    } else {
        room
    }
}

impl ReaderView {
    /// The bytes that go into the room that a buffer has.
    pub open spec fn given(self, room: nat) -> Seq<u8> {
        if self.open && self.count + taken(self.pending, room) <= self.limit {
            self.pending.take(taken(self.pending, room) as int)
        } else {
            Seq::empty()
        }
    }

    /// Whether the room that a buffer has cannot be used without exceeding the limit.
    pub open spec fn over_limit(self, room: nat) -> bool {
        self.open && self.pending.len() > 0 && self.count + taken(self.pending, room) > self.limit
    }

    /// Whether the next chunk is needed after the current one was used.
    pub open spec fn needs_chunk(self, room: nat) -> bool {
        self.open && !self.over_limit(room) && (self.pending.len() == 0 || self.pending.len()
            < room)
    }

    /// The reader after a call with some room in the buffer.
    pub open spec fn after_read(self, room: nat) -> ReaderView {
        if !self.open || self.over_limit(room) {
            self
        } else {
            ReaderView {
                pending: self.pending.skip(taken(self.pending, room) as int),
                open: !self.needs_chunk(room),
                count: self.count + taken(self.pending, room),
                limit: self.limit,
            }
        }
    }

    /// The reader after the chunk that it needed has come.
    pub open spec fn after_chunk(self, chunk: Seq<u8>) -> ReaderView {
        ReaderView { pending: chunk, open: true, count: self.count, limit: self.limit }
    }
}

impl BodyReader {
    #[verifier::type_invariant]
    spec fn within_limit(self) -> bool {
        &&& self.offset <= self.chunk@.len()
        &&& self.count <= self.abort.size_limit()
        &&& !self.open ==> self.offset == self.chunk@.len()
    }

    /// Create a new body reader for a response with the given limits.
    pub fn new(abort: Abort) -> (reader: BodyReader)
        ensures
            reader@ == (ReaderView {
                pending: Seq::empty(),
                open: true,
                count: 0,
                limit: abort.size_limit() as nat,
            }),
    {
        BodyReader { chunk: Vec::new(), open: true, abort, offset: 0, count: 0 }
    }

    /// Reads from the current chunk into a buffer that holds `n` bytes already. If more is needed,
    /// the next chunk is awaited.
    pub fn read(&mut self, buf: &mut [u8], n: usize) -> (step: ReadStep)
        requires
            n <= old(buf)@.len(),
        ensures
            final(self)@ == old(self)@.after_read((old(buf)@.len() - n) as nat),
            final(buf)@ == old(buf)@.take(n as int) + old(self)@.given(
                (old(buf)@.len() - n) as nat,
            ) + old(buf)@.skip(
                n + old(self)@.given((old(buf)@.len() - n) as nat).len(),
            ),
            step == if old(self)@.over_limit((old(buf)@.len() - n) as nat) {
                ReadStep::SizeLimit
            } else if old(self)@.needs_chunk((old(buf)@.len() - n) as nat) {
                ReadStep::NeedChunk(
                    (n + old(self)@.given((old(buf)@.len() - n) as nat).len()) as usize,
                )
            } else {
                ReadStep::Done(
                    (n + old(self)@.given((old(buf)@.len() - n) as nat).len()) as usize,
                )
            },
            final(self)@.count <= final(self)@.limit,
    {
        proof {
            use_type_invariant(&*self);
        }
        if !self.open {
            return ReadStep::Done(n);
        }
        if self.offset >= self.chunk.len() {
            self.open = false;
            return ReadStep::NeedChunk(n);
        }
        let available: usize = self.chunk.len();
        let capacity: usize = buf.len();
        let rest: usize = available - self.offset;
        let room: usize = capacity - n;
        let k: usize = if rest < room {
            rest
        } else {
            room
        };
        if k > self.abort.max_size() - self.count {
            return ReadStep::SizeLimit;
        }
        let mut i: usize = 0;
        while i < k
            invariant
                i <= k,
                n + k <= capacity,
                capacity == buf@.len() == old(buf)@.len(),
                self.offset + k <= available,
                available == self.chunk@.len(),
                forall|j: int| n <= j < n + i ==> #[trigger] buf@[j] == self.chunk@[self.offset + j - n],
                forall|j: int|
                    0 <= j < buf@.len() && !(n <= j < n + i) ==> buf@[j] == old(buf)@[j],
            decreases k - i,
        {
            buf[n + i] = self.chunk[self.offset + i];
            i = i + 1;
        }
        self.offset = self.offset + k;
        self.count = self.count + k;
        if n + k == capacity {
            ReadStep::Done(n + k)
        } else {
            self.open = false;
            ReadStep::NeedChunk(n + k)
        }
    }

    /// Takes what waiting for the chunk gave that a call with `n` bytes in its buffer needed. The
    /// call goes on if a chunk has come, and ends if the body has ended.
    pub fn chunk_arrived(&mut self, event: ChunkEvent, n: usize) -> (end: Option<
        Result<usize, &'static str>,
    >)
        requires
            !old(self)@.open,
        ensures
            match event {
                ChunkEvent::Chunk(chunk) => {
                    &&& end is None
                    &&& final(self)@ == old(self)@.after_chunk(chunk@)
                },
                ChunkEvent::End => {
                    &&& end == Some(Ok::<usize, &'static str>(n))
                    &&& final(self)@ == old(self)@
                },
                ChunkEvent::Failed => {
                    &&& end matches Some(Err(text)) && text@ == "failed to read body chunk"@
                    &&& final(self)@ == old(self)@
                },
            },
    {
        proof {
            use_type_invariant(&*self);
        }
        match event {
            ChunkEvent::Chunk(chunk) => {
                self.open = true;
                self.offset = 0;
                self.chunk = chunk;
                None
            },
            ChunkEvent::End => Some(Ok(n)),
            ChunkEvent::Failed => Some(Err("failed to read body chunk")),
        }
    }
}

/// The text of the error when a body is too large.
pub fn size_limit_message() -> (text: &'static str)
    ensures
        text@ == "size limit exceeded"@,
{
    "size limit exceeded"
}

/// What happens to a reader.
pub enum ReadEvent {
    /// A call with some room in its buffer.
    Read(nat),
    /// A chunk that was needed has come.
    Chunk(Seq<u8>),
}

/// The reader after some events.
pub open spec fn run(reader: ReaderView, events: Seq<ReadEvent>) -> ReaderView
    decreases events.len(),
{
    if events.len() == 0 {
        reader
    } else {
        let before = run(reader, events.drop_last());
        match events.last() {
            ReadEvent::Read(room) => before.after_read(room),
            ReadEvent::Chunk(chunk) => before.after_chunk(chunk),
        }
    }
}

/// Whether chunks come only when they are needed.
pub open spec fn chunks_needed(reader: ReaderView, events: Seq<ReadEvent>) -> bool {
    forall|i: int|
        0 <= i < events.len() && (#[trigger] events[i]) is Chunk ==> !run(
            reader,
            events.take(i),
        ).open
}

/// The bytes that the calls have put into their buffers.
pub open spec fn bytes_out(reader: ReaderView, events: Seq<ReadEvent>) -> Seq<u8>
    decreases events.len(),
{
    if events.len() == 0 {
        Seq::empty()
    } else {
        bytes_out(reader, events.drop_last()) + match events.last() {
            ReadEvent::Read(room) => run(reader, events.drop_last()).given(room),
            ReadEvent::Chunk(_) => Seq::empty(),
        }
    }
}

/// The bytes of the chunks that have come.
pub open spec fn bytes_in(events: Seq<ReadEvent>) -> Seq<u8>
    decreases events.len(),
{
    if events.len() == 0 {
        Seq::empty()
    } else {
        bytes_in(events.drop_last()) + match events.last() {
            ReadEvent::Read(_) => Seq::empty(),
            ReadEvent::Chunk(chunk) => chunk,
        }
    }
}

/// Nothing of a body is lost, repeated or put out of order: what the calls have put into their
/// buffers, and then what is pending, are the bytes of the chunks. Never are there more bytes than
/// the limit allows.
pub proof fn law_bytes_in_order(reader: ReaderView, events: Seq<ReadEvent>)
    requires
        reader.pending.len() == 0,
        reader.open,
        reader.count == 0,
        chunks_needed(reader, events),
    ensures
        bytes_out(reader, events) + run(reader, events).pending == bytes_in(events),
        run(reader, events).count == bytes_out(reader, events).len(),
        run(reader, events).limit == reader.limit,
        run(reader, events).count <= reader.limit,
        !run(reader, events).open ==> run(reader, events).pending.len() == 0,
    decreases events.len(),
{
    if events.len() > 0 {
        let before = events.drop_last();
        assert forall|i: int| 0 <= i < before.len() && (#[trigger] before[i]) is Chunk implies !run(
            reader,
            before.take(i),
        ).open by {
            assert(events[i] is Chunk);
            assert(events.take(i) =~= before.take(i));
        }
        law_bytes_in_order(reader, before);
        let state = run(reader, before);
        match events.last() {
            ReadEvent::Read(room) => {
                assert(state.given(room) + state.after_read(room).pending =~= state.pending);
            },
            ReadEvent::Chunk(chunk) => {
                assert(events[events.len() - 1] is Chunk);
                assert(events.take(events.len() - 1) =~= before);
                assert(state.pending =~= Seq::empty());
            },
        }
        assert(bytes_out(reader, events) + run(reader, events).pending =~= bytes_in(events));
    }
}

/// How many bytes a call can use: as many as are pending, but no more than there is room for.
pub open spec fn usable_bytes(reader: ReaderView, room: int) -> int {
    if reader.pending.len() < room {
        reader.pending.len() as int
    } else {
        room
    }
}

/// A call puts the pending bytes into the room behind those that are in the buffer, in order, as many
/// as fit, and touches no other byte of it. It asks for a chunk exactly if room is left or nothing
/// was pending, and fails, without reading, exactly if the limit would be exceeded. A reader that
/// awaits a chunk, or whose body has ended, gives nothing.
pub proof fn law_read(reader: &mut BodyReader, buf: &mut [u8], n: usize, step: ReadStep)
    requires
        n <= old(buf)@.len(),
        call_ensures(BodyReader::read, (reader, buf, n), step),
    ensures
        ({
            let room = old(buf)@.len() - n;
            let count = usable_bytes(old(reader)@, room);
            let exceeds = old(reader)@.pending.len() > 0 && old(reader)@.count + count
                > old(reader)@.limit;
            if !old(reader)@.open {
                &&& step == ReadStep::Done(n)
                &&& final(buf)@ == old(buf)@
                &&& final(reader)@ == old(reader)@
            } else if exceeds {
                &&& step is SizeLimit
                &&& final(buf)@ == old(buf)@
                &&& final(reader)@ == old(reader)@
            } else {
                &&& final(buf)@.len() == old(buf)@.len()
                &&& old(reader)@.count + count <= old(reader)@.limit ==> {
                    &&& forall|i: int|
                        0 <= i < final(buf)@.len() ==> (#[trigger] final(buf)@[i]) == if n <= i < n
                            + count {
                            old(reader)@.pending[i - n]
                        } else {
                            old(buf)@[i]
                        }
                    &&& final(reader)@.pending == old(reader)@.pending.skip(count)
                    &&& final(reader)@.count == old(reader)@.count + count
                    &&& step == if old(reader)@.pending.len() == 0 || count < room {
                        ReadStep::NeedChunk((n + count) as usize)
                    } else {
                        ReadStep::Done((n + count) as usize)
                    }
                }
                &&& final(reader)@.limit == old(reader)@.limit
                &&& final(reader)@.open <==> !(step is NeedChunk)
            }
        }),
        final(reader)@.count <= final(reader)@.limit,
{
}

/// A chunk that has come becomes what is pending, so that the call goes on. At the end of the body the
/// call ends with the bytes that it has, and it fails if reading did.
pub proof fn law_chunk_arrived(
    reader: &mut BodyReader,
    event: ChunkEvent,
    n: usize,
    end: Option<Result<usize, &'static str>>,
)
    requires
        !old(reader)@.open,
        call_ensures(BodyReader::chunk_arrived, (reader, event, n), end),
    ensures
        end is None <==> event is Chunk,
        event matches ChunkEvent::Chunk(chunk) ==> final(reader)@.pending == chunk@ && final(
            reader)@.open,
        event is End ==> end == Some(Ok::<usize, &'static str>(n)),
        event is Failed ==> (end matches Some(Err(text)) && text@ == "failed to read body chunk"@),
        !(event is Chunk) ==> final(reader)@ == old(reader)@,
        final(reader)@.count == old(reader)@.count,
        final(reader)@.limit == old(reader)@.limit,
{
}

/// A new reader is open, has read nothing and has nothing pending, under the limit of its handle.
pub proof fn law_new_reader(abort: Abort, reader: BodyReader, text: &'static str)
    requires
        call_ensures(BodyReader::new, (abort,), reader),
        call_ensures(size_limit_message, (), text),
    ensures
        reader@.pending.len() == 0,
        reader@.open,
        reader@.count == 0,
        reader@.limit == abort.size_limit(),
        text@ == "size limit exceeded"@,
{
}

} // verus!
