//! The streaming upload: a reader cuts the source into chunks of bounded
//! size, a bounded queue hands them on, and a sender takes them off in the
//! same order.

use vstd::prelude::*;
use vstd::slice::{slice_subrange, slice_to_vec};
use std::collections::VecDeque;

verus! {

/// The flow-control window: the most bytes that one chunk may hold.
pub const WINDOW_SIZE: usize = 65535;

/// How many chunks may wait between reader and sender.
pub const QUEUE_CAPACITY: usize = 256;

/// Why an upload failed.
#[derive(Debug, PartialEq, Eq)]
pub enum UploadError {
    /// Reading the source failed; the message of the I/O error.
    Read(String),
    /// The server refused a chunk; its status and what it answered.
    Rejected { status: u16, text: String },
    /// A chunk did not reach the server; the message of the failure.
    Transport(String),
}

/// What the reader does next.
#[derive(Clone, Copy, PartialEq, Eq, Structural, Debug)]
pub enum ReaderStep {
    /// Read at most this many bytes and hand them in.
    Read(usize),
    /// The queue is full: wait until the sender has taken a chunk.
    Wait,
    /// Nothing is left to read.
    Finished,
}

/// The bytes of the chunks, one after another.
pub open spec fn joined(chunks: Seq<Vec<u8>>) -> Seq<u8>
    decreases chunks.len(),
{
    if chunks.len() == 0 {
        Seq::empty()
    } else {
        chunks[0]@ + joined(chunks.subrange(1, chunks.len() as int))
    }
}

/// Joining after adding a chunk at the back adds its bytes at the back.
pub proof fn lemma_joined_push(chunks: Seq<Vec<u8>>, chunk: Vec<u8>)
    ensures
        joined(chunks.push(chunk)) == joined(chunks) + chunk@,
    decreases chunks.len(),
{
    let more = chunks.push(chunk);
    if chunks.len() == 0 {
        assert(more.subrange(1, more.len() as int) =~= Seq::<Vec<u8>>::empty());
        assert(joined(more.subrange(1, more.len() as int)) =~= Seq::<u8>::empty());
        assert(joined(more) =~= chunk@);
        assert(joined(chunks) + chunk@ =~= chunk@);
    } else {
        let rest = chunks.subrange(1, chunks.len() as int);
        assert(more.subrange(1, more.len() as int) =~= rest.push(chunk));
        lemma_joined_push(rest, chunk);
        assert(joined(more) =~= joined(chunks) + chunk@);
    }
}

/// A streaming upload in progress.
pub struct UploadPipeline {
    /// The size of the source as announced to the server.
    pub total_size: u64,
    /// The most bytes that the reader puts into one chunk.
    pub chunk_size: usize,
    /// How many bytes the reader has handed in.
    pub read: u64,
    /// How many bytes the sender has taken.
    pub sent: u64,
    /// The reader saw the end of the source before `total_size` bytes.
    pub source_done: bool,
    /// The chunks that wait for the sender, oldest first.
    pub queue: VecDeque<Vec<u8>>,
    /// The first failure of either side.
    pub failed: Option<UploadError>,
    /// Every byte that the reader has handed in, in order.
    pub taken: Ghost<Seq<u8>>,
    /// Every byte that the sender has taken, in order.
    pub handed: Ghost<Seq<u8>>,
}

impl UploadPipeline {
    /// The pipeline's invariant: chunks are non-empty and within the chunk
    /// size, the queue is within its capacity, and what the sender has
    /// taken, followed by what waits, is exactly what the reader handed in.
    pub open spec fn wf(self) -> bool {
        &&& 1 <= self.chunk_size <= WINDOW_SIZE
        &&& self.queue@.len() <= QUEUE_CAPACITY
        &&& forall|i: int|
            0 <= i < self.queue@.len() ==> 1 <= (#[trigger] self.queue@[i])@.len()
                <= self.chunk_size
        &&& self.taken@ == self.handed@ + joined(self.queue@)
        &&& self.read == self.taken@.len()
        &&& self.sent == self.handed@.len()
        &&& self.read <= self.total_size
    }

    /// What the reader does next.
    pub open spec fn spec_reader_step(self) -> ReaderStep {
        if self.failed.is_some() || self.source_done || self.read >= self.total_size {
            ReaderStep::Finished
        } else if self.queue@.len() >= QUEUE_CAPACITY {
            ReaderStep::Wait
        } else if self.total_size - self.read < self.chunk_size {
            ReaderStep::Read((self.total_size - self.read) as usize)
        } else {
            ReaderStep::Read(self.chunk_size)
        }
    }

    /// Whether the reader may hand in `chunk` now.
    pub open spec fn accepts(self, chunk: Seq<u8>) -> bool {
        match self.spec_reader_step() {
            ReaderStep::Read(n) => chunk.len() <= n,
            _ => false,
        }
    }

    /// The upload has ended without a failure: nothing is left to read and
    /// nothing waits.
    pub open spec fn spec_complete(self) -> bool {
        &&& self.failed.is_none()
        &&& (self.source_done || self.read >= self.total_size)
        &&& self.queue@.len() == 0
    }

    /// A pipeline for a source of `total_size` bytes, cut into chunks of at
    /// most `chunk_size`; `None` unless `1 <= chunk_size <= WINDOW_SIZE`.
    pub fn new(total_size: u64, chunk_size: usize) -> (r: Option<UploadPipeline>)
        ensures
            r.is_some() == (1 <= chunk_size <= WINDOW_SIZE),
            r.is_some() ==> {
                let p = r.unwrap();
                &&& p.wf()
                &&& p.total_size == total_size
                &&& p.chunk_size == chunk_size
                &&& p.read == 0
                &&& p.sent == 0
                &&& !p.source_done
                &&& p.queue@.len() == 0
                &&& p.failed.is_none()
                &&& p.taken@.len() == 0
                &&& p.handed@.len() == 0
            },
    {
        if chunk_size == 0 || chunk_size > WINDOW_SIZE {
            return None;
        }
        let p = UploadPipeline {
            total_size,
            chunk_size,
            read: 0,
            sent: 0,
            source_done: false,
            queue: VecDeque::new(),
            failed: None,
            taken: Ghost(Seq::empty()),
            handed: Ghost(Seq::empty()),
        };
        assert(p.queue@ =~= Seq::<Vec<u8>>::empty());
        assert(p.taken@ =~= p.handed@ + joined(p.queue@));
        Some(p)
    }

    pub fn reader_step(&self) -> (r: ReaderStep)
        requires
            self.wf(),
        ensures
            r == self.spec_reader_step(),
    {
        if self.failed.is_some() || self.source_done || self.read >= self.total_size {
            ReaderStep::Finished
        } else if self.queue.len() >= QUEUE_CAPACITY {
            ReaderStep::Wait
        } else {
            let left: u64 = self.total_size - self.read;
            if left < self.chunk_size as u64 {
                ReaderStep::Read(left as usize)
            } else {
                ReaderStep::Read(self.chunk_size)
            }
        }
    }

    /// The reader hands in what it read. An empty chunk says that the
    /// source has ended; any other goes to the back of the queue. A chunk
    /// that the reader was not asked for is refused and changes nothing.
    pub fn on_chunk(&mut self, chunk: Vec<u8>) -> (r: bool)
        requires
            old(self).wf(),
        ensures
            final(self).wf(),
            r == old(self).accepts(chunk@),
            !r ==> *final(self) == *old(self),
            r && chunk@.len() == 0 ==> *final(self) == (UploadPipeline {
                source_done: true,
                ..*old(self)
            }),
            r && chunk@.len() > 0 ==> {
                &&& final(self).queue@ == old(self).queue@.push(chunk)
                &&& final(self).read == old(self).read + chunk@.len()
                &&& final(self).taken@ == old(self).taken@ + chunk@
                &&& final(self).handed@ == old(self).handed@
                &&& final(self).sent == old(self).sent
                &&& final(self).total_size == old(self).total_size
                &&& final(self).chunk_size == old(self).chunk_size
                &&& final(self).source_done == old(self).source_done
                &&& final(self).failed == old(self).failed
            },
    {
        let n: usize = match self.reader_step() {
            ReaderStep::Read(n) => n,
            _ => {
                return false;
            },
        };
        if chunk.len() > n {
            return false;
        }
        if chunk.len() == 0 {
            self.source_done = true;
            return true;
        }
        proof {
            lemma_joined_push(self.queue@, chunk);
            assert(self.handed@ + (joined(self.queue@) + chunk@) =~= (self.handed@ + joined(
                self.queue@,
            )) + chunk@);
        }
        self.read = self.read + chunk.len() as u64;
        self.taken = Ghost(self.taken@ + chunk@);
        self.queue.push_back(chunk);
        true
    }

    /// The reader reports that reading the source failed. The first
    /// failure stands.
    pub fn on_read_error(&mut self, message: String)
        requires
            old(self).wf(),
        ensures
            final(self).wf(),
            old(self).failed.is_some() ==> *final(self) == *old(self),
            old(self).failed.is_none() ==> *final(self) == (UploadPipeline {
                failed: Some(UploadError::Read(message)),
                ..*old(self)
            }),
    {
        if self.failed.is_none() {
            self.failed = Some(UploadError::Read(message));
        }
    }

    /// The sender takes the oldest waiting chunk; `None` where nothing
    /// waits or the upload has failed.
    pub fn next_chunk(&mut self) -> (r: Option<Vec<u8>>)
        requires
            old(self).wf(),
        ensures
            final(self).wf(),
            r.is_some() == (old(self).failed.is_none() && old(self).queue@.len() > 0),
            r.is_none() ==> *final(self) == *old(self),
            r.is_some() ==> {
                &&& r.unwrap() == old(self).queue@[0]
                &&& final(self).queue@ == old(self).queue@.subrange(
                    1,
                    old(self).queue@.len() as int,
                )
                &&& final(self).handed@ == old(self).handed@ + r.unwrap()@
                &&& final(self).sent == old(self).sent + r.unwrap()@.len()
                &&& final(self).taken@ == old(self).taken@
                &&& final(self).read == old(self).read
                &&& final(self).total_size == old(self).total_size
                &&& final(self).chunk_size == old(self).chunk_size
                &&& final(self).source_done == old(self).source_done
                &&& final(self).failed == old(self).failed
            },
    {
        if self.failed.is_some() || self.queue.len() == 0 {
            return None;
        }
        let ghost before = self.queue@;
        let chunk = match self.queue.pop_front() {
            Some(chunk) => chunk,
            None => {
                return None;
            },
        };
        proof {
            assert((self.handed@ + chunk@) + joined(self.queue@) =~= self.handed@ + joined(
                before,
            ));
        }
        self.sent = self.sent + chunk.len() as u64;
        self.handed = Ghost(self.handed@ + chunk@);
        Some(chunk)
    }

    /// The sender reports the server's answer to a chunk. An answer
    /// outside 200..=299 fails the upload with the server's text, unless it
    /// has failed before.
    pub fn on_response(&mut self, status: u16, text: String)
        requires
            old(self).wf(),
        ensures
            final(self).wf(),
            (old(self).failed.is_some() || 200 <= status < 300) ==> *final(self) == *old(self),
            old(self).failed.is_none() && !(200 <= status < 300) ==> *final(self)
                == (UploadPipeline {
                failed: Some(UploadError::Rejected { status, text }),
                ..*old(self)
            }),
    {
        if self.failed.is_none() && !(200 <= status && status < 300) {
            self.failed = Some(UploadError::Rejected { status, text });
        }
    }

    /// The sender reports that a chunk did not reach the server. The
    /// first failure stands.
    pub fn on_send_error(&mut self, message: String)
        requires
            old(self).wf(),
        ensures
            final(self).wf(),
            old(self).failed.is_some() ==> *final(self) == *old(self),
            old(self).failed.is_none() ==> *final(self) == (UploadPipeline {
                failed: Some(UploadError::Transport(message)),
                ..*old(self)
            }),
    {
        if self.failed.is_none() {
            self.failed = Some(UploadError::Transport(message));
        }
    }

    /// Whether the upload has ended without a failure.
    pub fn complete(&self) -> (r: bool)
        requires
            self.wf(),
        ensures
            r == self.spec_complete(),
    {
        self.failed.is_none() && (self.source_done || self.read >= self.total_size)
            && self.queue.len() == 0
    }

    /// Whether the upload has ended, one way or the other.
    pub fn finished(&self) -> (r: bool)
        requires
            self.wf(),
        ensures
            r == (self.spec_complete() || self.failed.is_some()),
    {
        self.failed.is_some() || ((self.source_done || self.read >= self.total_size)
            && self.queue.len() == 0)
    }

    /// Whether the upload has failed.
    pub fn has_failed(&self) -> (r: bool)
        ensures
            r == self.failed.is_some(),
    {
        self.failed.is_some()
    }
}

/// The end of chunk `j` in a source of `total` bytes cut every `c` bytes.
pub open spec fn chunk_end(total: int, c: int, j: int) -> int {
    if j * c + c <= total {
        j * c + c
    } else {
        total
    }
}

/// Runs a whole upload over a source held in memory, reader and sender
/// taking turns, and gives the chunks in the order in which the sender got
/// them. Chunk `j` is the source from byte `j * chunk_size` up to the next
/// multiple of `chunk_size` or the end, so the chunks joined are the source
/// and an empty source gives no chunk; there are as many chunks as it takes
/// to cover the source and no more. `None` unless
/// `1 <= chunk_size <= WINDOW_SIZE`.
pub fn stream(data: &[u8], chunk_size: usize) -> (r: Option<Vec<Vec<u8>>>)
    ensures
        r.is_some() == (1 <= chunk_size <= WINDOW_SIZE),
        r.is_some() ==> {
            let out = r.unwrap();
            &&& joined(out@) == data@
            &&& forall|j: int|
                0 <= j < out@.len() ==> (#[trigger] out@[j])@ == data@.subrange(
                    j * chunk_size,
                    chunk_end(data@.len() as int, chunk_size as int, j),
                )
            &&& out@.len() > 0 ==> (out@.len() - 1) * chunk_size < data@.len()
            &&& out@.len() * chunk_size >= data@.len()
        },
{
    let mut p = match UploadPipeline::new(data.len() as u64, chunk_size) {
        Some(p) => p,
        None => {
            return None;
        },
    };
    let mut out: Vec<Vec<u8>> = Vec::new();
    let mut pos: usize = 0;
    assert(p.queue@ =~= Seq::<Vec<u8>>::empty());
    assert(p.taken@ =~= data@.subrange(0, 0));
    assert(p.handed@ =~= p.taken@);
    assert(joined(out@) =~= p.handed@);
    assert(0 == out@.len() * chunk_size) by (nonlinear_arith)
        requires
            out@.len() == 0,
    ;
    while pos < data.len()
        invariant
            p.wf(),
            p.queue@.len() == 0,
            p.failed.is_none(),
            !p.source_done,
            p.read == pos,
            pos <= data.len(),
            p.total_size == data.len(),
            p.chunk_size == chunk_size,
            p.taken@ == data@.subrange(0, pos as int),
            p.handed@ == p.taken@,
            joined(out@) == p.handed@,
            pos < data.len() ==> pos == out@.len() * chunk_size,
            pos == data.len() ==> out@.len() * chunk_size >= data@.len(),
            out@.len() > 0 ==> (out@.len() - 1) * chunk_size < data@.len(),
            forall|j: int|
                0 <= j < out@.len() ==> (#[trigger] out@[j])@ == data@.subrange(
                    j * chunk_size,
                    chunk_end(data@.len() as int, chunk_size as int, j),
                ),
        decreases data.len() - pos,
    {
        let n: usize = match p.reader_step() {
            ReaderStep::Read(n) => n,
            _ => {
                // With bytes left and an empty queue the reader is asked to read.
                proof {
                    assert(false);
                }
                return None;
            },
        };
        let ghost k = out@.len() as int;
        let ghost c = chunk_size as int;
        assert((k + 1) * c == k * c + c) by (nonlinear_arith);
        let chunk = slice_to_vec(slice_subrange(data, pos, pos + n));
        let ghost before = p.taken@;
        let accepted = p.on_chunk(chunk);
        assert(accepted);
        let sent = match p.next_chunk() {
            Some(sent) => sent,
            None => {
                // The chunk just handed in waits in the queue.
                proof {
                    assert(false);
                }
                return None;
            },
        };
        proof {
            assert(p.queue@ =~= Seq::<Vec<u8>>::empty());
            assert(before + sent@ =~= data@.subrange(0, pos + n));
            assert(joined(Seq::<Vec<u8>>::empty()) =~= Seq::<u8>::empty());
            assert(p.handed@ =~= p.taken@);
            lemma_joined_push(out@, sent);
            assert(pos == k * c);
            assert(sent@ =~= data@.subrange(k * c, chunk_end(data@.len() as int, c, k)));
        }
        let ghost earlier = out@;
        out.push(sent);
        pos = pos + n;
        proof {
            assert forall|j: int| 0 <= j < out@.len() implies (#[trigger] out@[j])@
                == data@.subrange(
                j * chunk_size,
                chunk_end(data@.len() as int, chunk_size as int, j),
            ) by {
                if j < k {
                    assert(out@[j] == earlier[j]);
                }
            }
        }
    }
    assert(data@.subrange(0, pos as int) =~= data@);
    Some(out)
}

/// An upload of an empty source is complete from the start, with nothing
/// read and nothing sent.
pub proof fn lemma_empty_source_is_complete(p: UploadPipeline)
    requires
        p.wf(),
        p.total_size == 0,
        p.failed.is_none(),
        p.queue@.len() == 0,
    ensures
        p.spec_complete(),
        p.spec_reader_step() == ReaderStep::Finished,
        p.read == 0,
        p.sent == 0,
{
    assert(joined(p.queue@) =~= Seq::<u8>::empty());
}

/// Whatever the chunk size and the size of the source: what the sender has
/// taken is always the front part of what the reader handed in, in the same
/// order, and once the upload is complete it is all of it. If the source
/// held the announced number of bytes, that many bytes were sent.
pub proof fn lemma_sender_gets_what_reader_read(p: UploadPipeline)
    requires
        p.wf(),
    ensures
        p.handed@ == p.taken@.subrange(0, p.handed@.len() as int),
        p.sent <= p.read,
        p.spec_complete() ==> p.handed@ == p.taken@ && p.sent == p.read,
        p.spec_complete() && !p.source_done ==> p.sent == p.total_size,
{
    assert(p.handed@ =~= p.taken@.subrange(0, p.handed@.len() as int));
    if p.spec_complete() {
        assert(joined(p.queue@) =~= Seq::<u8>::empty());
        assert(p.handed@ =~= p.taken@);
    }
}

} // verus!
