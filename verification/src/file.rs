//! A chunk source backed by a file: the file is streamed through a
//! buffer of fixed capacity, one bounded read per poll. The read
//! itself is I/O and happens outside this crate; each poll hands the
//! outcome of one read to [`FileChunkSource::on_read`], which decides
//! what the poll yields and tracks the stream's state.

use vstd::arithmetic::div_mod::{
    lemma_basic_div,
    lemma_div_plus_one,
    lemma_mod_self_0,
    lemma_mod_sub_multiples_vanish,
    lemma_small_mod,
};
use vstd::prelude::*;

verus! {

/// What one bounded read of the underlying file produced.
pub enum ReadEvent {
    /// The bytes the read produced; an empty read means end of file.
    Data(Vec<u8>),
    /// The read failed.
    Failure,
}

/// What one poll of a file-backed source yields.
pub enum FilePollOutcome {
    /// The next chunk: exactly the bytes the read produced, neither
    /// padded nor re-chunked.
    Chunk(Vec<u8>),
    /// End of file: the stream is complete, and every later poll says
    /// so again.
    Done,
    /// A read failed after streaming began: fatal to the in-flight
    /// stream, never retried.
    Fatal,
}

/// Streams a file as chunks of at most `capacity` bytes. One bounded
/// read is issued per poll; its outcome is handed to [`Self::on_read`].
pub struct FileChunkSource {
    capacity: usize,
    finished: bool,
    streamed: Ghost<Seq<u8>>,
}

impl FileChunkSource {
    /// The fixed capacity of the read buffer.
    pub closed spec fn capacity_spec(self) -> nat {
        self.capacity as nat
    }

    /// Whether the stream has ended, by end of file or by a failure.
    pub closed spec fn is_finished(self) -> bool {
        self.finished
    }

    /// All chunk bytes handed out so far, in emission order.
    pub closed spec fn streamed_bytes(self) -> Seq<u8> {
        self.streamed@
    }

    /// A fresh source that will read through a buffer of `capacity`
    /// bytes; nothing streamed yet.
    pub fn new(capacity: usize) -> (s: Self)
        requires
            capacity >= 1,
        ensures
            s.capacity_spec() == capacity,
            !s.is_finished(),
            s.streamed_bytes() == Seq::<u8>::empty(),
    {
        Self { capacity, finished: false, streamed: Ghost(Seq::empty()) }
    }

    /// The fixed capacity of the read buffer.
    pub fn capacity(&self) -> (r: usize)
        ensures
            r == self.capacity_spec(),
    {
        self.capacity
    }

    /// Whether the stream has ended; a finished source needs no
    /// further reads.
    pub fn is_done(&self) -> (r: bool)
        ensures
            r == self.is_finished(),
    {
        self.finished
    }

    /// One poll, given the outcome of one bounded read. A finished
    /// source stays finished and keeps yielding
    /// [`FilePollOutcome::Done`], whatever it is handed. Otherwise a
    /// nonempty read passes through as the next chunk, an empty read
    /// ends the stream, and a failed read is fatal to it.
    pub fn on_read(&mut self, ev: ReadEvent) -> (r: FilePollOutcome)
        requires
            ev matches ReadEvent::Data(d) ==> d@.len() <= old(self).capacity_spec(),
        ensures
            final(self).capacity_spec() == old(self).capacity_spec(),
            old(self).is_finished() ==> r is Done && *final(self) == *old(self),
            !old(self).is_finished() ==> (ev matches ReadEvent::Data(d) ==> (d@.len() > 0 ==> (
            r matches FilePollOutcome::Chunk(c) && c@ == d@ && !final(self).is_finished()
                && final(self).streamed_bytes() == old(self).streamed_bytes() + d@)) && (d@.len()
                == 0 ==> r is Done && final(self).is_finished() && final(self).streamed_bytes()
                == old(self).streamed_bytes())),
            !old(self).is_finished() && ev is Failure ==> r is Fatal && final(self).is_finished()
                && final(self).streamed_bytes() == old(self).streamed_bytes(),
    {
        if self.finished {
            return FilePollOutcome::Done;
        }
        match ev {
            ReadEvent::Failure => {
                self.finished = true;
                FilePollOutcome::Fatal
            },
            ReadEvent::Data(d) => {
                if d.len() == 0 {
                    self.finished = true;
                    FilePollOutcome::Done
                } else {
                    self.streamed = Ghost(self.streamed@ + d@);
                    FilePollOutcome::Chunk(d)
                }
            },
        }
    }
}

/// The chunks that ideal sequential bounded reads of a whole file
/// produce: every read fills the buffer of `cap` bytes until fewer
/// than `cap` bytes remain, and the remainder forms the last chunk.
pub open spec fn chunks_of(data: Seq<u8>, cap: nat) -> Seq<Seq<u8>>
    decreases data.len(),
{
    if cap == 0 || data.len() == 0 {
        Seq::empty()
    } else if data.len() <= cap {
        seq![data]
    } else {
        seq![data.take(cap as int)] + chunks_of(data.skip(cap as int), cap)
    }
}

/// A file of `s` bytes streamed through a buffer of capacity `cap`
/// yields exactly `ceil(s / cap)` chunks; every chunk but the last
/// holds `cap` bytes; the last holds `s % cap` bytes, or `cap` when
/// `cap` divides `s`; and the chunks concatenate to the file's bytes,
/// byte for byte.
pub proof fn lemma_file_chunking(data: Seq<u8>, cap: nat)
    requires
        cap >= 1,
    ensures
        chunks_of(data, cap).len() == (data.len() + cap - 1) / (cap as int),
        chunks_of(data, cap).flatten() == data,
        forall|i: int|
            0 <= i < chunks_of(data, cap).len() - 1 ==> (#[trigger] chunks_of(data, cap)[i]).len()
                == cap,
        data.len() > 0 && data.len() % cap == 0 ==> chunks_of(data, cap).last().len() == cap,
        data.len() % cap != 0 ==> chunks_of(data, cap).last().len() == data.len() % cap,
    decreases data.len(),
{
    let cs = chunks_of(data, cap);
    if data.len() == 0 {
        assert(cs.flatten() =~= data);
        lemma_basic_div((cap - 1) as int, cap as int);
    } else if data.len() <= cap {
        assert((data.len() + cap - 1) / (cap as int) == 1) by {
            lemma_basic_div((data.len() - 1) as int, cap as int);
            lemma_div_plus_one((data.len() - 1) as int, cap as int);
        }
        cs.lemma_flatten_one_element();
        if data.len() < cap {
            lemma_small_mod(data.len(), cap);
        } else {
            lemma_mod_self_0(cap as int);
        }
    } else {
        let t = data.take(cap as int);
        let rest = data.skip(cap as int);
        let rcs = chunks_of(rest, cap);
        lemma_file_chunking(rest, cap);

        assert(cs.drop_first() =~= rcs);
        assert(cs.first() == t);
        assert(cs.flatten() == t + rcs.flatten());
        assert(t + rest =~= data);

        assert(cs.len() == (data.len() + cap - 1) / (cap as int)) by {
            lemma_div_plus_one((data.len() - 1) as int, cap as int);
        }
        lemma_mod_sub_multiples_vanish(data.len() as int, cap as int);
        assert(rcs.len() >= 1);
        assert(cs.last() == rcs.last());

        assert forall|i: int| 0 <= i < cs.len() - 1 implies (#[trigger] cs[i]).len() == cap by {
            if i == 0 {
                assert(cs[0] == t);
            } else {
                assert(cs[i] == rcs[i - 1]);
            }
        }
    }
}

/// Split a whole buffered file into the very chunk sequence that
/// ideal bounded reads of `cap` bytes would stream.
pub fn split_file_bytes(data: &Vec<u8>, cap: usize) -> (chunks: Vec<Vec<u8>>)
    requires
        cap >= 1,
    ensures
        chunks@.map_values(|c: Vec<u8>| c@) == chunks_of(data@, cap as nat),
{
    let ghost full = data@;
    let mut chunks: Vec<Vec<u8>> = Vec::new();
    let mut off: usize = 0;
    proof {
        assert(full.skip(0) =~= full);
        assert(chunks@.map_values(|c: Vec<u8>| c@) + chunks_of(full, cap as nat) =~= chunks_of(
            full,
            cap as nat,
        ));
    }
    while off < data.len()
        invariant
            cap >= 1,
            off <= data.len(),
            data@ == full,
            chunks@.map_values(|c: Vec<u8>| c@) + chunks_of(full.skip(off as int), cap as nat)
                == chunks_of(full, cap as nat),
        decreases data.len() - off,
    {
        let end = if data.len() - off >= cap {
            off + cap
        } else {
            data.len()
        };
        let mut chunk: Vec<u8> = Vec::new();
        let mut j = off;
        while j < end
            invariant
                off <= j <= end <= data.len(),
                data@ == full,
                chunk@ == full.subrange(off as int, j as int),
            decreases end - j,
        {
            let b = data[j];
            chunk.push(b);
            j = j + 1;
        }
        proof {
            let remaining = full.skip(off as int);
            if full.len() - off > cap {
                assert(chunk@ =~= remaining.take(cap as int));
                assert(remaining.skip(cap as int) =~= full.skip(end as int));
                assert(chunks_of(remaining, cap as nat) == seq![chunk@] + chunks_of(
                    full.skip(end as int),
                    cap as nat,
                ));
            } else {
                assert(chunk@ =~= remaining);
                assert(full.skip(end as int) =~= Seq::<u8>::empty());
                assert(chunks_of(remaining, cap as nat) == seq![chunk@]);
                assert(chunks_of(full.skip(end as int), cap as nat) =~= Seq::<Seq<u8>>::empty());
            }
            assert(chunks@.push(chunk).map_values(|c: Vec<u8>| c@) =~= chunks@.map_values(
                |c: Vec<u8>| c@,
            ).push(chunk@));
            assert(chunks@.map_values(|c: Vec<u8>| c@).push(chunk@) + chunks_of(
                full.skip(end as int),
                cap as nat,
            ) =~= chunks@.map_values(|c: Vec<u8>| c@) + chunks_of(remaining, cap as nat));
        }
        chunks.push(chunk);
        off = end;
    }
    proof {
        assert(full.skip(off as int) =~= Seq::<u8>::empty());
        assert(chunks@.map_values(|c: Vec<u8>| c@) =~= chunks@.map_values(|c: Vec<u8>| c@)
            + chunks_of(full.skip(off as int), cap as nat));
    }
    chunks
}

} // verus!
