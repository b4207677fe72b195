//! Sample bookkeeping of the recorder and of chunk extraction: the capture
//! buffers (a growing record of everything captured, and a ring buffer of the
//! most recent samples) and the cutting of a stretch out of an audio buffer.

use vstd::prelude::*;
use std::collections::VecDeque;

verus! {

broadcast use vstd::std_specs::vecdeque::axiom_spec_len;

/// The samples `audio[start .. start + count]`, cut short at the end of the
/// audio; empty when `start` lies at or past the end.
pub open spec fn chunk_of<T>(audio: Seq<T>, start: nat, count: nat) -> Seq<T> {
    if start >= audio.len() {
        Seq::empty()
    } else if start + count < audio.len() {
        audio.subrange(start as int, (start + count) as int)
    } else {
        audio.subrange(start as int, audio.len() as int)
    }
}

/// Copies `audio[from .. to]` into a new vector.
fn copy_range<T: Copy>(audio: &[T], from: usize, to: usize) -> (r: Vec<T>)
    requires
        from <= to <= audio@.len(),
    ensures
        r@ == audio@.subrange(from as int, to as int),
{
    let mut out: Vec<T> = Vec::new();
    let mut i = from;
    while i < to
        invariant
            from <= i <= to,
            to <= audio@.len(),
            out@ == audio@.subrange(from as int, i as int),
        decreases to - i,
    {
        out.push(audio[i]);
        proof {
            assert(out@ =~= audio@.subrange(from as int, i + 1));
        }
        i = i + 1;
    }
    out
}

/// The `count` samples of `audio` that begin at sample `start`, fewer where
/// the audio ends first, none when it ends before `start`.
pub fn extract_chunk<T: Copy>(audio: &[T], start: usize, count: usize) -> (r: Vec<T>)
    requires
        start + count <= usize::MAX,
    ensures
        r@ == chunk_of(audio@, start as nat, count as nat),
{
    let end = if start + count < audio.len() {
        start + count
    } else {
        audio.len()
    };
    if start >= audio.len() {
        return Vec::new();
    }
    copy_range(audio, start, end)
}

/// How many of the most recent samples the ring buffer keeps: its capacity,
/// but at least the one sample that was pushed last.
pub open spec fn retained(capacity: nat) -> nat {
    if capacity == 0 {
        1
    } else {
        capacity
    }
}

/// The last `n` elements of `s` (all of them when there are fewer).
pub open spec fn latest<T>(s: Seq<T>, n: nat) -> Seq<T> {
    if s.len() <= n {
        s
    } else {
        s.subrange(s.len() - n, s.len() as int)
    }
}

/// The buffers that the recorder fills while capturing: every sample
/// captured, in order, and a ring buffer holding the most recent ones.
pub struct CaptureBuffer<T> {
    ring: VecDeque<T>,
    capacity: usize,
    raw: Vec<T>,
    recording: bool,
}

impl<T: Copy> CaptureBuffer<T> {
    /// Every sample captured so far, in order.
    pub closed spec fn captured(&self) -> Seq<T> {
        self.raw@
    }

    /// The samples in the ring buffer, oldest first.
    pub closed spec fn ring(&self) -> Seq<T> {
        self.ring@
    }

    /// The ring buffer's capacity in samples.
    pub closed spec fn capacity(&self) -> nat {
        self.capacity as nat
    }

    /// Whether captured samples are being kept.
    pub closed spec fn recording(&self) -> bool {
        self.recording
    }

    /// The ring buffer holds the most recent captured samples.
    pub closed spec fn wf(&self) -> bool {
        self.ring@ == latest(self.raw@, retained(self.capacity as nat))
    }

    /// Empty buffers whose ring keeps up to `capacity` samples; not recording.
    pub fn new(capacity: usize) -> (r: Self)
        ensures
            r.wf(),
            r.captured() == Seq::<T>::empty(),
            r.capacity() == capacity,
            !r.recording(),
    {
        CaptureBuffer { ring: VecDeque::new(), capacity, raw: Vec::new(), recording: false }
    }

    /// Starts keeping captured samples.
    pub fn begin(&mut self)
        requires
            old(self).wf(),
        ensures
            final(self).wf(),
            final(self).recording(),
            final(self).captured() == old(self).captured(),
            final(self).capacity() == old(self).capacity(),
    {
        self.recording = true;
    }

    /// Takes in a block of captured samples: while recording, each is added to
    /// the record and to the ring buffer, whose oldest sample is dropped when
    /// it is full; otherwise the block is ignored.
    pub fn push_samples(&mut self, data: &[T])
        requires
            old(self).wf(),
            old(self).captured().len() + data@.len() <= usize::MAX,
        ensures
            took_in(*old(self), *final(self), data@),
            final(self).wf(),
            final(self).captured() == (if old(self).recording() {
                old(self).captured() + data@
            } else {
                old(self).captured()
            }),
            final(self).capacity() == old(self).capacity(),
            final(self).recording() == old(self).recording(),
    {
        if !self.recording {
            return;
        }
        let n = data.len();
        let ghost start = self.raw@;
        let mut i: usize = 0;
        while i < n
            invariant
                n == data@.len(),
                i <= n,
                start.len() + n <= usize::MAX,
                self.raw@ == start + data@.take(i as int),
                self.ring@ == latest(self.raw@, retained(self.capacity as nat)),
                self.recording,
                self.capacity == old(self).capacity,
            decreases n - i,
        {
            let x = data[i];
            let ghost cap = retained(self.capacity as nat);
            let ghost raw0 = self.raw@;
            if self.ring.len() >= self.capacity {
                let _ = self.ring.pop_front();
            }
            self.ring.push_back(x);
            self.raw.push(x);
            proof {
                assert(data@.take(i + 1) =~= data@.take(i as int).push(x));
                assert(self.raw@ =~= start + data@.take(i + 1));
                let raw1 = raw0.push(x);
                if raw1.len() <= cap {
                    assert(self.ring@ =~= raw1);
                } else {
                    assert(self.ring@ =~= raw1.subrange(raw1.len() - cap, raw1.len() as int));
                }
            }
            i = i + 1;
        }
        proof {
            assert(data@.take(n as int) =~= data@);
        }
    }

    /// The last `n` samples of the ring buffer, oldest first, or `None` when
    /// it holds fewer than `n`.
    pub fn get_buffer(&self, n: usize) -> (r: Option<Vec<T>>)
        requires
            self.wf(),
        ensures
            r is Some <==> n <= self.ring().len(),
            self.ring() == latest(self.captured(), retained(self.capacity())),
            r matches Some(v) ==> v@ == latest(self.captured(), n as nat) && v@.len() == n,
    {
        let len = self.ring.len();
        if len < n {
            return None;
        }
        let mut out: Vec<T> = Vec::new();
        let mut i = len - n;
        while i < len
            invariant
                len == self.ring@.len(),
                n <= len,
                len - n <= i <= len,
                out@ == self.ring@.subrange(len - n, i as int),
            decreases len - i,
        {
            out.push(self.ring[i]);
            proof {
                assert(out@ =~= self.ring@.subrange(len - n, i + 1));
            }
            i = i + 1;
        }
        proof {
            let raw = self.raw@;
            let c = retained(self.capacity as nat);
            if raw.len() > c {
                assert(self.ring@ =~= raw.subrange(raw.len() - c, raw.len() as int));
            }
            if raw.len() > n {
                assert(out@ =~= raw.subrange(raw.len() - n, raw.len() as int));
            } else {
                assert(out@ =~= raw);
            }
        }
        Some(out)
    }

    /// The `count` captured samples that begin at sample `start`, or `None`
    /// when fewer than `start + count` samples have been captured.
    pub fn read_chunk(&self, start: usize, count: usize) -> (r: Option<Vec<T>>)
        ensures
            r is Some <==> start + count <= self.captured().len(),
            r matches Some(v) ==> v@ == self.captured().subrange(start as int, start + count),
    {
        let len = self.raw.len();
        if start > len || count > len - start {
            return None;
        }
        Some(copy_range(self.raw.as_slice(), start, start + count))
    }

    /// Number of samples captured so far.
    pub fn raw_len(&self) -> (r: usize)
        ensures
            r == self.captured().len(),
    {
        self.raw.len()
    }

    /// Whether captured samples are being kept.
    pub fn is_recording(&self) -> (r: bool)
        ensures
            r == self.recording(),
    {
        self.recording
    }

    /// Stops keeping captured samples and hands back everything captured,
    /// or `None` when nothing was.
    pub fn stop(&mut self) -> (r: Option<Vec<T>>)
        requires
            old(self).wf(),
        ensures
            final(self).wf(),
            !final(self).recording(),
            final(self).captured() == old(self).captured(),
            final(self).capacity() == old(self).capacity(),
            r is None <==> old(self).captured().len() == 0,
            r matches Some(v) ==> v@ == old(self).captured(),
    {
        self.recording = false;
        if self.raw.len() == 0 {
            return None;
        }
        Some(copy_range(self.raw.as_slice(), 0, self.raw.len()))
    }
}

/// The ring buffer is always the most recent captured samples: exactly the
/// last `min(captured, max(capacity, 1))` of them, so it never grows past its
/// capacity (480000 samples for the recorder, 30 s at 16 kHz) when that is
/// positive.
pub proof fn lemma_ring_is_recent<T: Copy>(buf: &CaptureBuffer<T>)
    requires
        buf.wf(),
    ensures
        buf.ring() == latest(buf.captured(), retained(buf.capacity())),
        buf.ring().len() == (if buf.captured().len() <= retained(buf.capacity()) {
            buf.captured().len()
        } else {
            retained(buf.capacity())
        }),
        buf.capacity() > 0 ==> buf.ring().len() <= buf.capacity(),
{
}

/// Keeping only the most recent samples block by block gives the same ring as
/// keeping the most recent of everything captured at once.
pub proof fn lemma_ring_of_joined_blocks<T>(before: Seq<T>, block: Seq<T>, n: nat)
    ensures
        latest(latest(before, n) + block, n) == latest(before + block, n),
{
    let a = latest(before, n) + block;
    let b = before + block;
    if b.len() <= n {
        assert(latest(before, n) == before);
    } else if a.len() <= n {
        assert(a =~= b.subrange(b.len() - a.len(), b.len() as int));
    } else {
        assert(a.subrange(a.len() - n, a.len() as int) =~= b.subrange(b.len() - n, b.len() as int));
    }
}

/// The ring after the blocks are taken in one after another, keeping at
/// most `n` samples after each block.
pub open spec fn ring_after_blocks<T>(blocks: Seq<Seq<T>>, n: nat) -> Seq<T>
    decreases blocks.len(),
{
    if blocks.len() == 0 {
        Seq::empty()
    } else {
        latest(ring_after_blocks(blocks.drop_last(), n) + blocks.last(), n)
    }
}

/// Whatever blocks are delivered, the ring after them holds the last `n`
/// samples of all the blocks joined in order (all of them when there are
/// fewer).
pub proof fn lemma_ring_after_blocks<T>(blocks: Seq<Seq<T>>, n: nat)
    ensures
        ring_after_blocks(blocks, n) == latest(blocks.flatten_alt(), n),
    decreases blocks.len(),
{
    if blocks.len() > 0 {
        lemma_ring_after_blocks(blocks.drop_last(), n);
        lemma_ring_of_joined_blocks(blocks.drop_last().flatten_alt(), blocks.last(), n);
    }
}

/// When the buffers have captured exactly the blocks `blocks`, in order (as
/// [`CaptureBuffer::push_samples`] ensures of the blocks delivered while
/// recording), the ring is what keeping the most recent samples block by
/// block gives, and never longer than the capacity when that is positive.
pub proof fn lemma_capture_of_blocks<T: Copy>(buf: &CaptureBuffer<T>, blocks: Seq<Seq<T>>)
    requires
        buf.wf(),
        buf.captured() == blocks.flatten_alt(),
    ensures
        buf.ring() == ring_after_blocks(blocks, retained(buf.capacity())),
        buf.capacity() > 0 ==> buf.ring().len() <= buf.capacity(),
{
    lemma_ring_after_blocks(blocks, retained(buf.capacity()));
}

/// What taking in one block does to the buffers: while recording, the block
/// is added after everything captured; otherwise nothing changes. The ring
/// stays the most recent samples, and capacity and recording are kept.
pub open spec fn took_in<T: Copy>(before: CaptureBuffer<T>, after: CaptureBuffer<T>, block: Seq<T>) -> bool {
    &&& after.wf()
    &&& after.capacity() == before.capacity()
    &&& after.recording() == before.recording()
    &&& after.captured() == (if before.recording() {
        before.captured() + block
    } else {
        before.captured()
    })
}

/// The state after the first `k` blocks of a recording session holds those
/// blocks joined.
proof fn lemma_session_prefix<T: Copy>(states: Seq<CaptureBuffer<T>>, blocks: Seq<Seq<T>>, k: nat)
    requires
        states.len() == blocks.len() + 1,
        k <= blocks.len(),
        states[0].wf(),
        states[0].recording(),
        states[0].captured() == Seq::<T>::empty(),
        forall|i: int|
            #![trigger blocks[i]]
            0 <= i < blocks.len() ==> took_in(states[i], states[i + 1], blocks[i]),
    ensures
        states[k as int].wf(),
        states[k as int].recording(),
        states[k as int].capacity() == states[0].capacity(),
        states[k as int].captured() == blocks.take(k as int).flatten_alt(),
    decreases k,
{
    if k == 0 {
        assert(blocks.take(0) =~= Seq::<Seq<T>>::empty());
    } else {
        let j = (k - 1) as nat;
        lemma_session_prefix(states, blocks, j);
        assert(took_in(states[j as int], states[k as int], blocks[j as int]));
        assert(blocks.take(k as int).drop_last() =~= blocks.take(j as int));
        assert(blocks.take(k as int).last() == blocks[j as int]);
    }
}

/// A recording session: buffers that start empty and recording take in the
/// blocks `blocks` one after another (see [`CaptureBuffer::push_samples`]).
/// After every block, everything captured is exactly the blocks delivered so
/// far, joined in order; at the end the ring holds the most recent samples
/// of all of them, and never more than the capacity when that is positive.
pub proof fn lemma_recording_session<T: Copy>(states: Seq<CaptureBuffer<T>>, blocks: Seq<Seq<T>>)
    requires
        states.len() == blocks.len() + 1,
        states[0].wf(),
        states[0].recording(),
        states[0].captured() == Seq::<T>::empty(),
        forall|i: int|
            #![trigger blocks[i]]
            0 <= i < blocks.len() ==> took_in(states[i], states[i + 1], blocks[i]),
    ensures
        forall|k: int|
            0 <= k < states.len() ==> #[trigger] states[k].captured() == blocks.take(k).flatten_alt(),
        states.last().captured() == blocks.flatten_alt(),
        states.last().ring() == latest(blocks.flatten_alt(), retained(states[0].capacity())),
        states[0].capacity() > 0 ==> states.last().ring().len() <= states[0].capacity(),
{
    assert forall|k: int| 0 <= k < states.len() implies #[trigger] states[k].captured()
        == blocks.take(k).flatten_alt() by {
        lemma_session_prefix(states, blocks, k as nat);
    }
    let n = blocks.len();
    lemma_session_prefix(states, blocks, n);
    assert(blocks.take(n as int) =~= blocks);
    let last = states.last();
    lemma_ring_is_recent(&last);
}

/// A cut stretch holds `count` samples, or as many as there are from
/// `start` to the end if that is fewer (none when `start` lies past the
/// end), and its `i`-th sample is sample `start + i` of the audio.
pub proof fn lemma_chunk_of_shape<T>(audio: Seq<T>, start: nat, count: nat, i: int)
    ensures
        chunk_of(audio, start, count).len() == (if start >= audio.len() {
            0
        } else if start + count < audio.len() {
            count as int
        } else {
            audio.len() - start
        }),
        0 <= i < chunk_of(audio, start, count).len() ==> chunk_of(audio, start, count)[i] == audio[start
            + i],
{
}

/// The most recent `n` samples are a suffix of everything: `min(n, len)` of
/// them, the `i`-th being the one that many places from the end.
pub proof fn lemma_latest_is_suffix<T>(s: Seq<T>, n: nat, i: int)
    ensures
        latest(s, n).len() == (if s.len() <= n {
            s.len()
        } else {
            n
        }),
        0 <= i < latest(s, n).len() ==> latest(s, n)[i] == s[s.len() - latest(s, n).len() + i],
        latest(s, n).len() == s.len() ==> latest(s, n) == s,
{
}

} // verus!
