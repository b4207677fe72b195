//! Recognized segments, their joining into a transcript, and the plan by which
//! long audio is transcribed in overlapping chunks.

use vstd::prelude::*;
use crate::config::SAMPLES_PER_CENTI;

verus! {

/// One recognized stretch of speech. Times are in hundredths of a second
/// from the start of the audio that was handed to the recognizer.
pub struct Segment {
    pub start: i64,
    pub end: i64,
    pub text: String,
}

/// A copy of a segment.
fn copy_segment(s: &Segment) -> (r: Segment)
    ensures
        r == *s,
{
    Segment { start: s.start, end: s.end, text: s.text.clone() }
}

/// The texts of the segments, in order.
pub open spec fn segment_texts(segs: Seq<Segment>) -> Seq<Seq<char>> {
    segs.map_values(|s: Segment| s.text@)
}

/// The texts joined with single spaces between them.
pub open spec fn joined_texts(texts: Seq<Seq<char>>) -> Seq<char>
    decreases texts.len(),
{
    if texts.len() == 0 {
        seq![]
    } else if texts.len() == 1 {
        texts[0]
    } else {
        joined_texts(texts.drop_last()) + seq![' '] + texts.last()
    }
}

/// The transcript of a list of segments: their texts joined with single spaces.
pub fn segments_to_text(segments: &[Segment]) -> (r: String)
    ensures
        r@ == joined_texts(segment_texts(segments@)),
{
    let n = segments.len();
    let ghost texts = segment_texts(segments@);
    let mut out = String::new();
    let mut i: usize = 0;
    proof {
        reveal_strlit(" ");
        assert(texts.take(0) =~= Seq::<Seq<char>>::empty());
    }
    while i < n
        invariant
            n == segments@.len(),
            texts == segment_texts(segments@),
            i <= n,
            out@ == joined_texts(texts.take(i as int)),
        decreases n - i,
    {
        let ghost before = out@;
        proof {
            reveal_strlit(" ");
        }
        if i > 0 {
            out.append(" ");
        }
        out.append(segments[i].text.as_str());
        proof {
            let t = texts.take(i + 1);
            assert(t.drop_last() =~= texts.take(i as int));
            assert(t.last() == segments@[i as int].text@);
            if i == 0 {
                assert(before =~= Seq::<char>::empty());
                assert(out@ =~= t[0]);
            } else {
                assert(out@ =~= before + seq![' '] + t.last());
            }
        }
        i = i + 1;
    }
    proof {
        assert(texts.take(n as int) =~= texts);
    }
    out
}

/// The segments whose end lies strictly after `t`, in their order.
pub open spec fn segments_ending_after(segs: Seq<Segment>, t: int) -> Seq<Segment>
    decreases segs.len(),
{
    if segs.len() == 0 {
        seq![]
    } else {
        let rest = segments_ending_after(segs.drop_last(), t);
        if segs.last().end > t {
            rest.push(segs.last())
        } else {
            rest
        }
    }
}

/// The segments that chunk number `index` contributes to the transcript: all
/// of those of the first chunk; of each later chunk, those that end after the
/// stretch it shares with the chunk before (which that chunk already covered).
pub open spec fn kept_segments(segs: Seq<Segment>, index: nat, overlap_centis: int) -> Seq<Segment> {
    if index == 0 {
        segs
    } else {
        segments_ending_after(segs, overlap_centis)
    }
}

/// The transcript segments assembled from the segments recognized in each
/// chunk, chunk by chunk.
pub open spec fn merged_segments(parts: Seq<Seq<Segment>>, overlap_centis: int) -> Seq<Segment>
    decreases parts.len(),
{
    if parts.len() == 0 {
        seq![]
    } else {
        merged_segments(parts.drop_last(), overlap_centis) + kept_segments(
            parts.last(),
            (parts.len() - 1) as nat,
            overlap_centis,
        )
    }
}

/// Shortest chunk that is worth transcribing: half a second of samples.
pub const MIN_WINDOW_SAMPLES: usize = 8000;

/// First sample of chunk number `k` when chunks start `stride` samples apart.
pub open spec fn window_start(stride: nat, k: nat) -> nat
    decreases k,
{
    if k == 0 {
        0
    } else {
        window_start(stride, (k - 1) as nat) + stride
    }
}

/// One past the last sample of chunk number `k`.
pub open spec fn window_end(total: nat, chunk: nat, stride: nat, k: nat) -> nat {
    let s = window_start(stride, k) + chunk;
    if s < total {
        s
    } else {
        total
    }
}

/// Whether chunk number `k` is transcribed: it starts inside the audio and
/// holds at least [`MIN_WINDOW_SAMPLES`] samples.
pub open spec fn window_transcribed(total: nat, chunk: nat, stride: nat, k: nat) -> bool {
    &&& window_start(stride, k) < total
    &&& window_end(total, chunk, stride, k) - window_start(stride, k) >= MIN_WINDOW_SAMPLES
}

/// Transcription of long audio in overlapping chunks. The caller asks for the
/// next chunk, recognizes it, and hands the segments back; the plan decides
/// where chunks lie, when to stop, and which segments to keep.
pub struct ChunkedTranscription {
    total: usize,
    chunk: usize,
    overlap: usize,
    overlap_centis: i64,
    index: usize,
    pos: usize,
    segments: Vec<Segment>,
    parts: Ghost<Seq<Seq<Segment>>>,
}

impl ChunkedTranscription {
    /// Number of samples of the audio.
    pub closed spec fn total(&self) -> nat {
        self.total as nat
    }

    /// Length of a chunk, in samples.
    pub closed spec fn chunk(&self) -> nat {
        self.chunk as nat
    }

    /// Samples that neighbouring chunks share.
    pub closed spec fn overlap(&self) -> nat {
        self.overlap as nat
    }

    /// The overlap in hundredths of a second.
    pub closed spec fn overlap_centis(&self) -> int {
        self.overlap_centis as int
    }

    /// The segments recognized so far, one list per transcribed chunk.
    pub closed spec fn parts(&self) -> Seq<Seq<Segment>> {
        self.parts@
    }

    /// Distance in samples between the starts of neighbouring chunks.
    pub open spec fn stride(&self) -> nat {
        (self.chunk() - self.overlap()) as nat
    }

    /// Number of chunks transcribed so far.
    pub open spec fn done(&self) -> nat {
        self.parts().len()
    }

    /// Whether chunk number `k` of this plan is transcribed.
    pub open spec fn transcribes(&self, k: nat) -> bool {
        window_transcribed(self.total(), self.chunk(), self.stride(), k)
    }

    /// The plan's internal consistency, which every operation keeps.
    pub closed spec fn wf(&self) -> bool {
        &&& self.overlap < self.chunk || self.chunk == 0
        &&& self.overlap == self.overlap_centis * SAMPLES_PER_CENTI
        &&& self.overlap_centis >= 0
        &&& self.total + self.chunk <= usize::MAX
        &&& self.index as nat == self.parts@.len()
        &&& self.pos as nat == window_start(self.stride(), self.index as nat)
        &&& self.index > 0 ==> self.transcribes((self.index - 1) as nat)
        &&& self.segments@ == merged_segments(self.parts@, self.overlap_centis as int)
    }

    /// A plan for `total_samples` samples in chunks of `chunk_centis`
    /// hundredths of a second, neighbouring chunks sharing `overlap_centis`.
    pub fn new(total_samples: usize, chunk_centis: usize, overlap_centis: usize) -> (r: Self)
        requires
            overlap_centis < chunk_centis || chunk_centis == 0,
            chunk_centis * SAMPLES_PER_CENTI + total_samples <= usize::MAX,
        ensures
            r.wf(),
            r.total() == total_samples,
            r.chunk() == chunk_centis * SAMPLES_PER_CENTI,
            chunk_centis > 0 ==> r.overlap() == overlap_centis * SAMPLES_PER_CENTI,
            chunk_centis > 0 ==> r.overlap_centis() == overlap_centis,
            r.parts() == Seq::<Seq<Segment>>::empty(),
    {
        let chunk = chunk_centis * SAMPLES_PER_CENTI;
        let overlap = if chunk_centis == 0 { 0 } else { overlap_centis * SAMPLES_PER_CENTI };
        ChunkedTranscription {
            total: total_samples,
            chunk,
            overlap,
            overlap_centis: if chunk_centis == 0 { 0 } else { overlap_centis as i64 },
            index: 0,
            pos: 0,
            segments: Vec::new(),
            parts: Ghost(Seq::empty()),
        }
    }

    /// The next chunk to transcribe, as the range of its samples, or `None`
    /// when the work is over: the caller asked to stop, the audio is used up,
    /// or what remains is shorter than [`MIN_WINDOW_SAMPLES`].
    pub fn next_window(&self, cancelled: bool) -> (r: Option<(usize, usize)>)
        requires
            self.wf(),
        ensures
            r == (if !cancelled && self.transcribes(self.done()) {
                Some(
                    (
                        window_start(self.stride(), self.done()) as usize,
                        window_end(self.total(), self.chunk(), self.stride(), self.done()) as usize,
                    ),
                )
            } else {
                None::<(usize, usize)>
            }),
    {
        if cancelled || self.pos >= self.total {
            return None;
        }
        let end = if self.pos + self.chunk < self.total {
            self.pos + self.chunk
        } else {
            self.total
        };
        if end - self.pos < MIN_WINDOW_SAMPLES {
            return None;
        }
        Some((self.pos, end))
    }

    /// Records the segments recognized in the current chunk and moves on to
    /// the next one.
    pub fn accept(&mut self, segments: Vec<Segment>)
        requires
            old(self).wf(),
            old(self).transcribes(old(self).done()),
        ensures
            final(self).wf(),
            final(self).parts() == old(self).parts().push(segments@),
            final(self).total() == old(self).total(),
            final(self).chunk() == old(self).chunk(),
            final(self).overlap() == old(self).overlap(),
            final(self).overlap_centis() == old(self).overlap_centis(),
    {
        let ghost old_parts = self.parts@;
        let ghost t = self.overlap_centis as int;
        proof {
            lemma_window_start_at_least(self.stride(), self.index as nat);
        }
        let n = segments.len();
        let mut i: usize = 0;
        while i < n
            invariant
                n == segments@.len(),
                i <= n,
                t == self.overlap_centis as int,
                old_parts == self.parts@,
                self.total == old(self).total,
                self.chunk == old(self).chunk,
                self.overlap == old(self).overlap,
                self.overlap_centis == old(self).overlap_centis,
                self.pos == old(self).pos,
                self.index == old(self).index,
                self.segments@ == merged_segments(old_parts, t) + kept_segments(
                    segments@.take(i as int),
                    self.index as nat,
                    t,
                ),
            decreases n - i,
        {
            let ghost before = self.segments@;
            if self.index == 0 || segments[i].end > self.overlap_centis {
                self.segments.push(copy_segment(&segments[i]));
            }
            proof {
                let tk = segments@.take(i + 1);
                assert(tk.drop_last() =~= segments@.take(i as int));
                assert(tk.last() == segments@[i as int]);
                if self.index == 0 {
                    assert(kept_segments(tk, 0, t) == tk);
                    assert(self.segments@ =~= merged_segments(old_parts, t) + tk);
                } else {
                    assert(self.segments@ =~= merged_segments(old_parts, t) + kept_segments(
                        tk,
                        self.index as nat,
                        t,
                    ));
                }
            }
            i = i + 1;
        }
        proof {
            assert(segments@.take(n as int) =~= segments@);
            let np = old_parts.push(segments@);
            assert(np.drop_last() =~= old_parts);
            assert(np.last() == segments@);
        }
        self.parts = Ghost(old_parts.push(segments@));
        self.pos = self.pos + (self.chunk - self.overlap);
        self.index = self.index + 1;
    }

    /// How far the work has come: samples covered so far (at most the total)
    /// and the total.
    pub fn progress(&self) -> (r: (usize, usize))
        requires
            self.wf(),
        ensures
            r.1 == self.total(),
            r.0 == (if window_start(self.stride(), self.done()) < self.total() {
                window_start(self.stride(), self.done())
            } else {
                self.total()
            }),
    {
        if self.pos < self.total {
            (self.pos, self.total)
        } else {
            (self.total, self.total)
        }
    }

    /// The transcript segments: all of the first chunk, and of each later
    /// chunk those that end after the stretch shared with the chunk before.
    pub fn into_segments(self) -> (r: Vec<Segment>)
        requires
            self.wf(),
        ensures
            r@ == merged_segments(self.parts(), self.overlap_centis()),
    {
        self.segments
    }
}

/// Chunk starts grow by the stride: the start of chunk `k` is at least `k`
/// when the stride is positive.
proof fn lemma_window_start_at_least(stride: nat, k: nat)
    ensures
        stride >= 1 ==> window_start(stride, k) >= k,
        window_start(stride, k) >= 0,
    decreases k,
{
    if k > 0 {
        lemma_window_start_at_least(stride, (k - 1) as nat);
    }
}

/// Chunk starts never decrease.
proof fn lemma_window_start_monotone(stride: nat, j: nat, k: nat)
    requires
        j <= k,
    ensures
        window_start(stride, j) <= window_start(stride, k),
    decreases k - j,
{
    if j < k {
        lemma_window_start_monotone(stride, j, (k - 1) as nat);
    }
}

/// Every transcribed chunk lies inside the audio and holds at least
/// [`MIN_WINDOW_SAMPLES`] and at most `chunk` samples.
pub proof fn lemma_window_inside_audio(total: nat, chunk: nat, stride: nat, k: nat)
    requires
        window_transcribed(total, chunk, stride, k),
    ensures
        window_start(stride, k) < window_end(total, chunk, stride, k) <= total,
        window_end(total, chunk, stride, k) - window_start(stride, k) >= MIN_WINDOW_SAMPLES,
        window_end(total, chunk, stride, k) - window_start(stride, k) <= chunk,
{
}

/// Neighbouring chunks leave no gap between them: the next chunk starts
/// `chunk - overlap` samples after the one before, inside it, and where the
/// earlier chunk does not reach the end of the audio the two share exactly
/// `overlap` samples.
pub proof fn lemma_neighbours_overlap(total: nat, chunk: nat, overlap: nat, k: nat)
    requires
        overlap < chunk,
        window_transcribed(total, chunk, (chunk - overlap) as nat, k + 1),
    ensures
        window_start((chunk - overlap) as nat, k + 1) == window_start((chunk - overlap) as nat, k)
            + chunk - overlap,
        window_start((chunk - overlap) as nat, k + 1) <= window_end(
            total,
            chunk,
            (chunk - overlap) as nat,
            k,
        ),
        window_end(total, chunk, (chunk - overlap) as nat, k) < total ==> window_end(
            total,
            chunk,
            (chunk - overlap) as nat,
            k,
        ) - window_start((chunk - overlap) as nat, k + 1) == overlap,
{
}

/// The transcribed chunks are the first ones: when chunk `k` is transcribed,
/// so is every chunk before it.
pub proof fn lemma_transcribed_prefix(total: nat, chunk: nat, stride: nat, j: nat, k: nat)
    requires
        j <= k,
        window_transcribed(total, chunk, stride, k),
    ensures
        window_transcribed(total, chunk, stride, j),
{
    lemma_window_start_monotone(stride, j, k);
}

/// When the work ends without being cancelled, after `n` chunks, what is left
/// untranscribed at the end of the audio is shorter than
/// [`MIN_WINDOW_SAMPLES`] (given chunks of at least that length): with no
/// chunk at all the whole audio is that short, otherwise the last chunk ends
/// less than that before the end.
pub proof fn lemma_short_tail_left(total: nat, chunk: nat, overlap: nat, n: nat)
    requires
        overlap < chunk,
        chunk >= MIN_WINDOW_SAMPLES,
        !window_transcribed(total, chunk, (chunk - overlap) as nat, n),
        n > 0 ==> window_transcribed(total, chunk, (chunk - overlap) as nat, (n - 1) as nat),
    ensures
        n == 0 ==> total < MIN_WINDOW_SAMPLES,
        n > 0 ==> window_end(total, chunk, (chunk - overlap) as nat, (n - 1) as nat)
            + MIN_WINDOW_SAMPLES > total,
{
}

/// Every chunk after the first contributes only segments that end after the
/// stretch it shares with the chunk before, and all of those, in order: a
/// segment of the shared stretch is never taken twice, and none past it is
/// lost.
pub proof fn lemma_later_chunk_skips_shared_stretch(segs: Seq<Segment>, index: nat, overlap_centis: int)
    requires
        index > 0,
    ensures
        forall|i: int|
            0 <= i < kept_segments(segs, index, overlap_centis).len() ==> #[trigger] kept_segments(
                segs,
                index,
                overlap_centis,
            )[i].end > overlap_centis,
        kept_segments(segs, index, overlap_centis) == segs.filter(
            |s: Segment| s.end > overlap_centis,
        ),
    decreases segs.len(),
{
    let t = overlap_centis;
    if segs.len() > 0 {
        lemma_later_chunk_skips_shared_stretch(segs.drop_last(), index, t);
        let f = |s: Segment| s.end > t;
        segs.drop_last().lemma_filter_push(segs.last(), f);
        assert(segs.drop_last().push(segs.last()) =~= segs);
    } else {
        assert(segs.filter(|s: Segment| s.end > t) =~= Seq::<Segment>::empty());
    }
}

/// The start of chunk `k` is `k` strides into the audio.
pub proof fn lemma_window_start_is_product(stride: nat, k: nat)
    ensures
        window_start(stride, k) == k * stride,
    decreases k,
{
    if k > 0 {
        let km = (k - 1) as nat;
        lemma_window_start_is_product(stride, km);
        assert(km * stride + stride == k * stride) by (nonlinear_arith)
            requires
                km + 1 == k,
        ;
        assert(window_start(stride, k) == window_start(stride, km) + stride);
    } else {
        assert(0 * stride == 0) by (nonlinear_arith);
    }
}

/// How many chunks there are: chunk `k` is transcribed only when it starts at
/// least [`MIN_WINDOW_SAMPLES`] before the end of the audio, so no chunk from
/// number `total / (chunk - overlap) + 1` on is, and audio shorter than half a
/// second gets no chunk at all. The work therefore ends after at most
/// `total / (chunk - overlap) + 1` chunks.
pub proof fn lemma_chunk_count(total: nat, chunk: nat, overlap: nat, k: nat)
    requires
        overlap < chunk,
    ensures
        window_transcribed(total, chunk, (chunk - overlap) as nat, k) ==> k * (chunk - overlap)
            + MIN_WINDOW_SAMPLES <= total,
        k >= total / ((chunk - overlap) as nat) + 1 ==> !window_transcribed(
            total,
            chunk,
            (chunk - overlap) as nat,
            k,
        ),
        total < MIN_WINDOW_SAMPLES ==> !window_transcribed(total, chunk, (chunk - overlap) as nat, k),
{
    let stride = (chunk - overlap) as nat;
    lemma_window_start_is_product(stride, k);
    if k >= total / stride + 1 {
        assert(k * stride > total) by (nonlinear_arith)
            requires
                stride >= 1,
                k >= total / stride + 1,
        {
            assert(total < (total / stride + 1) * stride);
            assert(k * stride >= (total / stride + 1) * stride);
        }
    }
}

/// A plan never holds more chunks than [`lemma_chunk_count`] allows: with
/// chunks of positive length, at most `total / stride + 1` are transcribed,
/// so driving the plan until `next_window` answers `None` ends.
pub proof fn lemma_plan_done_bounded(plan: &ChunkedTranscription)
    requires
        plan.wf(),
    ensures
        plan.chunk() > 0 ==> plan.done() <= plan.total() / plan.stride() + 1,
        plan.chunk() > 0 && plan.done() >= plan.total() / plan.stride() + 1 ==> !plan.transcribes(
            plan.done(),
        ),
{
    if plan.chunk() > 0 {
        let n = plan.done();
        lemma_chunk_count(plan.total(), plan.chunk(), plan.overlap(), n);
        if n > 0 {
            lemma_chunk_count(plan.total(), plan.chunk(), plan.overlap(), (n - 1) as nat);
        }
    }
}

/// The sizes of a plan fit the machine: the audio plus one chunk fits in a
/// `usize`, so every chunk start and end that `next_window` reports is the
/// exact position (no `as usize` in its contract cuts anything off), and the
/// overlap is shorter than a chunk.
pub proof fn lemma_plan_bounds(plan: &ChunkedTranscription)
    requires
        plan.wf(),
    ensures
        plan.total() + plan.chunk() <= usize::MAX,
        plan.overlap() < plan.chunk() || plan.chunk() == 0,
        plan.transcribes(plan.done()) ==> window_end(
            plan.total(),
            plan.chunk(),
            plan.stride(),
            plan.done(),
        ) <= plan.total() && window_start(plan.stride(), plan.done()) < plan.total(),
{
}

/// Adding one more text to a transcript puts exactly one space and then that
/// text after what was there, whatever the text is.
pub proof fn lemma_joined_texts_push(texts: Seq<Seq<char>>, t: Seq<char>)
    requires
        texts.len() >= 1,
    ensures
        joined_texts(texts.push(t)) == joined_texts(texts) + seq![' '] + t,
{
    assert(texts.push(t).drop_last() =~= texts);
}

/// The transcript of two lists of texts one after the other is the transcript
/// of the first, a space, and the transcript of the second: every text is
/// kept, in order, with one space between neighbours.
pub proof fn lemma_joined_texts_concat(first: Seq<Seq<char>>, second: Seq<Seq<char>>)
    requires
        first.len() >= 1,
        second.len() >= 1,
    ensures
        joined_texts(first + second) == joined_texts(first) + seq![' '] + joined_texts(second),
    decreases second.len(),
{
    if second.len() == 1 {
        assert(first + second =~= first.push(second[0]));
        lemma_joined_texts_push(first, second[0]);
    } else {
        let rest = second.drop_last();
        let t = second.last();
        lemma_joined_texts_concat(first, rest);
        assert(first + second =~= (first + rest).push(t));
        lemma_joined_texts_push(first + rest, t);
        lemma_joined_texts_push(rest, t);
        assert(rest.push(t) =~= second);
    }
}

/// The transcript of one text is that text, and of no text is empty.
pub proof fn lemma_joined_texts_small(t: Seq<char>)
    ensures
        joined_texts(Seq::<Seq<char>>::empty()) == Seq::<char>::empty(),
        joined_texts(seq![t]) == t,
{
}

/// How the segments of the chunks are merged: the first chunk gives all of
/// its segments, and every later chunk (the second, the third and each one
/// after) adds exactly those of its segments that end after the stretch it
/// shares with the chunk before, in their order.
pub proof fn lemma_merge_adds_chunk(parts: Seq<Seq<Segment>>, segs: Seq<Segment>, overlap_centis: int)
    ensures
        parts.len() == 0 ==> merged_segments(parts.push(segs), overlap_centis) == segs,
        parts.len() >= 1 ==> merged_segments(parts.push(segs), overlap_centis) == merged_segments(
            parts,
            overlap_centis,
        ) + segs.filter(|s: Segment| s.end > overlap_centis),
{
    let np = parts.push(segs);
    assert(np.drop_last() =~= parts);
    assert(np.last() == segs);
    if parts.len() == 0 {
        assert(merged_segments(parts, overlap_centis) =~= Seq::<Segment>::empty());
        assert(Seq::<Segment>::empty() + segs =~= segs);
    } else {
        lemma_later_chunk_skips_shared_stretch(segs, parts.len(), overlap_centis);
    }
}

/// Which chunks are transcribed, for chunks of at least
/// [`MIN_WINDOW_SAMPLES`]: exactly those that start at least that many
/// samples before the end of the audio; each ends a chunk's length after its
/// start, or at the end of the audio if that comes first.
pub proof fn lemma_which_chunks_are_transcribed(total: nat, chunk: nat, stride: nat, k: nat)
    requires
        chunk >= MIN_WINDOW_SAMPLES,
    ensures
        window_transcribed(total, chunk, stride, k) <==> k * stride + MIN_WINDOW_SAMPLES <= total,
        window_end(total, chunk, stride, k) == (if k * stride + chunk < total {
            (k * stride + chunk) as int
        } else {
            total as int
        }),
{
    lemma_window_start_is_product(stride, k);
}

} // verus!
