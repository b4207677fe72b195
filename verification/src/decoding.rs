//! Decisions of decoding an audio file packet by packet: which track is
//! read, what format is assumed where the file says nothing, and what each
//! packet, decoded buffer or error leads to.

use vstd::prelude::*;
use crate::config::SAMPLE_RATE;

verus! {

/// Channels assumed when the file does not say.
pub const DEFAULT_CHANNELS: u32 = 1;

/// The sample rate and channel count of the decoded audio: what the track
/// declares, else 16000 Hz and one channel.
pub fn source_format(rate: Option<u32>, channels: Option<u32>) -> (r: (u32, u32))
    ensures
        r.0 == (match rate {
            Some(hz) => hz,
            None => SAMPLE_RATE,
        }),
        r.1 == (match channels {
            Some(c) => c,
            None => DEFAULT_CHANNELS,
        }),
{
    let hz = match rate {
        Some(hz) => hz,
        None => SAMPLE_RATE,
    };
    let c = match channels {
        Some(c) => c,
        None => DEFAULT_CHANNELS,
    };
    (hz, c)
}

/// The track to decode: the first one that has a codec (`codec_missing[i]`
/// tells whether track `i` has none), or `None` when no track has one.
pub fn first_audio_track(codec_missing: &[bool]) -> (r: Option<usize>)
    ensures
        r is None <==> forall|j: int| 0 <= j < codec_missing@.len() ==> #[trigger] codec_missing@[j],
        r matches Some(i) ==> {
            &&& i < codec_missing@.len()
            &&& !codec_missing@[i as int]
            &&& forall|j: int| 0 <= j < i ==> #[trigger] codec_missing@[j]
        },
{
    let n = codec_missing.len();
    let mut i: usize = 0;
    while i < n
        invariant
            n == codec_missing@.len(),
            i <= n,
            forall|j: int| 0 <= j < i ==> #[trigger] codec_missing@[j],
        decreases n - i,
    {
        if !codec_missing[i] {
            return Some(i);
        }
        i = i + 1;
    }
    None
}

/// What the decoding loop has just learned.
pub enum DecodeEvent {
    /// A packet of the track `track_id` was read.
    Packet { track_id: u32 },
    /// The file ended.
    EndOfStream,
    /// The reader asked for a reset of the decoder.
    ResetRequired,
    /// Reading failed for another reason.
    ReadFailed,
    /// The decoder turned the packet into samples.
    Decoded,
    /// The decoder failed; `recoverable` when only this packet was bad.
    DecodeFailed { recoverable: bool },
}

/// What the decoding loop does next.
pub enum DecodeAction {
    /// Hand the packet to the decoder.
    DecodePacket,
    /// Read the next packet.
    NextPacket,
    /// Append the decoded samples, then read the next packet.
    AppendSamples,
    /// Stop: all the audio has been read.
    Finish,
    /// Fail with a read error.
    FailRead,
    /// Fail with a decoder error.
    FailDecode,
}

/// The answer to an event when the track `track_id` is the one decoded.
pub open spec fn decode_reaction(track_id: u32, event: DecodeEvent) -> DecodeAction {
    match event {
        DecodeEvent::Packet { track_id: t } => if t == track_id {
            DecodeAction::DecodePacket
        } else {
            DecodeAction::NextPacket
        },
        DecodeEvent::EndOfStream => DecodeAction::Finish,
        DecodeEvent::ResetRequired => DecodeAction::NextPacket,
        DecodeEvent::ReadFailed => DecodeAction::FailRead,
        DecodeEvent::Decoded => DecodeAction::AppendSamples,
        DecodeEvent::DecodeFailed { recoverable } => if recoverable {
            DecodeAction::NextPacket
        } else {
            DecodeAction::FailDecode
        },
    }
}

/// One step of the decoding loop for the track `track_id`.
pub fn decode_step(track_id: u32, event: DecodeEvent) -> (r: DecodeAction)
    ensures
        r == decode_reaction(track_id, event),
{
    match event {
        DecodeEvent::Packet { track_id: t } => {
            if t == track_id {
                DecodeAction::DecodePacket
            } else {
                DecodeAction::NextPacket
            }
        },
        DecodeEvent::EndOfStream => DecodeAction::Finish,
        DecodeEvent::ResetRequired => DecodeAction::NextPacket,
        DecodeEvent::ReadFailed => DecodeAction::FailRead,
        DecodeEvent::Decoded => DecodeAction::AppendSamples,
        DecodeEvent::DecodeFailed { recoverable } => {
            if recoverable {
                DecodeAction::NextPacket
            } else {
                DecodeAction::FailDecode
            }
        },
    }
}

/// Appends a decoded block to the samples read so far.
pub fn append_samples<T: Copy>(all: &mut Vec<T>, block: &[T])
    ensures
        final(all)@ == old(all)@ + block@,
{
    let n = block.len();
    let ghost start = all@;
    let mut i: usize = 0;
    while i < n
        invariant
            n == block@.len(),
            i <= n,
            all@ == start + block@.take(i as int),
        decreases n - i,
    {
        all.push(block[i]);
        proof {
            assert(block@.take(i + 1) =~= block@.take(i as int).push(block@[i as int]));
        }
        i = i + 1;
    }
    proof {
        assert(block@.take(n as int) =~= block@);
    }
}

/// Only packets of the chosen track reach the decoder; samples are added
/// only from a decoded packet; the loop ends normally only at the end of the
/// file; a bad packet or a reset is skipped, and every other error fails.
pub proof fn lemma_decoding_keeps_to_its_track(track_id: u32, event: DecodeEvent)
    ensures
        decode_reaction(track_id, event) is DecodePacket <==> event == (DecodeEvent::Packet {
            track_id,
        }),
        decode_reaction(track_id, event) is AppendSamples <==> event is Decoded,
        decode_reaction(track_id, event) is Finish <==> event is EndOfStream,
        (decode_reaction(track_id, event) is FailRead || decode_reaction(track_id, event) is FailDecode)
            <==> (event is ReadFailed || event == (DecodeEvent::DecodeFailed { recoverable: false })),
{
}

/// A read error fails as a read error and an unrecoverable decoder error as
/// a decoder error; a packet of another track, a reset or a bad packet only
/// moves on to the next packet.
pub proof fn lemma_decoding_errors_keep_their_kind(track_id: u32, other: u32)
    requires
        other != track_id,
    ensures
        decode_reaction(track_id, DecodeEvent::ReadFailed) is FailRead,
        decode_reaction(track_id, DecodeEvent::DecodeFailed { recoverable: false }) is FailDecode,
        decode_reaction(track_id, DecodeEvent::Packet { track_id: other }) is NextPacket,
        decode_reaction(track_id, DecodeEvent::ResetRequired) is NextPacket,
        decode_reaction(track_id, DecodeEvent::DecodeFailed { recoverable: true }) is NextPacket,
{
}

} // verus!
