//! The seekable audio source: which track of a container is decoded, at
//! which rate, and from which timestamp.
//!
//! The demuxer and the decoder are outside this library. What they report
//! of a container is handed over as plain values; how the source is set up
//! is decided here. How its packets become a stream of samples is the
//! matter of [`crate::stream`].

use vstd::prelude::*;

verus! {

/// The sample rate assumed for a track that does not state one, in hertz.
pub const DEFAULT_SAMPLE_RATE: u32 = 44100;

/// The channel count assumed for a track that does not state one.
pub const DEFAULT_CHANNELS: u16 = 2;

/// What a demuxer reports of one track of a container.
#[derive(Clone, Copy, Debug, PartialEq, Eq, Structural)]
pub struct TrackDescriptor {
    pub id: u32,
    /// Whether the track names a codec, so that a decoder can be made for it.
    pub decodable: bool,
    /// Samples per second and channel, where stated.
    pub sample_rate: Option<u32>,
    /// Number of channels, where stated.
    pub channels: Option<u16>,
}

/// The shape of the sample stream that a source produces.
#[derive(Clone, Copy, Debug, PartialEq, Eq, Structural)]
pub struct StreamSpec {
    pub track_id: u32,
    pub sample_rate: u32,
    pub channels: u16,
}

/// How a source is set up for a container.
#[derive(Clone, Copy, Debug, PartialEq, Eq, Structural)]
pub struct StreamPlan {
    /// Position, among the container's tracks, of the track to decode.
    pub track_index: usize,
    pub spec: StreamSpec,
    /// The timestamp, in samples of the track, that the demuxer seeks to
    /// before decoding begins; none to decode from the start.
    pub seek_to: Option<u64>,
}

/// Whether `index` is the position of the first decodable track.
pub open spec fn is_first_decodable(tracks: Seq<TrackDescriptor>, index: int) -> bool {
    &&& 0 <= index < tracks.len()
    &&& tracks[index].decodable
    &&& forall|j: int| 0 <= j < index ==> !(#[trigger] tracks[j]).decodable
}

/// Whether no track is decodable.
pub open spec fn none_decodable(tracks: Seq<TrackDescriptor>) -> bool {
    forall|j: int| 0 <= j < tracks.len() ==> !(#[trigger] tracks[j]).decodable
}

/// The stream that decoding `track` produces: its own rate and channel
/// count where it states them, the defaults where it does not.
pub open spec fn spec_of(track: TrackDescriptor) -> StreamSpec {
    StreamSpec {
        track_id: track.id,
        sample_rate: match track.sample_rate {
            Some(rate) => rate,
            None => DEFAULT_SAMPLE_RATE,
        },
        channels: match track.channels {
            Some(count) => count,
            None => DEFAULT_CHANNELS,
        },
    }
}

/// The timestamp of second `seek_secs` in a track of `sample_rate` samples
/// per second. There is none for the start of the track, which needs no
/// seek, and none where the timestamp does not fit in a `u64`.
pub open spec fn seek_target(seek_secs: u64, sample_rate: u32) -> Option<u64> {
    if seek_secs > 0 && seek_secs * sample_rate <= u64::MAX {
        Some((seek_secs * sample_rate) as u64)
    } else {
        None
    }
}

/// The position of the first decodable track, if there is one.
pub fn select_track(tracks: &Vec<TrackDescriptor>) -> (chosen: Option<usize>)
    ensures
        match chosen {
            Some(index) => is_first_decodable(tracks@, index as int),
            None => none_decodable(tracks@),
        },
{
    let mut i: usize = 0;
    while i < tracks.len()
        invariant
            i <= tracks.len(),
            forall|j: int| 0 <= j < i ==> !(#[trigger] tracks@[j]).decodable,
        decreases tracks.len() - i,
    {
        if tracks[i].decodable {
            return Some(i);
        }
        i += 1;
    }
    None
}

/// The stream that decoding `track` produces.
pub fn stream_spec(track: &TrackDescriptor) -> (spec: StreamSpec)
    ensures
        spec == spec_of(*track),
{
    StreamSpec {
        track_id: track.id,
        sample_rate: match track.sample_rate {
            Some(rate) => rate,
            None => DEFAULT_SAMPLE_RATE,
        },
        channels: match track.channels {
            Some(count) => count,
            None => DEFAULT_CHANNELS,
        },
    }
}

/// The timestamp to seek to for a start at second `seek_secs`.
pub fn seek_timestamp(seek_secs: u64, sample_rate: u32) -> (target: Option<u64>)
    ensures
        target == seek_target(seek_secs, sample_rate),
{
    if seek_secs == 0 {
        None
    } else {
        seek_secs.checked_mul(sample_rate as u64)
    }
}

/// Plans a source for a container with these tracks that starts at second
/// `seek_secs`: the first decodable track is decoded, and there is no plan
/// where no track is decodable.
pub fn plan_stream(tracks: &Vec<TrackDescriptor>, seek_secs: u64) -> (plan: Option<StreamPlan>)
    ensures
        match plan {
            Some(plan) => {
                &&& is_first_decodable(tracks@, plan.track_index as int)
                &&& plan.spec == spec_of(tracks@[plan.track_index as int])
                &&& plan.seek_to == seek_target(seek_secs, plan.spec.sample_rate)
            },
            None => none_decodable(tracks@),
        },
{
    match select_track(tracks) {
        Some(track_index) => {
            let spec = stream_spec(&tracks[track_index]);
            let seek_to = seek_timestamp(seek_secs, spec.sample_rate);
            Some(StreamPlan { track_index, spec, seek_to })
        },
        None => None,
    }
}

} // verus!
