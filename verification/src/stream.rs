//! The stream of samples of a seekable source: how the packets that a
//! demuxer reads and a decoder decodes become the samples that a sink
//! consumes, one by one.
//!
//! A [`SampleStream`] touches neither demuxer nor decoder. It is told what
//! happened (a [`StreamEvent`]) and answers with what it wants done next (a
//! [`StreamRequest`]). Whoever owns the demuxer and the decoder serves a
//! consumer that asks for a sample like this:
//!
//! ```text
//! let mut request = stream.step(StreamEvent::Pulled);
//! loop {
//!     match request {
//!         StreamRequest::Yield(sample) => return Some(sample),
//!         StreamRequest::End => return None,
//!         other => request = stream.step(perform(other)),
//!     }
//! }
//! ```

use vstd::prelude::*;

verus! {

/// What the consumer or the decoding side reports to a [`SampleStream`].
#[derive(Clone, Debug, PartialEq, Eq)]
pub enum StreamEvent {
    /// The consumer asks for the next sample.
    Pulled,
    /// The demuxer read a packet; it belongs to the track of this id.
    PacketRead { track_id: u32 },
    /// The demuxer has no further packet, or failed to read one.
    ReadFailed,
    /// The decoder turned the packet into these interleaved samples.
    Decoded(Vec<i16>),
    /// The decoder could not decode the packet.
    DecodeFailed,
}

/// What a [`SampleStream`] wants done next.
#[derive(Clone, Copy, Debug, PartialEq, Eq, Structural)]
pub enum StreamRequest {
    /// Hand this sample to the consumer.
    Yield(i16),
    /// Tell the consumer that the stream is over.
    End,
    /// Have the demuxer read the next packet.
    ReadPacket,
    /// Have the decoder decode the packet that was read.
    DecodePacket,
}

/// The samples of the packet decoded last, and how far they were consumed.
#[derive(Clone, Debug, PartialEq, Eq)]
pub struct SampleStream {
    /// The track whose packets are decoded.
    pub track_id: u32,
    pub samples: Vec<i16>,
    /// Number of samples of `samples` that were handed out.
    pub cursor: usize,
}

/// A [`StreamEvent`] as contracts speak of it.
pub enum Signal {
    Pulled,
    PacketRead { track_id: u32 },
    ReadFailed,
    Decoded(Seq<i16>),
    DecodeFailed,
}

/// A [`SampleStream`] as contracts speak of it.
pub struct StreamState {
    /// The track whose packets are decoded.
    pub track_id: u32,
    /// The samples that are decoded and not yet handed out.
    pub buffered: Seq<i16>,
}

impl View for StreamEvent {
    type V = Signal;

    open spec fn view(&self) -> Signal {
        match *self {
            StreamEvent::Pulled => Signal::Pulled,
            StreamEvent::PacketRead { track_id } => Signal::PacketRead { track_id },
            StreamEvent::ReadFailed => Signal::ReadFailed,
            StreamEvent::Decoded(samples) => Signal::Decoded(samples@),
            StreamEvent::DecodeFailed => Signal::DecodeFailed,
        }
    }
}

impl View for SampleStream {
    type V = StreamState;

    open spec fn view(&self) -> StreamState {
        StreamState {
            track_id: self.track_id,
            buffered: if self.cursor <= self.samples@.len() {
                self.samples@.skip(self.cursor as int)
            } else {
                Seq::empty()
            },
        }
    }
}

impl StreamState {
    /// What the stream asks for when it is told `signal`.
    ///
    /// A pull is served from the buffer while it lasts and makes the demuxer
    /// read when it is empty. Packets of other tracks and packets that fail
    /// to decode are passed over. Freshly decoded samples replace the buffer
    /// and the first of them is handed out; an empty packet is passed over.
    /// The stream ends when the demuxer has nothing more to read.
    pub open spec fn request_for(self, signal: Signal) -> StreamRequest {
        match signal {
            Signal::Pulled => if self.buffered.len() > 0 {
                StreamRequest::Yield(self.buffered[0])
            } else {
                StreamRequest::ReadPacket
            },
            Signal::PacketRead { track_id } => if track_id == self.track_id {
                StreamRequest::DecodePacket
            } else {
                StreamRequest::ReadPacket
            },
            Signal::ReadFailed => StreamRequest::End,
            Signal::Decoded(samples) => if samples.len() > 0 {
                StreamRequest::Yield(samples[0])
            } else {
                StreamRequest::ReadPacket
            },
            Signal::DecodeFailed => StreamRequest::ReadPacket,
        }
    }

    /// The stream after it was told `signal`.
    pub open spec fn after(self, signal: Signal) -> StreamState {
        match signal {
            Signal::Pulled => if self.buffered.len() > 0 {
                StreamState { buffered: self.buffered.skip(1), ..self }
            } else {
                self
            },
            Signal::Decoded(samples) => if samples.len() > 0 {
                StreamState { buffered: samples.skip(1), ..self }
            } else {
                StreamState { buffered: samples, ..self }
            },
            _ => self,
        }
    }
}

impl SampleStream {
    /// A stream of the packets of track `track_id`, with nothing decoded
    /// yet.
    pub fn new(track_id: u32) -> (stream: SampleStream)
        ensures
            stream@ == (StreamState { track_id, buffered: Seq::empty() }),
    {
        let stream = SampleStream { track_id, samples: Vec::new(), cursor: 0 };
        assert(stream@.buffered =~= Seq::<i16>::empty());
        stream
    }

    /// Number of samples that can be handed out before the next packet has
    /// to be decoded.
    pub fn current_frame_len(&self) -> (len: usize)
        ensures
            len == self@.buffered.len(),
    {
        if self.cursor <= self.samples.len() {
            self.samples.len() - self.cursor
        } else {
            0
        }
    }

    /// Tells the stream what happened and returns what it wants done next.
    pub fn step(&mut self, event: StreamEvent) -> (request: StreamRequest)
        ensures
            request == old(self)@.request_for(event@),
            final(self)@ == old(self)@.after(event@),
    {
        match event {
            StreamEvent::Pulled => {
                if self.cursor < self.samples.len() {
                    let sample: i16 = self.samples[self.cursor];
                    self.cursor += 1;
                    assert(self@.buffered =~= old(self)@.buffered.skip(1));
                    StreamRequest::Yield(sample)
                } else {
                    StreamRequest::ReadPacket
                }
            },
            StreamEvent::PacketRead { track_id } => {
                if track_id == self.track_id {
                    StreamRequest::DecodePacket
                } else {
                    StreamRequest::ReadPacket
                }
            },
            StreamEvent::ReadFailed => StreamRequest::End,
            StreamEvent::Decoded(samples) => {
                self.samples = samples;
                if self.samples.len() > 0 {
                    self.cursor = 1;
                    StreamRequest::Yield(self.samples[0])
                } else {
                    self.cursor = 0;
                    assert(self@.buffered =~= self.samples@);
                    StreamRequest::ReadPacket
                }
            },
            StreamEvent::DecodeFailed => StreamRequest::ReadPacket,
        }
    }
}

/// What the demuxer and the decoder make of one packet of a file: the track
/// it belongs to and, where it can be decoded, its samples.
pub struct Packet {
    pub track_id: u32,
    pub samples: Option<Seq<i16>>,
}

/// The samples that a packet adds to the stream of track `track_id`: its
/// own, if it belongs to the track and can be decoded.
pub open spec fn contribution(track_id: u32, packet: Packet) -> Seq<i16> {
    match packet.samples {
        Some(samples) => if packet.track_id == track_id {
            samples
        } else {
            Seq::empty()
        },
        None => Seq::empty(),
    }
}

/// The samples of the track `track_id` in a file that holds `packets`: the
/// contributions of the packets, one after the other.
pub open spec fn samples_of(track_id: u32, packets: Seq<Packet>) -> Seq<i16>
    decreases packets.len(),
{
    if packets.len() == 0 {
        Seq::empty()
    } else {
        contribution(track_id, packets[0]) + samples_of(track_id, packets.skip(1))
    }
}

/// How far a request is from a sample or the end, for the same packets and
/// the same buffer.
pub open spec fn rank(request: StreamRequest) -> nat {
    match request {
        StreamRequest::Yield(_) => 3,
        StreamRequest::DecodePacket => 2,
        StreamRequest::ReadPacket => 1,
        StreamRequest::End => 0,
    }
}

/// The signal with which a driver answers `request` when the file still
/// holds `packets` and `held` is the packet read last and not yet decoded.
pub open spec fn answer(
    request: StreamRequest,
    packets: Seq<Packet>,
    held: Option<Packet>,
) -> Signal {
    match request {
        StreamRequest::Yield(_) => Signal::Pulled,
        StreamRequest::End => Signal::Pulled,
        StreamRequest::ReadPacket => if packets.len() > 0 {
            Signal::PacketRead { track_id: packets[0].track_id }
        } else {
            Signal::ReadFailed
        },
        StreamRequest::DecodePacket => match held {
            Some(Packet { samples: Some(samples), .. }) => Signal::Decoded(samples),
            _ => Signal::DecodeFailed,
        },
    }
}

/// All samples that a consumer gets who pulls until the stream ends, from
/// the moment at which the stream asked for `request`: the driver answers
/// each request from the packets that the file still holds, and the consumer
/// pulls again after each sample.
pub open spec fn played(
    stream: StreamState,
    request: StreamRequest,
    packets: Seq<Packet>,
    held: Option<Packet>,
) -> Seq<i16>
    decreases
            2 * packets.len() + (if held is Some {
                1nat
            } else {
                0nat
            }),
            stream.buffered.len(),
            rank(request),
{
    let signal = answer(request, packets, held);
    match request {
        StreamRequest::End => Seq::empty(),
        StreamRequest::Yield(sample) => seq![sample] + played(
            stream.after(signal),
            stream.request_for(signal),
            packets,
            None,
        ),
        StreamRequest::ReadPacket => if packets.len() > 0 {
            played(
                stream.after(signal),
                stream.request_for(signal),
                packets.skip(1),
                Some(packets[0]),
            )
        } else {
            played(stream.after(signal), stream.request_for(signal), packets, None)
        },
        StreamRequest::DecodePacket => played(
            stream.after(signal),
            stream.request_for(signal),
            packets,
            None,
        ),
    }
}

/// Samples leave a stream in the order in which they were decoded, none is
/// lost and none comes twice: a pull hands out the first buffered sample and
/// leaves the rest buffered.
pub proof fn lemma_pull_takes_first_buffered(stream: StreamState)
    requires
        stream.buffered.len() > 0,
    ensures
        stream.request_for(Signal::Pulled) == StreamRequest::Yield(stream.buffered[0]),
        stream.buffered == seq![stream.buffered[0]] + stream.after(Signal::Pulled).buffered,
{
    assert(stream.buffered =~= seq![stream.buffered[0]] + stream.buffered.skip(1));
}

/// A decoded packet is handed out whole: its first sample at once, the
/// others stay buffered in their order.
pub proof fn lemma_decoded_packet_is_kept_whole(stream: StreamState, samples: Seq<i16>)
    requires
        samples.len() > 0,
    ensures
        stream.request_for(Signal::Decoded(samples)) == StreamRequest::Yield(samples[0]),
        samples == seq![samples[0]] + stream.after(Signal::Decoded(samples)).buffered,
{
    assert(samples =~= seq![samples[0]] + samples.skip(1));
}

/// The stream ends only when the demuxer has nothing more to read.
pub proof fn lemma_stream_ends_only_on_failed_read(stream: StreamState, signal: Signal)
    ensures
        stream.request_for(signal) == StreamRequest::End <==> signal == Signal::ReadFailed,
{
}

/// What is still to come from the moment at which a stream asked for
/// `request`, if its driver kept to the requests so far: the sample that it
/// hands out, what it has buffered, what the packet that it has decoded
/// adds, and the samples of its track in the packets that the file still
/// holds.
proof fn lemma_played_from(
    stream: StreamState,
    request: StreamRequest,
    packets: Seq<Packet>,
    held: Option<Packet>,
)
    requires
        request is ReadPacket || request is DecodePacket ==> stream.buffered.len() == 0,
        request is DecodePacket ==> held is Some && held->0.track_id == stream.track_id,
    ensures
        played(stream, request, packets, held) == match request {
            StreamRequest::Yield(sample) => seq![sample] + stream.buffered + samples_of(
                stream.track_id,
                packets,
            ),
            StreamRequest::End => Seq::empty(),
            StreamRequest::ReadPacket => samples_of(stream.track_id, packets),
            StreamRequest::DecodePacket => contribution(stream.track_id, held->0) + samples_of(
                stream.track_id,
                packets,
            ),
        },
    decreases
            2 * packets.len() + (if held is Some {
                1nat
            } else {
                0nat
            }),
            stream.buffered.len(),
            rank(request),
{
    let signal = answer(request, packets, held);
    let next = stream.after(signal);
    let asked = stream.request_for(signal);
    let rest = samples_of(stream.track_id, packets);
    match request {
        StreamRequest::End => {},
        StreamRequest::Yield(sample) => {
            lemma_played_from(next, asked, packets, None);
            if stream.buffered.len() > 0 {
                assert(seq![stream.buffered[0]] + stream.buffered.skip(1) =~= stream.buffered);
                assert(seq![sample] + (seq![stream.buffered[0]] + stream.buffered.skip(1) + rest)
                    =~= seq![sample] + stream.buffered + rest);
            } else {
                assert(seq![sample] + rest =~= seq![sample] + stream.buffered + rest);
            }
        },
        StreamRequest::ReadPacket => {
            if packets.len() > 0 {
                lemma_played_from(next, asked, packets.skip(1), Some(packets[0]));
                if packets[0].track_id != stream.track_id {
                    assert(contribution(stream.track_id, packets[0]) + samples_of(
                        stream.track_id,
                        packets.skip(1),
                    ) =~= samples_of(stream.track_id, packets.skip(1)));
                }
            } else {
                lemma_played_from(next, asked, packets, None);
            }
        },
        StreamRequest::DecodePacket => {
            lemma_played_from(next, asked, packets, None);
            match held->0.samples {
                Some(samples) => {
                    if samples.len() > 0 {
                        assert(seq![samples[0]] + samples.skip(1) + rest =~= samples + rest);
                    } else {
                        assert(rest =~= samples + rest);
                    }
                },
                None => {
                    assert(rest =~= Seq::<i16>::empty() + rest);
                },
            }
        },
    }
}

/// Driven by the packets of a file, a stream hands its consumer exactly the
/// samples of its track and then ends: first what it has buffered, then the
/// samples of every packet of the track that can be decoded, in the order of
/// the file. Packets of other tracks, packets that cannot be decoded and
/// empty packets add nothing, and nothing is lost or repeated.
pub proof fn lemma_stream_plays_its_track(stream: StreamState, packets: Seq<Packet>)
    ensures
        played(
            stream.after(Signal::Pulled),
            stream.request_for(Signal::Pulled),
            packets,
            None,
        ) == stream.buffered + samples_of(stream.track_id, packets),
{
    lemma_played_from(
        stream.after(Signal::Pulled),
        stream.request_for(Signal::Pulled),
        packets,
        None,
    );
    let rest = samples_of(stream.track_id, packets);
    if stream.buffered.len() > 0 {
        assert(seq![stream.buffered[0]] + stream.buffered.skip(1) + rest =~= stream.buffered
            + rest);
    } else {
        assert(rest =~= stream.buffered + rest);
    }
}

} // verus!
