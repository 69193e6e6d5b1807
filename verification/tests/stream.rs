use vi_music::stream::{SampleStream, StreamEvent, StreamRequest};

#[test]
fn new_stream_has_nothing_buffered() {
    let stream = SampleStream::new(3);
    assert_eq!(stream.track_id, 3);
    assert_eq!(stream.current_frame_len(), 0);
}

#[test]
fn pull_on_empty_buffer_asks_for_a_packet() {
    let mut stream = SampleStream::new(3);
    assert_eq!(stream.step(StreamEvent::Pulled), StreamRequest::ReadPacket);
    assert_eq!(stream.current_frame_len(), 0);
}

#[test]
fn packets_of_other_tracks_are_passed_over() {
    let mut stream = SampleStream::new(3);
    assert_eq!(stream.step(StreamEvent::PacketRead { track_id: 2 }), StreamRequest::ReadPacket);
    assert_eq!(stream.step(StreamEvent::PacketRead { track_id: 3 }), StreamRequest::DecodePacket);
}

#[test]
fn undecodable_packets_are_passed_over() {
    let mut stream = SampleStream::new(3);
    assert_eq!(stream.step(StreamEvent::DecodeFailed), StreamRequest::ReadPacket);
}

#[test]
fn failed_read_ends_the_stream() {
    let mut stream = SampleStream::new(3);
    assert_eq!(stream.step(StreamEvent::ReadFailed), StreamRequest::End);
    assert_eq!(stream.step(StreamEvent::Pulled), StreamRequest::ReadPacket);
}

#[test]
fn decoded_samples_come_out_in_order() {
    let mut stream = SampleStream::new(3);
    assert_eq!(stream.step(StreamEvent::Decoded(vec![10, -20, 30])), StreamRequest::Yield(10));
    assert_eq!(stream.current_frame_len(), 2);
    assert_eq!(stream.step(StreamEvent::Pulled), StreamRequest::Yield(-20));
    assert_eq!(stream.current_frame_len(), 1);
    assert_eq!(stream.step(StreamEvent::Pulled), StreamRequest::Yield(30));
    assert_eq!(stream.current_frame_len(), 0);
    assert_eq!(stream.step(StreamEvent::Pulled), StreamRequest::ReadPacket);
}

#[test]
fn empty_packets_are_passed_over() {
    let mut stream = SampleStream::new(3);
    assert_eq!(stream.step(StreamEvent::Decoded(vec![])), StreamRequest::ReadPacket);
    assert_eq!(stream.current_frame_len(), 0);
}

#[test]
fn other_events_leave_the_buffer_alone() {
    let mut stream = SampleStream::new(3);
    stream.step(StreamEvent::Decoded(vec![1, 2, 3]));
    stream.step(StreamEvent::PacketRead { track_id: 3 });
    stream.step(StreamEvent::PacketRead { track_id: 8 });
    stream.step(StreamEvent::DecodeFailed);
    stream.step(StreamEvent::ReadFailed);
    assert_eq!(stream.current_frame_len(), 2);
    assert_eq!(stream.step(StreamEvent::Pulled), StreamRequest::Yield(2));
}

fn drain(stream: &mut SampleStream, packets: Vec<Result<(u32, Option<Vec<i16>>), ()>>) -> Vec<i16> {
    let mut out = Vec::new();
    let mut packets = packets.into_iter();
    let mut pending: Option<Vec<i16>> = None;
    loop {
        let mut request = stream.step(StreamEvent::Pulled);
        loop {
            match request {
                StreamRequest::Yield(sample) => {
                    out.push(sample);
                    break;
                }
                StreamRequest::End => return out,
                StreamRequest::ReadPacket => {
                    request = match packets.next() {
                        Some(Ok((track_id, samples))) => {
                            pending = samples;
                            stream.step(StreamEvent::PacketRead { track_id })
                        }
                        _ => stream.step(StreamEvent::ReadFailed),
                    };
                }
                StreamRequest::DecodePacket => {
                    request = match pending.take() {
                        Some(samples) => stream.step(StreamEvent::Decoded(samples)),
                        None => stream.step(StreamEvent::DecodeFailed),
                    };
                }
            }
        }
    }
}

#[test]
fn stream_is_the_accepted_packets_in_order() {
    let mut stream = SampleStream::new(1);
    let samples = drain(
        &mut stream,
        vec![
            Ok((1, Some(vec![1, 2]))),
            Ok((2, Some(vec![99, 98]))),
            Ok((1, None)),
            Ok((1, Some(vec![]))),
            Ok((1, Some(vec![3]))),
            Ok((1, Some(vec![4, 5, 6]))),
        ],
    );
    assert_eq!(samples, vec![1, 2, 3, 4, 5, 6]);
}

#[test]
fn stream_of_nothing_is_empty() {
    let mut stream = SampleStream::new(1);
    assert_eq!(drain(&mut stream, vec![]), Vec::<i16>::new());
    let mut stream = SampleStream::new(1);
    assert_eq!(drain(&mut stream, vec![Ok((1, Some(vec![7]))), Err(()), Ok((1, Some(vec![8])))]), vec![7]);
}
