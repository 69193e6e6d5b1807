use vi_music::source::{
    plan_stream, seek_timestamp, select_track, stream_spec, StreamPlan, StreamSpec,
    TrackDescriptor, DEFAULT_CHANNELS, DEFAULT_SAMPLE_RATE,
};

fn track(id: u32, decodable: bool, rate: Option<u32>, channels: Option<u16>) -> TrackDescriptor {
    TrackDescriptor { id, decodable, sample_rate: rate, channels }
}

#[test]
fn first_decodable_track_is_selected() {
    let tracks = vec![
        track(1, false, None, None),
        track(2, true, Some(48_000), Some(1)),
        track(3, true, Some(96_000), Some(6)),
    ];
    assert_eq!(select_track(&tracks), Some(1));
    assert_eq!(select_track(&vec![track(7, true, None, None)]), Some(0));
}

#[test]
fn no_track_is_selected_without_a_decodable_one() {
    assert_eq!(select_track(&vec![]), None);
    assert_eq!(
        select_track(&vec![track(1, false, Some(44_100), Some(2)), track(2, false, None, None)]),
        None
    );
}

#[test]
fn stream_spec_uses_defaults_for_missing_metadata() {
    assert_eq!(DEFAULT_SAMPLE_RATE, 44_100);
    assert_eq!(DEFAULT_CHANNELS, 2);
    assert_eq!(
        stream_spec(&track(5, true, None, None)),
        StreamSpec { track_id: 5, sample_rate: 44_100, channels: 2 }
    );
    assert_eq!(
        stream_spec(&track(5, true, Some(96_000), None)),
        StreamSpec { track_id: 5, sample_rate: 96_000, channels: 2 }
    );
    assert_eq!(
        stream_spec(&track(5, true, None, Some(1))),
        StreamSpec { track_id: 5, sample_rate: 44_100, channels: 1 }
    );
    assert_eq!(
        stream_spec(&track(0, true, Some(8_000), Some(6))),
        StreamSpec { track_id: 0, sample_rate: 8_000, channels: 6 }
    );
}

#[test]
fn seek_timestamp_is_seconds_times_rate() {
    assert_eq!(seek_timestamp(1, 44_100), Some(44_100));
    assert_eq!(seek_timestamp(3, 44_100), Some(132_300));
    assert_eq!(seek_timestamp(90, 48_000), Some(4_320_000));
    assert_eq!(seek_timestamp(5, 0), Some(0));
}

#[test]
fn no_seek_for_the_start_of_the_track() {
    assert_eq!(seek_timestamp(0, 44_100), None);
    assert_eq!(seek_timestamp(0, 0), None);
}

#[test]
fn no_seek_where_the_timestamp_does_not_fit() {
    assert_eq!(seek_timestamp(u64::MAX, 2), None);
    assert_eq!(seek_timestamp(u64::MAX, 1), Some(u64::MAX));
    assert_eq!(seek_timestamp(u64::MAX / 44_100, 44_100), Some((u64::MAX / 44_100) * 44_100));
    assert_eq!(seek_timestamp(u64::MAX / 44_100 + 1, 44_100), None);
}

#[test]
fn plan_for_a_container() {
    let tracks = vec![track(9, false, None, None), track(4, true, Some(48_000), None)];
    assert_eq!(
        plan_stream(&tracks, 10),
        Some(StreamPlan {
            track_index: 1,
            spec: StreamSpec { track_id: 4, sample_rate: 48_000, channels: 2 },
            seek_to: Some(480_000),
        })
    );
    assert_eq!(
        plan_stream(&tracks, 0),
        Some(StreamPlan {
            track_index: 1,
            spec: StreamSpec { track_id: 4, sample_rate: 48_000, channels: 2 },
            seek_to: None,
        })
    );
}

#[test]
fn plan_seeks_by_the_default_rate_when_none_is_stated() {
    let tracks = vec![track(0, true, None, Some(2))];
    assert_eq!(plan_stream(&tracks, 2).unwrap().seek_to, Some(88_200));
}

#[test]
fn no_plan_without_decodable_track() {
    assert_eq!(plan_stream(&vec![], 3), None);
    assert_eq!(plan_stream(&vec![track(1, false, Some(1), Some(1))], 3), None);
}
