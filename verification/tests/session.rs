use vi_music::clock::{PlaybackClock, Timestamp};
use vi_music::engine::{AudioCommand, Playback};
use vi_music::session::{PlayerStatus, Session, SessionError, TrackInfo, Transport};

fn session_with(paths: &[&str]) -> Session<f32> {
    let mut session = Session::new(1.0);
    session.set_playlist(paths.iter().map(|p| p.to_string()).collect());
    session
}

fn idle_playback() -> Playback<f32> {
    Playback { clock: PlaybackClock::new(), current_path: None, finished: false, speed: 1.0 }
}

#[test]
fn new_session_is_empty_and_stopped() {
    let session: Session<f32> = Session::new(0.75);
    assert!(session.playlist.is_empty());
    assert_eq!(session.current_index, 0);
    assert_eq!(session.current_track, None);
    assert_eq!(session.current_duration, None);
    assert_eq!(session.volume, 0.75);
    assert!(!session.is_playing);
    assert!(!session.is_paused);
}

#[test]
fn error_messages() {
    assert_eq!(SessionError::InvalidIndex.message(), "Invalid track index");
    assert_eq!(SessionError::EmptyPlaylist.message(), "Playlist is empty");
    assert_eq!(SessionError::NothingPlaying.message(), "No track is playing");
}

#[test]
fn play_track_starts_the_track() {
    let mut session = session_with(&["/m/a.mp3", "/m/b.flac"]);
    session.set_volume(0.5);
    let (track, command) = session.play_track(1, Some(12), Some(45)).unwrap();
    assert_eq!(
        track,
        TrackInfo { path: "/m/b.flac".to_string(), name: "b.flac".to_string(), index: 1, duration: Some(45) }
    );
    assert_eq!(command, AudioCommand::Play("/m/b.flac".to_string(), 0.5, 12));
    assert_eq!(session.current_index, 1);
    assert_eq!(session.current_track, Some("b.flac".to_string()));
    assert_eq!(session.current_duration, Some(45));
    assert!(session.is_playing);
    assert!(!session.is_paused);
}

#[test]
fn play_track_starts_at_the_beginning_by_default() {
    let mut session = session_with(&["/m/a.mp3"]);
    let (_, command) = session.play_track(0, None, None).unwrap();
    assert_eq!(command, AudioCommand::Play("/m/a.mp3".to_string(), 1.0, 0));
    assert_eq!(session.current_duration, None);
}

#[test]
fn play_track_clears_a_pause() {
    let mut session = session_with(&["/m/a.mp3", "/m/b.mp3"]);
    session.play_track(0, None, None).unwrap();
    session.toggle_pause().unwrap();
    assert!(session.is_paused);
    session.play_track(1, None, None).unwrap();
    assert!(!session.is_paused);
}

#[test]
fn play_track_refuses_an_index_outside_the_playlist() {
    let mut session = session_with(&["/m/a.mp3", "/m/b.mp3"]);
    session.play_track(1, None, Some(9)).unwrap();
    let before = session.clone();
    assert_eq!(session.play_track(2, None, Some(5)), Err(SessionError::InvalidIndex));
    assert_eq!(session, before);
    assert_eq!(session.play_track(usize::MAX, Some(3), None), Err(SessionError::InvalidIndex));
    assert_eq!(session, before);
    let mut empty: Session<f32> = Session::new(1.0);
    assert_eq!(empty.play_track(0, None, None), Err(SessionError::InvalidIndex));
    assert_eq!(empty, Session::new(1.0));
}

#[test]
fn next_track_wraps_around() {
    let mut session = session_with(&["/m/a.mp3", "/m/b.mp3", "/m/c.mp3"]);
    assert_eq!(session.next_index(), Ok(1));
    let (track, command) = session.next_track(Some(10)).unwrap();
    assert_eq!(track.index, 1);
    assert_eq!(track.path, "/m/b.mp3");
    assert_eq!(track.duration, Some(10));
    assert_eq!(command, AudioCommand::Play("/m/b.mp3".to_string(), 1.0, 0));
    assert_eq!(session.next_track(None).unwrap().0.index, 2);
    assert_eq!(session.next_index(), Ok(0));
    assert_eq!(session.next_track(None).unwrap().0.index, 0);
    assert_eq!(session.current_index, 0);
    assert!(session.is_playing);
}

#[test]
fn prev_track_wraps_around() {
    let mut session = session_with(&["/m/a.mp3", "/m/b.mp3", "/m/c.mp3"]);
    assert_eq!(session.previous_index(), Ok(2));
    let (track, command) = session.prev_track(Some(7)).unwrap();
    assert_eq!(track.index, 2);
    assert_eq!(track.name, "c.mp3");
    assert_eq!(command, AudioCommand::Play("/m/c.mp3".to_string(), 1.0, 0));
    assert_eq!(session.prev_track(None).unwrap().0.index, 1);
    assert_eq!(session.prev_track(None).unwrap().0.index, 0);
    assert_eq!(session.prev_track(None).unwrap().0.index, 2);
}

#[test]
fn next_and_previous_follow_the_formulas() {
    let paths: Vec<String> = (0..7).map(|i| format!("/m/{}.mp3", i)).collect();
    let mut index = 0;
    while index < 7 {
        let mut session: Session<f32> = Session::new(1.0);
        session.set_playlist(paths.clone());
        session.play_track(index, None, None).unwrap();
        assert_eq!(session.next_index(), Ok((index + 1) % 7));
        assert_eq!(session.previous_index(), Ok((index + 7 - 1) % 7));
        index += 1;
    }
}

#[test]
fn single_track_playlist_stays_on_its_track() {
    let mut session = session_with(&["/m/a.mp3"]);
    assert_eq!(session.next_track(None).unwrap().0.index, 0);
    assert_eq!(session.prev_track(None).unwrap().0.index, 0);
}

#[test]
fn next_and_previous_are_refused_on_an_empty_playlist() {
    let mut session: Session<f32> = Session::new(1.0);
    assert_eq!(session.next_index(), Err(SessionError::EmptyPlaylist));
    assert_eq!(session.previous_index(), Err(SessionError::EmptyPlaylist));
    assert_eq!(session.next_track(None), Err(SessionError::EmptyPlaylist));
    assert_eq!(session.prev_track(None), Err(SessionError::EmptyPlaylist));
    assert_eq!(session, Session::new(1.0));
}

#[test]
fn index_beyond_the_playlist_still_wraps() {
    let mut session = session_with(&["/m/a.mp3", "/m/b.mp3", "/m/c.mp3"]);
    session.current_index = 10;
    assert_eq!(session.next_index(), Ok(2));
    assert_eq!(session.previous_index(), Ok(0));
    session.current_index = usize::MAX;
    assert_eq!(session.next_index(), Ok(((usize::MAX % 3) + 1) % 3));
    assert_eq!(session.previous_index(), Ok(((usize::MAX % 3) + 3 - 1) % 3));
}

#[test]
fn toggle_pause_alternates() {
    let mut session = session_with(&["/m/a.mp3"]);
    session.play_track(0, None, None).unwrap();
    assert_eq!(session.toggle_pause(), Ok((true, AudioCommand::Pause)));
    assert!(session.is_paused);
    assert_eq!(session.toggle_pause(), Ok((false, AudioCommand::Resume)));
    assert!(!session.is_paused);
    assert!(session.is_playing);
}

#[test]
fn toggle_pause_is_refused_when_nothing_plays() {
    let mut session = session_with(&["/m/a.mp3"]);
    let before = session.clone();
    assert_eq!(session.toggle_pause(), Err(SessionError::NothingPlaying));
    assert_eq!(session, before);
    session.play_track(0, None, None).unwrap();
    session.stop();
    let stopped = session.clone();
    assert_eq!(session.toggle_pause(), Err(SessionError::NothingPlaying));
    assert_eq!(session, stopped);
}

#[test]
fn stop_clears_the_transport() {
    let mut session = session_with(&["/m/a.mp3", "/m/b.mp3"]);
    session.play_track(1, None, Some(33)).unwrap();
    session.toggle_pause().unwrap();
    assert_eq!(session.stop(), AudioCommand::Stop);
    assert!(!session.is_playing);
    assert!(!session.is_paused);
    assert_eq!(session.current_track, None);
    assert_eq!(session.current_index, 1);
    assert_eq!(session.current_duration, Some(33));
}

#[test]
fn set_volume_is_recorded_and_forwarded() {
    let mut session: Session<f32> = Session::new(1.0);
    let mut asked = -0.5_f32;
    while asked <= 1.5 {
        let level = asked.clamp(0.0, 1.0);
        assert_eq!(session.set_volume(level), AudioCommand::SetVolume(level));
        assert_eq!(session.volume, level);
        assert_eq!(session.get_status(&idle_playback(), Timestamp { nanos: 0 }).volume, level);
        asked += 0.25;
    }
}

#[test]
fn set_speed_is_forwarded() {
    let session: Session<f32> = Session::new(1.0);
    assert_eq!(session.set_speed(2.5_f32.clamp(0.25, 3.0)), AudioCommand::SetSpeed(2.5));
    assert_eq!(session.set_speed(9.0_f32.clamp(0.25, 3.0)), AudioCommand::SetSpeed(3.0));
    assert_eq!(session.set_speed(0.0_f32.clamp(0.25, 3.0)), AudioCommand::SetSpeed(0.25));
}

#[test]
fn set_audio_device_is_forwarded() {
    let session: Session<f32> = Session::new(1.0);
    assert_eq!(session.set_audio_device("usb".to_string()), AudioCommand::SetDevice("usb".to_string()));
    assert_eq!(session.set_audio_device(String::new()), AudioCommand::SetDevice(String::new()));
}

#[test]
fn seek_clamps_to_the_known_duration() {
    let mut session = session_with(&["/m/a.mp3"]);
    session.play_track(0, None, Some(100)).unwrap();
    assert_eq!(session.seek(0), Ok((0, AudioCommand::Seek(0))));
    assert_eq!(session.seek(40), Ok((40, AudioCommand::Seek(40))));
    assert_eq!(session.seek(100), Ok((100, AudioCommand::Seek(100))));
    assert_eq!(session.seek(101), Ok((100, AudioCommand::Seek(100))));
    assert_eq!(session.seek(u64::MAX), Ok((100, AudioCommand::Seek(100))));
}

#[test]
fn seek_is_not_clamped_without_known_duration() {
    let mut session = session_with(&["/m/a.mp3"]);
    session.play_track(0, None, None).unwrap();
    assert_eq!(session.seek(40), Ok((40, AudioCommand::Seek(40))));
    assert_eq!(session.seek(u64::MAX), Ok((u64::MAX, AudioCommand::Seek(u64::MAX))));
}

#[test]
fn seek_relative_clamps_to_the_track() {
    let mut session = session_with(&["/m/a.mp3"]);
    session.play_track(0, None, Some(100)).unwrap();
    assert_eq!(session.seek_relative(-20, 10), Ok((0, AudioCommand::Seek(0))));
    assert_eq!(session.seek_relative(200, 10), Ok((100, AudioCommand::Seek(100))));
    assert_eq!(session.seek_relative(15, 10), Ok((25, AudioCommand::Seek(25))));
    assert_eq!(session.seek_relative(-4, 10), Ok((6, AudioCommand::Seek(6))));
    assert_eq!(session.seek_relative(0, 10), Ok((10, AudioCommand::Seek(10))));
    assert_eq!(session.seek_relative(-10, 10), Ok((0, AudioCommand::Seek(0))));
    assert_eq!(session.seek_relative(90, 10), Ok((100, AudioCommand::Seek(100))));
    assert_eq!(session.seek_relative(0, 500), Ok((100, AudioCommand::Seek(100))));
}

#[test]
fn seek_relative_at_the_limits_of_the_types() {
    let mut session = session_with(&["/m/a.mp3"]);
    session.play_track(0, None, None).unwrap();
    assert_eq!(session.seek_relative(5, 10), Ok((15, AudioCommand::Seek(15))));
    assert_eq!(session.seek_relative(i64::MIN, 10), Ok((0, AudioCommand::Seek(0))));
    assert_eq!(session.seek_relative(i64::MIN, u64::MAX), Ok((
        u64::MAX - (1u64 << 63),
        AudioCommand::Seek(u64::MAX - (1u64 << 63)),
    )));
    assert_eq!(session.seek_relative(i64::MAX, u64::MAX), Ok((u64::MAX, AudioCommand::Seek(u64::MAX))));
    assert_eq!(session.seek_relative(1, u64::MAX - 1), Ok((u64::MAX, AudioCommand::Seek(u64::MAX))));
    session.play_track(0, None, Some(u64::MAX)).unwrap();
    assert_eq!(session.seek_relative(i64::MAX, 1), Ok((
        1 + i64::MAX as u64,
        AudioCommand::Seek(1 + i64::MAX as u64),
    )));
}

#[test]
fn seeks_are_refused_when_nothing_plays() {
    let session = session_with(&["/m/a.mp3"]);
    assert_eq!(session.seek(5), Err(SessionError::NothingPlaying));
    assert_eq!(session.seek_relative(5, 0), Err(SessionError::NothingPlaying));
    assert_eq!(session.seek_relative(-5, 10), Err(SessionError::NothingPlaying));
}

#[test]
fn refused_operations_leave_the_status_unchanged() {
    let mut session = session_with(&["/m/a.mp3", "/m/b.mp3"]);
    let playback = idle_playback();
    let now = Timestamp { nanos: 5 };
    let before = session.get_status(&playback, now);
    assert_eq!(session.toggle_pause(), Err(SessionError::NothingPlaying));
    assert_eq!(session.get_status(&playback, now), before);
    assert_eq!(session.seek(3), Err(SessionError::NothingPlaying));
    assert_eq!(session.get_status(&playback, now), before);
    assert_eq!(session.seek_relative(3, 0), Err(SessionError::NothingPlaying));
    assert_eq!(session.get_status(&playback, now), before);
    assert_eq!(session.play_track(2, None, None), Err(SessionError::InvalidIndex));
    assert_eq!(session.get_status(&playback, now), before);
    assert_eq!(before.current_index, 0);
}

#[test]
fn set_playlist_keeps_the_index_inside_the_playlist() {
    let mut session = session_with(&["/m/a.mp3", "/m/b.mp3", "/m/c.mp3"]);
    session.play_track(2, None, None).unwrap();
    session.set_playlist(vec!["/m/x.mp3".to_string(), "/m/y.mp3".to_string()]);
    assert_eq!(session.current_index, 1);
    assert_eq!(session.playlist, vec!["/m/x.mp3".to_string(), "/m/y.mp3".to_string()]);
    assert!(session.is_playing);
    assert_eq!(session.current_track, Some("c.mp3".to_string()));
    session.set_playlist(vec!["/m/1.mp3".to_string(), "/m/2.mp3".to_string(), "/m/3.mp3".to_string()]);
    assert_eq!(session.current_index, 1);
    session.set_playlist(vec![]);
    assert_eq!(session.current_index, 1);
    session.set_playlist(vec!["/m/only.mp3".to_string()]);
    assert_eq!(session.current_index, 0);
}

#[test]
fn load_tracks_moves_to_the_first_track() {
    let mut session = session_with(&["/m/a.mp3", "/m/b.mp3", "/m/c.mp3"]);
    session.play_track(2, None, None).unwrap();
    session.load_tracks(vec!["/m/x.mp3".to_string(), "/m/y.mp3".to_string(), "/m/z.mp3".to_string()]);
    assert_eq!(session.current_index, 0);
    assert_eq!(session.playlist.len(), 3);
    assert_eq!(session.next_index(), Ok(1));
}

#[test]
fn track_path_looks_into_the_playlist() {
    let session = session_with(&["/m/a.mp3", "/m/b.mp3"]);
    assert_eq!(session.track_path(0), Some(&"/m/a.mp3".to_string()));
    assert_eq!(session.track_path(1), Some(&"/m/b.mp3".to_string()));
    assert_eq!(session.track_path(2), None);
}

#[test]
fn status_joins_session_and_playback() {
    let mut session = session_with(&["/m/a.mp3", "/m/b.mp3"]);
    session.set_volume(0.4);
    session.play_track(1, None, Some(45)).unwrap();
    let mut clock = PlaybackClock::new();
    clock.start(Timestamp { nanos: 2_000_000_000 }, 5);
    let playback = Playback { clock, current_path: Some("/m/b.mp3".to_string()), finished: true, speed: 1.5 };
    assert_eq!(
        session.get_status(&playback, Timestamp { nanos: 9_500_000_000 }),
        PlayerStatus {
            is_playing: true,
            is_paused: false,
            is_finished: true,
            current_track: Some("b.mp3".to_string()),
            current_index: 1,
            volume: 0.4,
            speed: 1.5,
            playlist_length: 2,
            elapsed: 12,
            duration: Some(45),
        }
    );
}

#[test]
fn transport_for_the_media_controls() {
    let mut session = session_with(&["/m/a.mp3"]);
    assert_eq!(session.transport(), Transport::Stopped);
    session.play_track(0, None, None).unwrap();
    assert_eq!(session.transport(), Transport::Playing);
    session.toggle_pause().unwrap();
    assert_eq!(session.transport(), Transport::Paused);
    session.stop();
    assert_eq!(session.transport(), Transport::Stopped);
}
