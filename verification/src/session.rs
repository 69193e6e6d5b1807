//! The session: the playlist, the current track and the transport flags, as
//! callers see them.
//!
//! A transport operation checks its input, updates the session and returns
//! the command that its caller sends to the engine. Nothing here waits for
//! the engine: what a caller reads back right after an operation is what the
//! operation wrote.
//!
//! `V` is the type of a volume or speed level, as in the engine.

use crate::clock::Timestamp;
use crate::engine::{AudioCommand, Playback};
use crate::media::{display_name, display_name_of};
use crate::text::copy_of;
use vstd::arithmetic::div_mod::{lemma_add_mod_noop, lemma_mod_self_0, lemma_small_mod};
use vstd::prelude::*;

verus! {

/// Why a transport operation was refused.
#[derive(Clone, Copy, Debug, PartialEq, Eq, Structural)]
pub enum SessionError {
    /// The index lies outside the playlist.
    InvalidIndex,
    /// The operation needs a playlist that holds a track.
    EmptyPlaylist,
    /// The operation needs a track that is playing.
    NothingPlaying,
}

impl SessionError {
    /// The message shown for the error.
    pub fn message(&self) -> (text: String)
        ensures
            text@ == match *self {
                SessionError::InvalidIndex => "Invalid track index"@,
                SessionError::EmptyPlaylist => "Playlist is empty"@,
                SessionError::NothingPlaying => "No track is playing"@,
            },
    {
        match self {
            SessionError::InvalidIndex => "Invalid track index".to_owned(),
            SessionError::EmptyPlaylist => "Playlist is empty".to_owned(),
            SessionError::NothingPlaying => "No track is playing".to_owned(),
        }
    }
}

/// A track of the playlist.
#[derive(Clone, Debug, PartialEq, Eq)]
pub struct TrackInfo {
    pub path: String,
    /// The name under which the track is shown.
    pub name: String,
    /// Its position in the playlist.
    pub index: usize,
    /// Its total duration in seconds, where known.
    pub duration: Option<u64>,
}

/// What the media controls of the system are told about the transport.
#[derive(Clone, Copy, Debug, PartialEq, Eq, Structural)]
pub enum Transport {
    Stopped,
    Paused,
    Playing,
}

/// A snapshot of the player.
#[derive(Clone, Debug, PartialEq)]
pub struct PlayerStatus<V> {
    pub is_playing: bool,
    pub is_paused: bool,
    pub is_finished: bool,
    pub current_track: Option<String>,
    pub current_index: usize,
    pub volume: V,
    pub speed: V,
    pub playlist_length: usize,
    /// Elapsed playback seconds.
    pub elapsed: u64,
    /// Total duration of the current track in seconds, where known.
    pub duration: Option<u64>,
}

/// The state that callers share.
#[derive(Clone, Debug, PartialEq)]
pub struct Session<V> {
    /// The tracks, by path, in playing order.
    pub playlist: Vec<String>,
    pub current_index: usize,
    /// The name of the current track; none when stopped.
    pub current_track: Option<String>,
    /// The total duration of the current track in seconds, where known.
    pub current_duration: Option<u64>,
    pub volume: V,
    pub is_playing: bool,
    pub is_paused: bool,
}

/// `index` brought back to the last track of a playlist of `len` tracks
/// where it would point behind it. An empty playlist leaves it as it is.
pub open spec fn index_within(index: usize, len: nat) -> usize {
    if len > 0 && index >= len {
        (len - 1) as usize
    } else {
        index
    }
}

/// The index after `current` in a playlist of `len` tracks, wrapping around.
pub open spec fn index_after(current: int, len: int) -> int {
    (current + 1) % len
}

/// The index before `current` in a playlist of `len` tracks, wrapping around.
pub open spec fn index_before(current: int, len: int) -> int {
    (current - 1 + len) % len
}

/// `target` brought into the range from zero to the known duration; without
/// a known duration, to the largest position that can be told to the engine.
pub open spec fn clamped_position(target: int, duration: Option<u64>) -> int {
    let limit: int = match duration {
        Some(known) => known as int,
        None => u64::MAX as int,
    };
    if target < 0 {
        0
    } else if target > limit {
        limit
    } else {
        target
    }
}

/// What the media controls are told for the two transport flags.
pub open spec fn transport_of(playing: bool, paused: bool) -> Transport {
    if !playing {
        Transport::Stopped
    } else if paused {
        Transport::Paused
    } else {
        Transport::Playing
    }
}

/// The index after `current`, told without a division of the sum.
proof fn lemma_successor_mod(current: int, len: int)
    requires
        0 <= current,
        0 < len,
    ensures
        0 <= current % len < len,
        (current + 1) % len == if current % len + 1 == len {
            0
        } else {
            current % len + 1
        },
{
    let here = current % len;
    lemma_add_mod_noop(current, 1, len);
    if len > 1 {
        lemma_small_mod(1, len as nat);
    }
    if here + 1 == len {
        lemma_mod_self_0(len);
    } else {
        lemma_small_mod((here + 1) as nat, len as nat);
    }
}

/// The index before `current`, told without a division of the sum.
proof fn lemma_predecessor_mod(current: int, len: int)
    requires
        0 <= current,
        0 < len,
    ensures
        0 <= current % len < len,
        (current - 1 + len) % len == if current % len == 0 {
            len - 1
        } else {
            current % len - 1
        },
{
    let here = current % len;
    lemma_add_mod_noop(current, len - 1, len);
    lemma_small_mod((len - 1) as nat, len as nat);
    if here != 0 {
        // here + len - 1 is one turn more than here - 1.
        lemma_add_mod_noop(here - 1, len, len);
        lemma_mod_self_0(len);
        lemma_small_mod((here - 1) as nat, len as nat);
    }
}

impl<V> Session<V> {
    /// The current index points into the playlist, unless the playlist is
    /// empty.
    pub open spec fn well_formed(self) -> bool {
        self.playlist@.len() > 0 ==> self.current_index < self.playlist@.len()
    }

    /// The session after the track at `index`, shown as `name`, was started.
    pub open spec fn now_playing(
        self,
        index: usize,
        name: String,
        duration: Option<u64>,
    ) -> Session<V> {
        Session {
            current_index: index,
            current_track: Some(name),
            current_duration: duration,
            is_playing: true,
            is_paused: false,
            ..self
        }
    }

    /// The session after a pause of a playing track or the resume of a
    /// paused one.
    pub open spec fn toggled(self) -> Session<V> {
        Session { is_paused: !self.is_paused, ..self }
    }

    /// The session after a stop.
    pub open spec fn stopped(self) -> Session<V> {
        Session { current_track: None, is_playing: false, is_paused: false, ..self }
    }

    /// The snapshot that the session and the engine's state give at `now`.
    pub open spec fn status_at(self, playback: Playback<V>, now: Timestamp) -> PlayerStatus<V> {
        PlayerStatus {
            is_playing: self.is_playing,
            is_paused: self.is_paused,
            is_finished: playback.finished,
            current_track: self.current_track,
            current_index: self.current_index,
            volume: self.volume,
            speed: playback.speed,
            playlist_length: self.playlist@.len() as usize,
            elapsed: playback.elapsed_at(now) as u64,
            duration: self.current_duration,
        }
    }
}

impl<V: Copy> Session<V> {
    /// A session with an empty playlist, at the given volume.
    pub fn new(volume: V) -> (session: Session<V>)
        ensures
            session.playlist@ == Seq::<String>::empty(),
            session.current_index == 0,
            session.current_track is None,
            session.current_duration is None,
            session.volume == volume,
            !session.is_playing,
            !session.is_paused,
            session.well_formed(),
    {
        Session {
            playlist: Vec::new(),
            current_index: 0,
            current_track: None,
            current_duration: None,
            volume,
            is_playing: false,
            is_paused: false,
        }
    }

    /// Replaces the playlist and keeps the current index, brought back into
    /// the new playlist where it would point behind its end.
    pub fn set_playlist(&mut self, paths: Vec<String>)
        ensures
            *final(self) == (Session {
                playlist: paths,
                current_index: index_within(old(self).current_index, paths@.len()),
                ..*old(self)
            }),
            final(self).well_formed(),
    {
        let len: usize = paths.len();
        if len > 0 && self.current_index >= len {
            self.current_index = len - 1;
        }
        self.playlist = paths;
    }

    /// Replaces the playlist by a freshly loaded one and moves to its first
    /// track.
    pub fn load_tracks(&mut self, paths: Vec<String>)
        ensures
            *final(self) == (Session { playlist: paths, current_index: 0, ..*old(self) }),
            final(self).well_formed(),
    {
        self.playlist = paths;
        self.current_index = 0;
    }

    /// The path of the track at `index`, if the playlist has one there.
    pub fn track_path(&self, index: usize) -> (path: Option<&String>)
        ensures
            index < self.playlist@.len() ==> path == Some(&self.playlist@[index as int]),
            index >= self.playlist@.len() ==> path is None,
    {
        if index < self.playlist.len() {
            Some(&self.playlist[index])
        } else {
            None
        }
    }

    /// The index that `next_track` moves to.
    pub fn next_index(&self) -> (next: Result<usize, SessionError>)
        ensures
            self.playlist@.len() == 0 ==> next == Err::<usize, SessionError>(
                SessionError::EmptyPlaylist,
            ),
            self.playlist@.len() > 0 ==> next is Ok && next->Ok_0 == index_after(
                self.current_index as int,
                self.playlist@.len() as int,
            ) && next->Ok_0 < self.playlist@.len(),
    {
        let len: usize = self.playlist.len();
        if len == 0 {
            return Err(SessionError::EmptyPlaylist);
        }
        proof {
            lemma_successor_mod(self.current_index as int, len as int);
        }
        let here: usize = self.current_index % len;
        if here + 1 == len {
            Ok(0)
        } else {
            Ok(here + 1)
        }
    }

    /// The index that `prev_track` moves to.
    pub fn previous_index(&self) -> (previous: Result<usize, SessionError>)
        ensures
            self.playlist@.len() == 0 ==> previous == Err::<usize, SessionError>(
                SessionError::EmptyPlaylist,
            ),
            self.playlist@.len() > 0 ==> previous is Ok && previous->Ok_0 == index_before(
                self.current_index as int,
                self.playlist@.len() as int,
            ) && previous->Ok_0 < self.playlist@.len(),
    {
        let len: usize = self.playlist.len();
        if len == 0 {
            return Err(SessionError::EmptyPlaylist);
        }
        proof {
            lemma_predecessor_mod(self.current_index as int, len as int);
        }
        let here: usize = self.current_index % len;
        if here == 0 {
            Ok(len - 1)
        } else {
            Ok(here - 1)
        }
    }

    /// Makes the track at `index` the current one and returns it with the
    /// command that starts it, at the session's volume and `skip_secs`
    /// seconds into the track (from its start when none is given).
    /// `duration` is the total duration that was found for that track.
    ///
    /// An index outside the playlist is refused and leaves the session as it
    /// is.
    pub fn play_track(
        &mut self,
        index: usize,
        skip_secs: Option<u64>,
        duration: Option<u64>,
    ) -> (started: Result<(TrackInfo, AudioCommand<V>), SessionError>)
        ensures
            index >= old(self).playlist@.len() ==> started == Err::<
                (TrackInfo, AudioCommand<V>),
                SessionError,
            >(SessionError::InvalidIndex) && *final(self) == *old(self),
            index < old(self).playlist@.len() ==> started is Ok && ({
                let (track, command) = started->Ok_0;
                &&& track.path == old(self).playlist@[index as int]
                &&& track.name@ == display_name_of(track.path@)
                &&& track.index == index
                &&& track.duration == duration
                &&& command == AudioCommand::Play(
                    track.path,
                    old(self).volume,
                    match skip_secs {
                        Some(skip) => skip,
                        None => 0,
                    },
                )
                &&& *final(self) == old(self).now_playing(index, track.name, duration)
            }),
            old(self).well_formed() ==> final(self).well_formed(),
    {
        if index >= self.playlist.len() {
            return Err(SessionError::InvalidIndex);
        }
        let path: String = self.playlist[index].clone();
        let name: String = display_name(path.as_str());
        let skip: u64 = match skip_secs {
            Some(skip) => skip,
            None => 0,
        };
        let command = AudioCommand::Play(path.clone(), self.volume, skip);
        self.current_duration = duration;
        self.current_index = index;
        self.is_playing = true;
        self.is_paused = false;
        self.current_track = Some(name.clone());
        Ok((TrackInfo { path, name, index, duration }, command))
    }

    /// Moves to the track after the current one, wrapping around at the end
    /// of the playlist, and starts it from its beginning. `duration` is the
    /// total duration that was found for the track at `next_index`.
    ///
    /// Refused on an empty playlist, which leaves the session as it is.
    pub fn next_track(&mut self, duration: Option<u64>) -> (started: Result<
        (TrackInfo, AudioCommand<V>),
        SessionError,
    >)
        ensures
            old(self).playlist@.len() == 0 ==> started == Err::<
                (TrackInfo, AudioCommand<V>),
                SessionError,
            >(SessionError::EmptyPlaylist) && *final(self) == *old(self),
            old(self).playlist@.len() > 0 ==> started is Ok && ({
                let (track, command) = started->Ok_0;
                &&& track.index == index_after(
                    old(self).current_index as int,
                    old(self).playlist@.len() as int,
                )
                &&& track.path == old(self).playlist@[track.index as int]
                &&& track.name@ == display_name_of(track.path@)
                &&& track.duration == duration
                &&& command == AudioCommand::Play(track.path, old(self).volume, 0)
                &&& *final(self) == old(self).now_playing(track.index, track.name, duration)
            }),
            old(self).well_formed() ==> final(self).well_formed(),
    {
        match self.next_index() {
            Ok(index) => self.play_track(index, None, duration),
            Err(refusal) => Err(refusal),
        }
    }

    /// Moves to the track before the current one, wrapping around at the
    /// start of the playlist, and starts it from its beginning. `duration`
    /// is the total duration that was found for the track at
    /// `previous_index`.
    ///
    /// Refused on an empty playlist, which leaves the session as it is.
    pub fn prev_track(&mut self, duration: Option<u64>) -> (started: Result<
        (TrackInfo, AudioCommand<V>),
        SessionError,
    >)
        ensures
            old(self).playlist@.len() == 0 ==> started == Err::<
                (TrackInfo, AudioCommand<V>),
                SessionError,
            >(SessionError::EmptyPlaylist) && *final(self) == *old(self),
            old(self).playlist@.len() > 0 ==> started is Ok && ({
                let (track, command) = started->Ok_0;
                &&& track.index == index_before(
                    old(self).current_index as int,
                    old(self).playlist@.len() as int,
                )
                &&& track.path == old(self).playlist@[track.index as int]
                &&& track.name@ == display_name_of(track.path@)
                &&& track.duration == duration
                &&& command == AudioCommand::Play(track.path, old(self).volume, 0)
                &&& *final(self) == old(self).now_playing(track.index, track.name, duration)
            }),
            old(self).well_formed() ==> final(self).well_formed(),
    {
        match self.previous_index() {
            Ok(index) => self.play_track(index, None, duration),
            Err(refusal) => Err(refusal),
        }
    }

    /// Pauses a playing track or resumes a paused one. Returns whether the
    /// track is paused now, and the command to send.
    ///
    /// Refused when no track is playing, which leaves the session as it is.
    pub fn toggle_pause(&mut self) -> (toggled: Result<(bool, AudioCommand<V>), SessionError>)
        ensures
            !old(self).is_playing ==> toggled == Err::<(bool, AudioCommand<V>), SessionError>(
                SessionError::NothingPlaying,
            ) && *final(self) == *old(self),
            old(self).is_playing ==> toggled == Ok::<(bool, AudioCommand<V>), SessionError>(
                (
                    !old(self).is_paused,
                    if old(self).is_paused {
                        AudioCommand::Resume
                    } else {
                        AudioCommand::Pause
                    },
                ),
            ) && *final(self) == old(self).toggled(),
    {
        if !self.is_playing {
            return Err(SessionError::NothingPlaying);
        }
        if self.is_paused {
            self.is_paused = false;
            Ok((false, AudioCommand::Resume))
        } else {
            self.is_paused = true;
            Ok((true, AudioCommand::Pause))
        }
    }

    /// Stops playback and returns the command to send.
    pub fn stop(&mut self) -> (command: AudioCommand<V>)
        ensures
            command == AudioCommand::<V>::Stop,
            *final(self) == old(self).stopped(),
    {
        self.is_playing = false;
        self.is_paused = false;
        self.current_track = None;
        AudioCommand::Stop
    }

    /// Records the volume and returns the command to send. The level is
    /// expected to lie between silence and unity; callers bring it into that
    /// range before the call.
    pub fn set_volume(&mut self, level: V) -> (command: AudioCommand<V>)
        ensures
            command == AudioCommand::SetVolume(level),
            *final(self) == (Session { volume: level, ..*old(self) }),
    {
        self.volume = level;
        AudioCommand::SetVolume(level)
    }

    /// The command that sets the playback speed. The session keeps no
    /// speed: the engine records it.
    pub fn set_speed(&self, level: V) -> (command: AudioCommand<V>)
        ensures
            command == AudioCommand::SetSpeed(level),
    {
        AudioCommand::SetSpeed(level)
    }

    /// The command that switches the output device; the empty name stands
    /// for the system default.
    pub fn set_audio_device(&self, device_name: String) -> (command: AudioCommand<V>)
        ensures
            command == AudioCommand::<V>::SetDevice(device_name),
    {
        AudioCommand::SetDevice(device_name)
    }

    /// Moves to `position` seconds, brought down to the known duration of
    /// the track. Returns the position moved to and the command to send.
    ///
    /// Refused when no track is playing.
    pub fn seek(&self, position: u64) -> (sought: Result<(u64, AudioCommand<V>), SessionError>)
        ensures
            !self.is_playing ==> sought == Err::<(u64, AudioCommand<V>), SessionError>(
                SessionError::NothingPlaying,
            ),
            self.is_playing ==> sought is Ok && ({
                let (target, command) = sought->Ok_0;
                &&& target == clamped_position(position as int, self.current_duration)
                &&& command == AudioCommand::<V>::Seek(target)
            }),
    {
        if !self.is_playing {
            return Err(SessionError::NothingPlaying);
        }
        let target: u64 = match self.current_duration {
            Some(known) => if position > known {
                known
            } else {
                position
            },
            None => position,
        };
        Ok((target, AudioCommand::Seek(target)))
    }

    /// Moves by `delta` seconds from the `elapsed` position, staying within
    /// the track. Returns the position moved to and the command to send.
    ///
    /// Refused when no track is playing.
    pub fn seek_relative(&self, delta: i64, elapsed: u64) -> (sought: Result<
        (u64, AudioCommand<V>),
        SessionError,
    >)
        ensures
            !self.is_playing ==> sought == Err::<(u64, AudioCommand<V>), SessionError>(
                SessionError::NothingPlaying,
            ),
            self.is_playing ==> sought is Ok && ({
                let (target, command) = sought->Ok_0;
                &&& target == clamped_position(elapsed + delta, self.current_duration)
                &&& command == AudioCommand::<V>::Seek(target)
            }),
    {
        if !self.is_playing {
            return Err(SessionError::NothingPlaying);
        }
        let limit: u64 = match self.current_duration {
            Some(known) => known,
            None => u64::MAX,
        };
        let wanted: i128 = elapsed as i128 + delta as i128;
        let target: u64 = if wanted < 0 {
            0
        } else if wanted > limit as i128 {
            limit
        } else {
            wanted as u64
        };
        Ok((target, AudioCommand::Seek(target)))
    }

    /// A snapshot of the player at `now`, from the session and the state
    /// that the engine shows.
    pub fn get_status(&self, playback: &Playback<V>, now: Timestamp) -> (status: PlayerStatus<V>)
        ensures
            status == self.status_at(*playback, now),
    {
        PlayerStatus {
            is_playing: self.is_playing,
            is_paused: self.is_paused,
            is_finished: playback.is_finished(),
            current_track: copy_of(&self.current_track),
            current_index: self.current_index,
            volume: self.volume,
            speed: playback.get_speed(),
            playlist_length: self.playlist.len(),
            elapsed: playback.elapsed(now),
            duration: self.current_duration,
        }
    }

    /// What the media controls of the system are to show.
    pub fn transport(&self) -> (state: Transport)
        ensures
            state == transport_of(self.is_playing, self.is_paused),
    {
        if !self.is_playing {
            Transport::Stopped
        } else if self.is_paused {
            Transport::Paused
        } else {
            Transport::Playing
        }
    }
}

/// In a playlist that holds a track, the index after and the index before
/// any index lie in the playlist.
pub proof fn lemma_neighbours_are_in_range(current: int, len: int)
    requires
        0 <= current,
        0 < len,
    ensures
        0 <= index_after(current, len) < len,
        0 <= index_before(current, len) < len,
{
    lemma_successor_mod(current, len);
    lemma_predecessor_mod(current, len);
}

/// From an index of the playlist, going to the next track and then to the
/// previous one leads back, and so does the other way round.
pub proof fn lemma_next_and_previous_undo_each_other(current: int, len: int)
    requires
        0 <= current < len,
    ensures
        index_before(index_after(current, len), len) == current,
        index_after(index_before(current, len), len) == current,
{
    lemma_successor_mod(current, len);
    lemma_predecessor_mod(current, len);
    lemma_small_mod(current as nat, len as nat);
    lemma_successor_mod(index_before(current, len), len);
    lemma_predecessor_mod(index_after(current, len), len);
    lemma_small_mod(index_before(current, len) as nat, len as nat);
    lemma_small_mod(index_after(current, len) as nat, len as nat);
}

/// After the last track comes the first, and before the first comes the
/// last.
pub proof fn lemma_playlist_wraps_around(len: int)
    requires
        0 < len,
    ensures
        index_after(len - 1, len) == 0,
        index_before(0, len) == len - 1,
{
    lemma_successor_mod(len - 1, len);
    lemma_predecessor_mod(0, len);
    lemma_small_mod((len - 1) as nat, len as nat);
    lemma_small_mod(0, len as nat);
}

/// A position told to the engine never lies behind the known end of the
/// track or before its start, and a target within the track is kept.
pub proof fn lemma_clamped_position_stays_in_track(target: int, duration: Option<u64>)
    ensures
        0 <= clamped_position(target, duration) <= u64::MAX,
        duration is Some ==> clamped_position(target, duration) <= duration->0,
        duration is Some && 0 <= target <= duration->0 ==> clamped_position(target, duration)
            == target,
        duration is None && 0 <= target <= u64::MAX ==> clamped_position(target, duration)
            == target,
{
}

/// Toggling the pause twice leaves the session as it was.
pub proof fn lemma_toggle_twice_restores<V>(session: Session<V>)
    ensures
        session.toggled().toggled() == session,
{
}

} // verus!
