//! The playback engine: the decisions of the single worker that owns the
//! audio output.
//!
//! The engine itself touches no device. It is a state machine that is told
//! what happened (an [`Event`]) and answers with what to do next (an
//! [`Action`]). Its driver owns the output stream, the sink and the command
//! queue; it performs each action and reports the event that the action
//! produced, together with the instant at which it reports:
//!
//! ```text
//! let mut action = engine.pending_action();
//! loop {
//!     let event = perform(action);
//!     action = engine.step(event, now());
//! }
//! ```
//!
//! Every action is answered by exactly one event. An event that does not
//! answer the pending action is ignored.
//!
//! `V` is the type of a volume or speed level. The engine stores and forwards
//! levels and never looks inside one.

use crate::clock::{PlaybackClock, Timestamp};
use crate::media::{source_format, source_format_of, SourceFormat};
use crate::text::copy_of;
use vstd::prelude::*;

verus! {

/// How long the driver waits for a command before it reports a timeout, in
/// milliseconds. The wait bounds how late a drained sink is noticed.
pub const COMMAND_WAIT_MILLIS: u64 = 100;

/// A command for the engine. Commands are handled one at a time, in the
/// order in which they were sent.
#[derive(Clone, Debug, PartialEq)]
pub enum AudioCommand<V> {
    /// Play the file at this path, at this volume, from this offset in
    /// seconds.
    Play(String, V, u64),
    Pause,
    Resume,
    Stop,
    SetVolume(V),
    /// Move to this position, in seconds.
    Seek(u64),
    SetSpeed(V),
    /// Switch to the output device of this name; the empty name stands for
    /// the system default.
    SetDevice(String),
}

/// What readers may see of the engine: the clock, the loaded track, whether
/// it has played to its end, and the speed last asked for.
#[derive(Clone, Debug, PartialEq)]
pub struct Playback<V> {
    pub clock: PlaybackClock,
    pub current_path: Option<String>,
    pub finished: bool,
    pub speed: V,
}

/// A source that is to be built and installed in a fresh sink.
#[derive(Clone, Debug, PartialEq)]
pub struct Start<V> {
    pub path: String,
    pub volume: V,
    /// Where playback starts, in seconds.
    pub offset: u64,
    /// Whether a failed attempt is followed by reopening the output and one
    /// more attempt.
    pub retry: bool,
    /// Whether success clears the finished flag.
    pub fresh: bool,
}

/// What follows once the active sink has been discarded.
#[derive(Clone, Debug, PartialEq)]
pub struct Job<V> {
    /// Whether the output is reopened before anything is started.
    pub reopen: bool,
    pub start: Option<Start<V>>,
}

/// What the engine is in the middle of: the action it has handed out and
/// whose event it expects.
#[derive(Clone, Debug, PartialEq)]
pub enum Phase<V> {
    /// Asked whether the sink has drained.
    Polling,
    /// Asked for the next command.
    Waiting,
    Pausing,
    Resuming,
    /// Discarding the sink because of a stop command.
    Stopping,
    SettingVolume(V),
    SettingSpeed(V),
    /// Asked the sink to reposition its stream in place.
    Seeking(u64),
    /// Discarding the sink before the job goes on.
    Discarding(Job<V>),
    /// Opening the output; the start, if any, is attempted afterwards.
    Opening(Option<Start<V>>),
    /// Building the source and its sink.
    Starting(Start<V>, SourceFormat),
}

/// Outside work that the engine asks its driver to perform.
#[derive(Clone, Debug, PartialEq)]
pub enum Action<V> {
    /// Report whether the active sink has run out of samples.
    /// Answered by [`Event::SinkPolled`].
    PollSink,
    /// Wait up to [`COMMAND_WAIT_MILLIS`] for the next command.
    /// Answered by [`Event::Command`] or [`Event::Timeout`].
    AwaitCommand,
    /// Pause the sink. Answered by [`Event::Done`].
    PauseSink,
    /// Let the sink play on. Answered by [`Event::Done`].
    ResumeSink,
    /// Stop the sink and drop it. Answered by [`Event::Done`].
    DiscardSink,
    /// Set the volume of the sink. Answered by [`Event::Done`].
    SetSinkVolume(V),
    /// Set the speed of the sink. Answered by [`Event::Done`].
    SetSinkSpeed(V),
    /// Reposition the stream of the sink in place, to this second.
    /// Answered by [`Event::Seeked`].
    SeekSink(u64),
    /// Drop the output stream and open one on the device of this name; on
    /// the system default if there is no name or no device has it.
    /// Answered by [`Event::Opened`].
    OpenOutput(Option<String>),
    /// Build a source for the file, positioned at `offset` seconds, and
    /// install it in a new sink at `volume`. Answered by [`Event::Started`].
    StartSource { path: String, format: SourceFormat, volume: V, offset: u64 },
}

/// What the driver reports back.
#[derive(Clone, Debug, PartialEq)]
pub enum Event<V> {
    /// The sink was asked; `drained` says whether it has run out of samples.
    SinkPolled { drained: bool },
    /// A command arrived.
    Command(AudioCommand<V>),
    /// No command arrived within the wait.
    Timeout,
    /// The action was performed.
    Done,
    /// Whether the stream was repositioned in place.
    Seeked(bool),
    /// Whether an output stream is open now.
    Opened(bool),
    /// Whether the source was built and its sink installed.
    Started(bool),
}

/// The state of the playback engine.
#[derive(Clone, Debug, PartialEq)]
pub struct Engine<V> {
    pub playback: Playback<V>,
    /// Whether an output stream is open.
    pub output_open: bool,
    /// The volume of the active sink; none when no sink is active.
    pub sink_volume: Option<V>,
    /// The level that leaves a signal as it is: the volume of a sink that
    /// was never told one, and the speed before any was asked for.
    pub unity: V,
    /// The output device that was asked for; none stands for the default.
    pub selected_device: Option<String>,
    pub phase: Phase<V>,
}

impl<V> Playback<V> {
    /// Nothing loaded, at the given speed.
    pub open spec fn idle(speed: V) -> Playback<V> {
        Playback { clock: PlaybackClock::idle(), current_path: None, finished: false, speed }
    }

    /// Elapsed playback seconds when read at `now`.
    pub open spec fn elapsed_at(self, now: Timestamp) -> int {
        self.clock.elapsed_at(now)
    }

    /// The state after a stop: the clock is reset and no track is loaded.
    /// The finished flag and the speed stay as they are.
    pub open spec fn stopped(self) -> Playback<V> {
        Playback { clock: PlaybackClock::idle(), current_path: None, ..self }
    }

    /// The state after the poll of an active sink: a drained sink marks a
    /// loaded track as finished.
    pub open spec fn polled(self, drained: bool) -> Playback<V> {
        Playback { finished: self.finished || (drained && self.clock.reference is Some), ..self }
    }

    /// The state after a source was installed.
    pub open spec fn restarted(self, start: Start<V>, now: Timestamp) -> Playback<V> {
        Playback {
            clock: PlaybackClock::started(now, start.offset),
            current_path: Some(start.path),
            finished: self.finished && !start.fresh,
            speed: self.speed,
        }
    }

    /// Elapsed playback seconds at `now`, saturating at `u64::MAX`.
    pub fn elapsed(&self, now: Timestamp) -> (secs: u64)
        ensures
            secs == self.elapsed_at(now),
    {
        self.clock.elapsed_seconds(now)
    }

    /// Whether the loaded track has played to its end.
    pub fn is_finished(&self) -> (finished: bool)
        ensures
            finished == self.finished,
    {
        self.finished
    }
}

impl<V: Copy> Playback<V> {
    /// The speed last asked for.
    pub fn get_speed(&self) -> (speed: V)
        ensures
            speed == self.speed,
    {
        self.speed
    }
}

impl<V> Engine<V> {
    /// The engine before its driver has done anything: nothing is loaded, no
    /// output is open, and the first action opens the default output.
    pub open spec fn initial(unity: V) -> Engine<V> {
        Engine {
            playback: Playback::idle(unity),
            output_open: false,
            sink_volume: None,
            unity,
            selected_device: None,
            phase: Phase::Opening(None),
        }
    }

    /// Whether a sink is active.
    pub open spec fn sink_active(self) -> bool {
        self.sink_volume is Some
    }

    /// What holds of every state that the engine reaches: the action that is
    /// pending fits the state. Whatever is asked of the sink is asked while
    /// one is active. The output is opened and a source is started only
    /// while none is, so that there is never more than one sink; and a
    /// source is started only on an open output, in the format of its path.
    pub open spec fn well_formed(self) -> bool {
        match self.phase {
            Phase::Polling => self.sink_active(),
            Phase::Waiting => true,
            Phase::Pausing => self.sink_active(),
            Phase::Resuming => self.sink_active(),
            Phase::Stopping => self.sink_active(),
            Phase::SettingVolume(volume) => self.sink_volume == Some(volume),
            Phase::SettingSpeed(speed) => self.sink_active() && self.playback.speed == speed,
            Phase::Seeking(_) => {
                &&& self.sink_active()
                &&& self.playback.current_path is Some
                &&& source_format_of(self.playback.current_path->0@) != Some(SourceFormat::Flac)
            },
            Phase::Discarding(_) => self.sink_active(),
            Phase::Opening(_) => !self.sink_active(),
            Phase::Starting(start, format) => {
                &&& !self.sink_active()
                &&& self.output_open
                &&& source_format_of(start.path@) == Some(format)
            },
        }
    }

    /// The volume that a rebuilt sink gets: that of the active sink, or
    /// unity without one.
    pub open spec fn carried_volume(self) -> V {
        match self.sink_volume {
            Some(volume) => volume,
            None => self.unity,
        }
    }

    /// The action that the engine has handed out and whose event it expects.
    pub open spec fn pending(self) -> Action<V> {
        match self.phase {
            Phase::Polling => Action::PollSink,
            Phase::Waiting => Action::AwaitCommand,
            Phase::Pausing => Action::PauseSink,
            Phase::Resuming => Action::ResumeSink,
            Phase::Stopping => Action::DiscardSink,
            Phase::SettingVolume(volume) => Action::SetSinkVolume(volume),
            Phase::SettingSpeed(speed) => Action::SetSinkSpeed(speed),
            Phase::Seeking(target) => Action::SeekSink(target),
            Phase::Discarding(_) => Action::DiscardSink,
            Phase::Opening(_) => Action::OpenOutput(self.selected_device),
            Phase::Starting(start, format) => Action::StartSource {
                path: start.path,
                format,
                volume: start.volume,
                offset: start.offset,
            },
        }
    }

    /// The engine with its work done: it polls the sink if one is active and
    /// waits for the next command otherwise.
    pub open spec fn resting(self) -> Engine<V> {
        Engine {
            phase: if self.sink_active() {
                Phase::Polling
            } else {
                Phase::Waiting
            },
            ..self
        }
    }

    /// The engine after an attempt to start failed or could not be made:
    /// the output is reopened for one more attempt if the start allows it,
    /// else the start is given up.
    pub open spec fn falling_back(self, start: Start<V>) -> Engine<V> {
        if start.retry {
            Engine { phase: Phase::Opening(Some(Start { retry: false, ..start })), ..self }
        } else {
            self.resting()
        }
    }

    /// The engine attempting a start. The attempt can be made only with an
    /// open output and for a path that has an extension.
    pub open spec fn attempting(self, start: Start<V>) -> Engine<V> {
        match source_format_of(start.path@) {
            Some(format) => if self.output_open {
                Engine { phase: Phase::Starting(start, format), ..self }
            } else {
                self.falling_back(start)
            },
            None => self.falling_back(start),
        }
    }

    /// The engine going on with a job once no sink is active.
    pub open spec fn proceeding(self, job: Job<V>) -> Engine<V> {
        if job.reopen {
            Engine { phase: Phase::Opening(job.start), ..self }
        } else {
            match job.start {
                Some(start) => self.attempting(start),
                None => self.resting(),
            }
        }
    }

    /// The engine taking up a job: an active sink is discarded first.
    pub open spec fn beginning(self, job: Job<V>) -> Engine<V> {
        if self.sink_active() {
            Engine { phase: Phase::Discarding(job), ..self }
        } else {
            self.proceeding(job)
        }
    }

    /// The engine rebuilding the source of the loaded track at `target`
    /// seconds, at the volume of the sink that it replaces. Without a loaded
    /// track there is nothing to rebuild.
    pub open spec fn rebuilding(self, target: u64) -> Engine<V> {
        match self.playback.current_path {
            Some(path) => self.beginning(
                Job {
                    reopen: false,
                    start: Some(
                        Start {
                            path,
                            volume: self.carried_volume(),
                            offset: target,
                            retry: true,
                            fresh: true,
                        },
                    ),
                },
            ),
            None => self.resting(),
        }
    }

    /// The start that brings playback back after a switch of the output
    /// device: the loaded track at the position it has at `now`, if the
    /// clock is running.
    pub open spec fn restart_after_switch(self, now: Timestamp) -> Option<Start<V>> {
        match self.playback.current_path {
            Some(path) => if self.playback.clock.is_running() {
                Some(
                    Start {
                        path,
                        volume: self.carried_volume(),
                        offset: self.playback.elapsed_at(now) as u64,
                        retry: false,
                        fresh: false,
                    },
                )
            } else {
                None
            },
            None => None,
        }
    }

    /// The device that a name asks for: none for the empty name.
    pub open spec fn device_named(name: String) -> Option<String> {
        if name@.len() == 0 {
            None
        } else {
            Some(name)
        }
    }

    /// The engine after it took a command from the queue at `now`.
    pub open spec fn commanded(self, command: AudioCommand<V>, now: Timestamp) -> Engine<V> {
        match command {
            AudioCommand::Play(path, volume, offset) => self.beginning(
                Job {
                    reopen: false,
                    start: Some(Start { path, volume, offset, retry: true, fresh: true }),
                },
            ),
            AudioCommand::Pause => if self.sink_active() {
                Engine { phase: Phase::Pausing, ..self }
            } else {
                self.resting()
            },
            AudioCommand::Resume => if self.sink_active() {
                Engine { phase: Phase::Resuming, ..self }
            } else {
                self.resting()
            },
            AudioCommand::Stop => if self.sink_active() {
                Engine { phase: Phase::Stopping, ..self }
            } else {
                Engine { playback: self.playback.stopped(), ..self }.resting()
            },
            AudioCommand::SetVolume(volume) => if self.sink_active() {
                Engine { sink_volume: Some(volume), phase: Phase::SettingVolume(volume), ..self }
            } else {
                self.resting()
            },
            AudioCommand::SetSpeed(speed) => {
                let recorded = Engine { playback: Playback { speed, ..self.playback }, ..self };
                if self.sink_active() {
                    Engine { phase: Phase::SettingSpeed(speed), ..recorded }
                } else {
                    recorded.resting()
                }
            },
            AudioCommand::Seek(target) => match self.playback.current_path {
                Some(path) => if self.sink_active() && source_format_of(path@) != Some(
                    SourceFormat::Flac,
                ) {
                    Engine { phase: Phase::Seeking(target), ..self }
                } else {
                    self.rebuilding(target)
                },
                None => self.resting(),
            },
            AudioCommand::SetDevice(name) => Engine {
                selected_device: Self::device_named(name),
                ..self
            }.beginning(Job { reopen: true, start: self.restart_after_switch(now) }),
        }
    }

    /// The engine after `event` was reported to it at `now`.
    pub open spec fn next(self, event: Event<V>, now: Timestamp) -> Engine<V> {
        match (self.phase, event) {
            (Phase::Polling, Event::SinkPolled { drained }) => Engine {
                playback: if self.sink_active() {
                    self.playback.polled(drained)
                } else {
                    self.playback
                },
                phase: Phase::Waiting,
                ..self
            },
            (Phase::Waiting, Event::Timeout) => self.resting(),
            (Phase::Waiting, Event::Command(command)) => self.commanded(command, now),
            (Phase::Pausing, Event::Done) => Engine {
                playback: Playback { clock: self.playback.clock.paused_at(now), ..self.playback },
                ..self
            }.resting(),
            (Phase::Resuming, Event::Done) => Engine {
                playback: Playback { clock: self.playback.clock.resumed_at(now), ..self.playback },
                ..self
            }.resting(),
            (Phase::Stopping, Event::Done) => Engine {
                playback: self.playback.stopped(),
                sink_volume: None,
                ..self
            }.resting(),
            (Phase::SettingVolume(_), Event::Done) => self.resting(),
            (Phase::SettingSpeed(_), Event::Done) => self.resting(),
            (Phase::Seeking(target), Event::Seeked(moved)) => if moved {
                Engine {
                    playback: Playback {
                        clock: self.playback.clock.sought(now, target),
                        ..self.playback
                    },
                    ..self
                }.resting()
            } else {
                self.rebuilding(target)
            },
            (Phase::Discarding(job), Event::Done) => Engine {
                sink_volume: None,
                ..self
            }.proceeding(job),
            (Phase::Opening(start), Event::Opened(open)) => {
                let reopened = Engine { output_open: open, ..self };
                match start {
                    Some(start) => reopened.attempting(start),
                    None => reopened.resting(),
                }
            },
            (Phase::Starting(start, _), Event::Started(installed)) => if installed {
                Engine {
                    playback: self.playback.restarted(start, now),
                    sink_volume: Some(start.volume),
                    ..self
                }.resting()
            } else {
                self.falling_back(start)
            },
            _ => self,
        }
    }
}

impl<V: Copy> Engine<V> {
    /// An engine with nothing loaded and no output open. `unity` is the level
    /// that leaves a signal as it is.
    pub fn new(unity: V) -> (engine: Engine<V>)
        ensures
            engine == Engine::initial(unity),
            engine.well_formed(),
    {
        Engine {
            playback: Playback {
                clock: PlaybackClock::new(),
                current_path: None,
                finished: false,
                speed: unity,
            },
            output_open: false,
            sink_volume: None,
            unity,
            selected_device: None,
            phase: Phase::Opening(None),
        }
    }

    /// The action that the driver has to perform next.
    pub fn pending_action(&self) -> (action: Action<V>)
        ensures
            action == self.pending(),
    {
        match &self.phase {
            Phase::Polling => Action::PollSink,
            Phase::Waiting => Action::AwaitCommand,
            Phase::Pausing => Action::PauseSink,
            Phase::Resuming => Action::ResumeSink,
            Phase::Stopping => Action::DiscardSink,
            Phase::SettingVolume(volume) => Action::SetSinkVolume(*volume),
            Phase::SettingSpeed(speed) => Action::SetSinkSpeed(*speed),
            Phase::Seeking(target) => Action::SeekSink(*target),
            Phase::Discarding(_) => Action::DiscardSink,
            Phase::Opening(_) => Action::OpenOutput(copy_of(&self.selected_device)),
            Phase::Starting(start, format) => Action::StartSource {
                path: start.path.clone(),
                format: *format,
                volume: start.volume,
                offset: start.offset,
            },
        }
    }

    /// Goes back to polling the sink, or to waiting without one.
    fn rest(&mut self)
        ensures
            *final(self) == old(self).resting(),
    {
        self.phase = if self.sink_volume.is_some() {
            Phase::Polling
        } else {
            Phase::Waiting
        };
    }

    /// Reopens the output for one more attempt, or gives the start up.
    fn fall_back(&mut self, start: Start<V>)
        ensures
            *final(self) == old(self).falling_back(start),
    {
        if start.retry {
            let mut again = start;
            again.retry = false;
            self.phase = Phase::Opening(Some(again));
        } else {
            self.rest();
        }
    }

    /// Has the source started, where that can be tried at all.
    fn attempt(&mut self, start: Start<V>)
        ensures
            *final(self) == old(self).attempting(start),
    {
        match source_format(start.path.as_str()) {
            Some(format) => if self.output_open {
                self.phase = Phase::Starting(start, format);
            } else {
                self.fall_back(start);
            },
            None => self.fall_back(start),
        }
    }

    /// Goes on with a job once no sink is active.
    fn proceed(&mut self, job: Job<V>)
        ensures
            *final(self) == old(self).proceeding(job),
    {
        if job.reopen {
            self.phase = Phase::Opening(job.start);
        } else {
            match job.start {
                Some(start) => self.attempt(start),
                None => self.rest(),
            }
        }
    }

    /// Takes up a job, discarding the active sink first.
    fn begin(&mut self, job: Job<V>)
        ensures
            *final(self) == old(self).beginning(job),
    {
        if self.sink_volume.is_some() {
            self.phase = Phase::Discarding(job);
        } else {
            self.proceed(job);
        }
    }

    /// The volume that a rebuilt sink gets.
    fn volume_to_carry(&self) -> (volume: V)
        ensures
            volume == self.carried_volume(),
    {
        match self.sink_volume {
            Some(volume) => volume,
            None => self.unity,
        }
    }

    /// Rebuilds the source of the loaded track at `target` seconds.
    fn rebuild(&mut self, target: u64)
        ensures
            *final(self) == old(self).rebuilding(target),
    {
        match copy_of(&self.playback.current_path) {
            Some(path) => {
                let volume = self.volume_to_carry();
                self.begin(
                    Job {
                        reopen: false,
                        start: Some(
                            Start { path, volume, offset: target, retry: true, fresh: true },
                        ),
                    },
                );
            },
            None => self.rest(),
        }
    }

    /// The start that brings playback back after a switch of the device.
    fn switch_restart(&self, now: Timestamp) -> (start: Option<Start<V>>)
        ensures
            start == self.restart_after_switch(now),
    {
        match copy_of(&self.playback.current_path) {
            Some(path) => if self.playback.clock.reference.is_some()
                && !self.playback.clock.paused {
                Some(
                    Start {
                        path,
                        volume: self.volume_to_carry(),
                        offset: self.playback.elapsed(now),
                        retry: false,
                        fresh: false,
                    },
                )
            } else {
                None
            },
            None => None,
        }
    }

    /// Takes a command from the queue.
    fn command(&mut self, command: AudioCommand<V>, now: Timestamp)
        ensures
            *final(self) == old(self).commanded(command, now),
    {
        match command {
            AudioCommand::Play(path, volume, offset) => {
                self.begin(
                    Job {
                        reopen: false,
                        start: Some(Start { path, volume, offset, retry: true, fresh: true }),
                    },
                );
            },
            AudioCommand::Pause => {
                if self.sink_volume.is_some() {
                    self.phase = Phase::Pausing;
                } else {
                    self.rest();
                }
            },
            AudioCommand::Resume => {
                if self.sink_volume.is_some() {
                    self.phase = Phase::Resuming;
                } else {
                    self.rest();
                }
            },
            AudioCommand::Stop => {
                if self.sink_volume.is_some() {
                    self.phase = Phase::Stopping;
                } else {
                    self.playback.clock.reset();
                    self.playback.current_path = None;
                    self.rest();
                }
            },
            AudioCommand::SetVolume(volume) => {
                if self.sink_volume.is_some() {
                    self.sink_volume = Some(volume);
                    self.phase = Phase::SettingVolume(volume);
                } else {
                    self.rest();
                }
            },
            AudioCommand::SetSpeed(speed) => {
                self.playback.speed = speed;
                if self.sink_volume.is_some() {
                    self.phase = Phase::SettingSpeed(speed);
                } else {
                    self.rest();
                }
            },
            AudioCommand::Seek(target) => {
                let in_place: bool = match &self.playback.current_path {
                    Some(path) => {
                        let format = source_format(path.as_str());
                        self.sink_volume.is_some() && !matches!(format, Some(SourceFormat::Flac))
                    },
                    None => false,
                };
                if in_place {
                    self.phase = Phase::Seeking(target);
                } else {
                    self.rebuild(target);
                }
            },
            AudioCommand::SetDevice(name) => {
                let start = self.switch_restart(now);
                self.selected_device = if name.as_str().is_empty() {
                    None
                } else {
                    Some(name)
                };
                self.begin(Job { reopen: true, start });
            },
        }
    }

    /// Takes the event that answers the pending action, reported at `now`,
    /// and returns the action to perform next.
    pub fn step(&mut self, event: Event<V>, now: Timestamp) -> (action: Action<V>)
        ensures
            *final(self) == old(self).next(event, now),
            action == final(self).pending(),
            old(self).well_formed() ==> final(self).well_formed(),
    {
        let mut phase: Phase<V> = Phase::Waiting;
        core::mem::swap(&mut self.phase, &mut phase);
        match (phase, event) {
            (Phase::Polling, Event::SinkPolled { drained }) => {
                if self.sink_volume.is_some() && drained
                    && self.playback.clock.reference.is_some() {
                    self.playback.finished = true;
                }
                self.phase = Phase::Waiting;
            },
            (Phase::Waiting, Event::Timeout) => {
                self.rest();
            },
            (Phase::Waiting, Event::Command(command)) => {
                self.command(command, now);
            },
            (Phase::Pausing, Event::Done) => {
                self.playback.clock.pause(now);
                self.rest();
            },
            (Phase::Resuming, Event::Done) => {
                self.playback.clock.resume(now);
                self.rest();
            },
            (Phase::Stopping, Event::Done) => {
                self.playback.clock.reset();
                self.playback.current_path = None;
                self.sink_volume = None;
                self.rest();
            },
            (Phase::SettingVolume(_), Event::Done) => {
                self.rest();
            },
            (Phase::SettingSpeed(_), Event::Done) => {
                self.rest();
            },
            (Phase::Seeking(target), Event::Seeked(moved)) => {
                if moved {
                    self.playback.clock.seek(now, target);
                    self.rest();
                } else {
                    self.rebuild(target);
                }
            },
            (Phase::Discarding(job), Event::Done) => {
                self.sink_volume = None;
                self.proceed(job);
            },
            (Phase::Opening(start), Event::Opened(open)) => {
                self.output_open = open;
                match start {
                    Some(start) => self.attempt(start),
                    None => self.rest(),
                }
            },
            (Phase::Starting(start, format), Event::Started(installed)) => {
                if installed {
                    self.playback.clock.start(now, start.offset);
                    if start.fresh {
                        self.playback.finished = false;
                    }
                    self.sink_volume = Some(start.volume);
                    self.playback.current_path = Some(start.path);
                    self.rest();
                } else {
                    self.fall_back(start);
                }
            },
            (phase, _) => {
                self.phase = phase;
            },
        }
        self.pending_action()
    }
}

} // verus!
