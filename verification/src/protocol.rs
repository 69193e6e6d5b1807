//! What holds of the exchange between the engine and its driver: which event
//! answers which action, what a whole command comes to once its actions were
//! performed, and what no step can do.

use crate::clock::{PlaybackClock, Timestamp, NANOS_PER_SEC};
use crate::engine::{Action, AudioCommand, Engine, Event, Phase, Playback, Start};
use crate::media::{source_format_of, SourceFormat};
use crate::session::{clamped_position, Session};
use vstd::prelude::*;

verus! {

/// Whether `event` is an answer to `action`.
pub open spec fn answers<V>(action: Action<V>, event: Event<V>) -> bool {
    match action {
        Action::PollSink => event is SinkPolled,
        Action::AwaitCommand => event is Command || event is Timeout,
        Action::PauseSink => event is Done,
        Action::ResumeSink => event is Done,
        Action::DiscardSink => event is Done,
        Action::SetSinkVolume(_) => event is Done,
        Action::SetSinkSpeed(_) => event is Done,
        Action::SeekSink(_) => event is Seeked,
        Action::OpenOutput(_) => event is Opened,
        Action::StartSource { .. } => event is Started,
    }
}

/// The engine once the driver has discarded the sink that was active, if
/// one was.
pub open spec fn sink_discarded<V>(engine: Engine<V>, now: Timestamp) -> Engine<V> {
    if engine.phase is Discarding {
        engine.next(Event::Done, now)
    } else {
        engine
    }
}

/// A new engine is well formed, and no event makes a well-formed engine
/// ill formed.
pub proof fn lemma_engine_stays_well_formed<V>(
    unity: V,
    engine: Engine<V>,
    event: Event<V>,
    now: Timestamp,
)
    ensures
        Engine::initial(unity).well_formed(),
        engine.well_formed() ==> engine.next(event, now).well_formed(),
{
}

/// A well-formed engine asks for nothing that its driver cannot do: it asks
/// something of the sink only while one is active, it has the output opened
/// or a source started only while none is active, and it has a source
/// started only on an open output.
pub proof fn lemma_actions_fit_the_driver<V>(engine: Engine<V>)
    requires
        engine.well_formed(),
    ensures
        match engine.pending() {
            Action::PollSink => engine.sink_active(),
            Action::AwaitCommand => true,
            Action::PauseSink => engine.sink_active(),
            Action::ResumeSink => engine.sink_active(),
            Action::DiscardSink => engine.sink_active(),
            Action::SetSinkVolume(volume) => engine.sink_volume == Some(volume),
            Action::SetSinkSpeed(_) => engine.sink_active(),
            Action::SeekSink(_) => engine.sink_active(),
            Action::OpenOutput(_) => !engine.sink_active(),
            Action::StartSource { path, format, .. } => !engine.sink_active()
                && engine.output_open && source_format_of(path@) == Some(format),
        },
{
}

/// An upper bound on the number of events that the engine still takes
/// before it waits for the next command.
pub open spec fn events_left<V>(engine: Engine<V>) -> nat {
    match engine.phase {
        Phase::Waiting => 0,
        Phase::Polling => 1,
        Phase::Pausing => 2,
        Phase::Resuming => 2,
        Phase::Stopping => 2,
        Phase::SettingVolume(_) => 2,
        Phase::SettingSpeed(_) => 2,
        Phase::Starting(start, _) => if start.retry {
            4
        } else {
            2
        },
        Phase::Opening(None) => 2,
        Phase::Opening(Some(start)) => if start.retry {
            5
        } else {
            3
        },
        Phase::Discarding(_) => 6,
        Phase::Seeking(_) => 7,
    }
}

/// Every command comes to an end, whatever the outside work does: while the
/// engine is busy, each event that answers its action brings it closer to
/// the wait for the next command, which it reaches after seven events at
/// most.
pub proof fn lemma_every_command_ends<V>(engine: Engine<V>, event: Event<V>, now: Timestamp)
    ensures
        events_left(engine) <= 7,
        events_left(engine) == 0 <==> engine.pending() is AwaitCommand,
        !(engine.phase is Waiting) && answers(engine.pending(), event) ==> events_left(
            engine.next(event, now),
        ) < events_left(engine),
{
}

/// An event that does not answer the pending action is ignored.
pub proof fn lemma_unexpected_event_is_ignored<V>(
    engine: Engine<V>,
    event: Event<V>,
    now: Timestamp,
)
    requires
        !answers(engine.pending(), event),
    ensures
        engine.next(event, now) == engine,
{
}

/// The engine answers every event with an action. After an event that was
/// expected, it polls the sink only if one is active.
pub proof fn lemma_sink_is_polled_only_when_active<V>(
    engine: Engine<V>,
    event: Event<V>,
    now: Timestamp,
)
    requires
        answers(engine.pending(), event),
    ensures
        engine.next(event, now).pending() is PollSink ==> engine.next(event, now).sink_active(),
{
}

/// Commands are taken one at a time: while an action other than the wait
/// for a command is pending, a command changes nothing.
pub proof fn lemma_commands_are_taken_one_at_a_time<V>(
    engine: Engine<V>,
    command: AudioCommand<V>,
    now: Timestamp,
)
    requires
        !(engine.phase is Waiting),
    ensures
        engine.next(Event::Command(command), now) == engine,
{
}

/// Work that fails changes nothing of what readers see: not a source that
/// could not be started, not a stream that could not be repositioned, not
/// an output that was or was not opened, not a wait that ran out.
pub proof fn lemma_failure_leaves_playback_unchanged<V>(
    engine: Engine<V>,
    event: Event<V>,
    now: Timestamp,
)
    requires
        event == Event::<V>::Started(false) || event == Event::<V>::Seeked(false)
            || event is Opened || event is Timeout,
    ensures
        engine.next(event, now).playback == engine.playback,
{
}

/// The clock is written by nothing but the transport: a pause or a resume
/// that the sink obeyed, a stop, a stream that was repositioned in place,
/// and a source that was installed. Polls, changes of volume or speed,
/// failures and the opening of outputs leave it as it is.
pub proof fn lemma_clock_is_written_only_by_transport<V>(
    engine: Engine<V>,
    event: Event<V>,
    now: Timestamp,
)
    requires
        engine.next(event, now).playback.clock != engine.playback.clock,
    ensures
        ({
            ||| engine.phase is Pausing && event is Done
            ||| engine.phase is Resuming && event is Done
            ||| engine.phase is Stopping && event is Done
            ||| engine.phase is Waiting && event == Event::<V>::Command(AudioCommand::Stop)
            ||| engine.phase is Seeking && event == Event::<V>::Seeked(true)
            ||| engine.phase is Starting && event == Event::<V>::Started(true)
        }),
{
}

/// The loaded track changes only when a source is installed or playback is
/// stopped.
pub proof fn lemma_track_changes_only_on_start_or_stop<V>(
    engine: Engine<V>,
    event: Event<V>,
    now: Timestamp,
)
    requires
        engine.next(event, now).playback.current_path != engine.playback.current_path,
    ensures
        ({
            ||| engine.phase is Stopping && event is Done
            ||| engine.phase is Waiting && event == Event::<V>::Command(AudioCommand::Stop)
            ||| engine.phase is Starting && event == Event::<V>::Started(true)
        }),
{
}

/// A drained sink marks a loaded track as finished. A track that is
/// finished stays so, and a further poll changes nothing that readers see.
pub proof fn lemma_poll_marks_finished_once<V>(engine: Engine<V>, drained: bool, now: Timestamp)
    requires
        engine.phase is Polling,
        engine.sink_active(),
    ensures
        engine.next(Event::SinkPolled { drained }, now).playback.finished == (
        engine.playback.finished || (drained && engine.playback.clock.reference is Some)),
        engine.next(Event::SinkPolled { drained }, now).playback.clock == engine.playback.clock,
        engine.next(Event::SinkPolled { drained }, now).playback.current_path
            == engine.playback.current_path,
        engine.playback.finished ==> engine.next(Event::SinkPolled { drained }, now).playback
            == engine.playback,
        engine.next(Event::SinkPolled { drained }, now).pending() == Action::<V>::AwaitCommand,
{
}

/// The finished flag is taken back by nothing but a source that a play or a
/// seek command had built.
pub proof fn lemma_finished_is_cleared_only_by_fresh_start<V>(
    engine: Engine<V>,
    event: Event<V>,
    now: Timestamp,
)
    requires
        engine.playback.finished,
        !engine.next(event, now).playback.finished,
    ensures
        event == Event::<V>::Started(true),
        engine.phase matches Phase::Starting(start, _) && start.fresh,
{
}

/// Without a sink, pause, resume and a change of volume do nothing, and
/// without a loaded track a seek does nothing.
pub proof fn lemma_commands_without_target_do_nothing<V>(
    engine: Engine<V>,
    command: AudioCommand<V>,
    now: Timestamp,
)
    requires
        engine.phase is Waiting,
        !engine.sink_active(),
        command is Pause || command is Resume || command is SetVolume || (command is Seek
            && engine.playback.current_path is None),
    ensures
        engine.next(Event::Command(command), now) == engine,
{
}

/// A play command first has the active sink discarded. Then, with an open
/// output and a path that has an extension, it has the source started at
/// the volume and offset of the command.
pub proof fn lemma_play_asks_for_source<V>(
    engine: Engine<V>,
    path: String,
    volume: V,
    offset: u64,
    now: Timestamp,
    later: Timestamp,
)
    requires
        engine.phase is Waiting,
        engine.output_open,
        source_format_of(path@) is Some,
    ensures
        ({
            let taken = engine.next(Event::Command(AudioCommand::Play(path, volume, offset)), now);
            &&& engine.sink_active() ==> taken.pending() == Action::<V>::DiscardSink
            &&& taken.playback == engine.playback
            &&& sink_discarded(taken, later).playback == engine.playback
            &&& !sink_discarded(taken, later).sink_active()
            &&& sink_discarded(taken, later).pending() == (Action::StartSource {
                path,
                format: source_format_of(path@)->0,
                volume,
                offset,
            })
        }),
{
}

/// Once the source of a play or seek command is installed, the track is
/// loaded and not finished, the sink plays at the volume asked for, and the
/// clock runs from the offset asked for: read at that instant it gives the
/// offset.
pub proof fn lemma_started_source_sets_playback<V>(
    engine: Engine<V>,
    start: Start<V>,
    format: SourceFormat,
    now: Timestamp,
)
    requires
        engine.phase == Phase::Starting(start, format),
    ensures
        ({
            let running = engine.next(Event::Started(true), now);
            &&& running.playback.clock == PlaybackClock::started(now, start.offset)
            &&& running.playback.current_path == Some(start.path)
            &&& running.playback.finished == (engine.playback.finished && !start.fresh)
            &&& running.playback.speed == engine.playback.speed
            &&& running.playback.elapsed_at(now) == start.offset
            &&& running.sink_volume == Some(start.volume)
            &&& running.pending() == Action::<V>::PollSink
        }),
{
}

/// A source that cannot be started for a play or seek command is tried once
/// more on a reopened output, and then given up: the engine waits for the
/// next command with no sink, and what readers see is as it was.
pub proof fn lemma_start_is_retried_once<V>(
    engine: Engine<V>,
    start: Start<V>,
    format: SourceFormat,
    reopened: bool,
    t1: Timestamp,
    t2: Timestamp,
    t3: Timestamp,
)
    requires
        engine.phase == Phase::Starting(start, format),
        start.retry,
        !engine.sink_active(),
        source_format_of(start.path@) is Some,
    ensures
        ({
            let failed = engine.next(Event::Started(false), t1);
            let opened = failed.next(Event::Opened(reopened), t2);
            let given_up = opened.next(Event::Started(false), t3);
            &&& failed.pending() == Action::<V>::OpenOutput(engine.selected_device)
            &&& reopened ==> opened.pending() == (Action::StartSource {
                path: start.path,
                format: source_format_of(start.path@)->0,
                volume: start.volume,
                offset: start.offset,
            })
            &&& reopened ==> given_up.pending() == Action::<V>::AwaitCommand
            &&& reopened ==> given_up.playback == engine.playback
            &&& !reopened ==> opened.pending() == Action::<V>::AwaitCommand
            &&& !reopened ==> opened.playback == engine.playback
            &&& !reopened ==> !opened.output_open
        }),
{
}

/// A seek on a track whose stream can be repositioned in place asks the
/// sink to do so. If that succeeds, only the clock changes: it reads the
/// target at that instant unless a pause was recorded at a later one, the
/// sink and its volume stay, and whether the clock is paused stays.
pub proof fn lemma_seek_in_place<V>(
    engine: Engine<V>,
    target: u64,
    now: Timestamp,
    later: Timestamp,
)
    requires
        engine.phase is Waiting,
        engine.sink_active(),
        engine.playback.current_path is Some,
        source_format_of(engine.playback.current_path->0@) != Some(SourceFormat::Flac),
    ensures
        ({
            let asked = engine.next(Event::Command(AudioCommand::Seek(target)), now);
            let moved = asked.next(Event::Seeked(true), later);
            &&& asked.pending() == Action::<V>::SeekSink(target)
            &&& asked.playback == engine.playback
            &&& moved.playback == (Playback {
                clock: engine.playback.clock.sought(later, target),
                ..engine.playback
            })
            &&& moved.sink_volume == engine.sink_volume
            &&& moved.playback.clock.paused == engine.playback.clock.paused
            &&& (engine.playback.clock.pause_instant is Some
                ==> engine.playback.clock.pause_instant->0.nanos <= later.nanos)
                ==> moved.playback.elapsed_at(later) == target
            &&& moved.pending() == Action::<V>::PollSink
        }),
{
}

/// A seek on a FLAC track, or one that the sink could not do in place,
/// rebuilds the source at the target: the sink is discarded, and the source
/// of the loaded track is started at the target and at the volume that the
/// discarded sink had.
pub proof fn lemma_seek_rebuilds_source<V>(
    engine: Engine<V>,
    target: u64,
    in_place_failed: bool,
    now: Timestamp,
    t1: Timestamp,
    t2: Timestamp,
)
    requires
        engine.phase is Waiting,
        engine.sink_active(),
        engine.output_open,
        engine.playback.current_path is Some,
        source_format_of(engine.playback.current_path->0@) is Some,
        in_place_failed == (source_format_of(engine.playback.current_path->0@) != Some(
            SourceFormat::Flac,
        )),
    ensures
        ({
            let asked = engine.next(Event::Command(AudioCommand::Seek(target)), now);
            let rebuilding = if in_place_failed {
                asked.next(Event::Seeked(false), t1)
            } else {
                asked
            };
            let cleared = rebuilding.next(Event::Done, t2);
            &&& in_place_failed ==> asked.pending() == Action::<V>::SeekSink(target)
            &&& rebuilding.pending() == Action::<V>::DiscardSink
            &&& cleared.pending() == (Action::StartSource {
                path: engine.playback.current_path->0,
                format: source_format_of(engine.playback.current_path->0@)->0,
                volume: engine.sink_volume->0,
                offset: target,
            })
            &&& cleared.playback == engine.playback
            &&& cleared.phase matches Phase::Starting(start, _) && start.fresh && start.retry
        }),
{
}

/// A seek without an active sink rebuilds the source of the loaded track at
/// the target, at unity volume.
pub proof fn lemma_seek_without_sink_rebuilds_at_unity<V>(
    engine: Engine<V>,
    target: u64,
    now: Timestamp,
)
    requires
        engine.phase is Waiting,
        !engine.sink_active(),
        engine.output_open,
        engine.playback.current_path is Some,
        source_format_of(engine.playback.current_path->0@) is Some,
    ensures
        engine.next(Event::Command(AudioCommand::Seek(target)), now).pending() == (
        Action::StartSource {
            path: engine.playback.current_path->0,
            format: source_format_of(engine.playback.current_path->0@)->0,
            volume: engine.unity,
            offset: target,
        }),
{
}

/// A pause is recorded once the sink is paused, a resume once it plays on.
/// Over a pause and a resume the position never moves backwards: while
/// paused it is frozen at the position at the pause, and at the resume the
/// clock runs on from there.
pub proof fn lemma_pause_then_resume<V>(
    engine: Engine<V>,
    t1: Timestamp,
    paused_at: Timestamp,
    t2: Timestamp,
    t3: Timestamp,
    resumed_at: Timestamp,
    between: Timestamp,
)
    requires
        engine.phase is Waiting,
        engine.sink_active(),
        engine.playback.clock.is_running(),
    ensures
        ({
            let pausing = engine.next(Event::Command(AudioCommand::Pause), t1);
            let paused = pausing.next(Event::Done, paused_at);
            let waiting = paused.next(Event::SinkPolled { drained: false }, t2);
            let resuming = waiting.next(Event::Command(AudioCommand::Resume), t3);
            let resumed = resuming.next(Event::Done, resumed_at);
            &&& pausing.pending() == Action::<V>::PauseSink
            &&& paused.playback.clock.paused
            &&& paused.playback.elapsed_at(between) == engine.playback.elapsed_at(paused_at)
            &&& resuming.pending() == Action::<V>::ResumeSink
            &&& !resumed.playback.clock.paused
            &&& resumed.playback.elapsed_at(resumed_at) == engine.playback.elapsed_at(paused_at)
            &&& resumed.playback.current_path == engine.playback.current_path
            &&& resumed.sink_volume == engine.sink_volume
        }),
{
}

/// A stop discards the sink and resets the clock: nothing is loaded, the
/// position reads zero, and the engine waits for the next command.
pub proof fn lemma_stop_resets<V>(
    engine: Engine<V>,
    now: Timestamp,
    later: Timestamp,
    read: Timestamp,
)
    requires
        engine.phase is Waiting,
    ensures
        ({
            let taken = engine.next(Event::Command(AudioCommand::Stop), now);
            let stopped = if engine.sink_active() {
                taken.next(Event::Done, later)
            } else {
                taken
            };
            &&& engine.sink_active() ==> taken.pending() == Action::<V>::DiscardSink
            &&& stopped.playback.clock == PlaybackClock::idle()
            &&& stopped.playback.current_path is None
            &&& stopped.playback.elapsed_at(read) == 0
            &&& stopped.playback.speed == engine.playback.speed
            &&& !stopped.sink_active()
            &&& stopped.pending() == Action::<V>::AwaitCommand
        }),
{
}

/// A change of speed is recorded whether or not a sink is active, and never
/// touches the clock. A change of volume reaches the active sink and
/// nothing that readers see.
pub proof fn lemma_levels_leave_the_clock_alone<V>(engine: Engine<V>, level: V, now: Timestamp)
    requires
        engine.phase is Waiting,
    ensures
        ({
            let sped = engine.next(Event::Command(AudioCommand::SetSpeed(level)), now);
            let tuned = engine.next(Event::Command(AudioCommand::SetVolume(level)), now);
            &&& sped.playback == (Playback { speed: level, ..engine.playback })
            &&& engine.sink_active() ==> sped.pending() == Action::SetSinkSpeed(level)
            &&& tuned.playback == engine.playback
            &&& engine.sink_active() ==> tuned.pending() == Action::SetSinkVolume(level)
            &&& engine.sink_active() ==> tuned.sink_volume == Some(level)
        }),
{
}

/// A switch of the output device records the device, discards the sink and
/// reopens the output. If the clock was running, the loaded track is then
/// started again at the position it had when the command was taken and at
/// the volume of the discarded sink; the finished flag stays as it was.
pub proof fn lemma_device_switch_restarts_running_track<V>(
    engine: Engine<V>,
    name: String,
    now: Timestamp,
    t1: Timestamp,
    t2: Timestamp,
    t3: Timestamp,
)
    requires
        engine.phase is Waiting,
        engine.sink_active(),
        engine.playback.clock.is_running(),
        engine.playback.current_path is Some,
        source_format_of(engine.playback.current_path->0@) is Some,
    ensures
        ({
            let taken = engine.next(Event::Command(AudioCommand::SetDevice(name)), now);
            let cleared = taken.next(Event::Done, t1);
            let opened = cleared.next(Event::Opened(true), t2);
            let running = opened.next(Event::Started(true), t3);
            &&& taken.selected_device == Engine::<V>::device_named(name)
            &&& taken.pending() == Action::<V>::DiscardSink
            &&& cleared.pending() == Action::<V>::OpenOutput(Engine::<V>::device_named(name))
            &&& opened.pending() == (Action::StartSource {
                path: engine.playback.current_path->0,
                format: source_format_of(engine.playback.current_path->0@)->0,
                volume: engine.sink_volume->0,
                offset: engine.playback.elapsed_at(now) as u64,
            })
            &&& opened.playback == engine.playback
            &&& running.playback.clock == PlaybackClock::started(
                t3,
                engine.playback.elapsed_at(now) as u64,
            )
            &&& running.playback.current_path == engine.playback.current_path
            &&& running.playback.finished == engine.playback.finished
            &&& running.sink_volume == engine.sink_volume
        }),
{
}

/// A switch of the output device while nothing plays, or while playback is
/// paused, restarts nothing: once the output was reopened, or could not be,
/// the engine waits for the next command, no sink is active, and what
/// readers see is as it was. The same holds when playback was running and
/// the output could not be reopened.
pub proof fn lemma_device_switch_without_restart<V>(
    engine: Engine<V>,
    name: String,
    reopened: bool,
    now: Timestamp,
    t1: Timestamp,
    t2: Timestamp,
)
    requires
        engine.phase is Waiting,
        !engine.playback.clock.is_running() || engine.playback.current_path is None || !reopened,
    ensures
        ({
            let taken = engine.next(Event::Command(AudioCommand::SetDevice(name)), now);
            let opened = sink_discarded(taken, t1).next(Event::Opened(reopened), t2);
            &&& opened.selected_device == Engine::<V>::device_named(name)
            &&& opened.output_open == reopened
            &&& opened.playback == engine.playback
            &&& !opened.sink_active()
            &&& opened.pending() == Action::<V>::AwaitCommand
        }),
{
}

/// The engine starts by opening the default output; whether or not that
/// succeeds, it then waits for the first command with nothing loaded.
pub proof fn lemma_initial_engine_opens_default_output<V>(unity: V, opened: bool, now: Timestamp)
    ensures
        Engine::initial(unity).pending() == Action::<V>::OpenOutput(None),
        Engine::initial(unity).next(Event::Opened(opened), now).pending()
            == Action::<V>::AwaitCommand,
        Engine::initial(unity).next(Event::Opened(opened), now).output_open == opened,
        Engine::initial(unity).next(Event::Opened(opened), now).playback == Playback::idle(unity),
{
}

/// A snapshot taken less than a second after a seek within the track was
/// done in place shows the position asked for, whether playback runs or is
/// paused, provided that no pause was recorded at a later instant than the
/// seek.
pub proof fn lemma_status_after_seek_in_place<V>(
    session: Session<V>,
    engine: Engine<V>,
    position: u64,
    now: Timestamp,
    moved_at: Timestamp,
    read_at: Timestamp,
)
    requires
        session.current_duration is Some ==> position <= session.current_duration->0,
        engine.phase is Waiting,
        engine.sink_active(),
        engine.playback.current_path is Some,
        source_format_of(engine.playback.current_path->0@) != Some(SourceFormat::Flac),
        engine.playback.clock.pause_instant is Some
            ==> engine.playback.clock.pause_instant->0.nanos <= moved_at.nanos,
        moved_at.nanos <= read_at.nanos,
        read_at.nanos - moved_at.nanos < NANOS_PER_SEC,
    ensures
        ({
            let target = clamped_position(position as int, session.current_duration) as u64;
            let moved = engine.next(Event::Command(AudioCommand::Seek(target)), now).next(
                Event::Seeked(true),
                moved_at,
            );
            &&& target == position
            &&& session.status_at(moved.playback, read_at).elapsed == position
        }),
{
}

/// A snapshot taken less than a second after a source was installed shows
/// the offset at which the source was started: the position asked for by a
/// play command, the target of a seek that rebuilt the source.
pub proof fn lemma_status_after_start<V>(
    session: Session<V>,
    engine: Engine<V>,
    start: Start<V>,
    format: SourceFormat,
    started_at: Timestamp,
    read_at: Timestamp,
)
    requires
        engine.phase == Phase::Starting(start, format),
        started_at.nanos <= read_at.nanos,
        read_at.nanos - started_at.nanos < NANOS_PER_SEC,
    ensures
        session.status_at(
            engine.next(Event::Started(true), started_at).playback,
            read_at,
        ).elapsed == start.offset,
{
}

/// A snapshot shows what the session and the engine recorded last: the
/// volume that the session was told, the speed that the engine was told.
pub proof fn lemma_status_reports_levels<V>(
    session: Session<V>,
    engine: Engine<V>,
    volume: V,
    speed: V,
    now: Timestamp,
    read_at: Timestamp,
)
    requires
        engine.phase is Waiting,
    ensures
        (Session { volume, ..session }).status_at(engine.playback, read_at).volume == volume,
        session.status_at(
            engine.next(Event::Command(AudioCommand::SetSpeed(speed)), now).playback,
            read_at,
        ).speed == speed,
{
}

} // verus!
