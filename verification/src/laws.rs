//! What holds of every session and every player, whatever the commands.
//!
//! The transitions are stated in `session` and `player` as functions on
//! views, and the executable methods are proved to follow them. The proofs
//! in this file speak of those functions.

use vstd::prelude::*;
use crate::catalog::TrackView;
use crate::command::{index_of, parsed_line, Command};
use crate::text::{blank_line_has_no_token, white_space};
use crate::engine::{open_at_end, orderly, EngineFault, EngineRequest};
use crate::gain::{in_unit_interval, Gain};
use crate::player::{PlayerView, Report};
use crate::session::{resolves, Operation, PlayerState, SessionView};

verus! {

/// One operation on a session, with what the engine reported of it and the
/// clock reading at which it was made.
pub struct Step {
    /// What was asked of the session.
    pub operation: Operation,
    /// What the engine reported of the start of a track, if it failed.
    pub fault: Option<EngineFault>,
    /// The clock reading, in nanoseconds.
    pub now: u64,
}

/// The session after a sequence of steps.
pub open spec fn after_all(session: SessionView, catalog: Seq<TrackView>, steps: Seq<Step>) -> SessionView
    decreases steps.len(),
{
    if steps.len() == 0 {
        session
    } else {
        let last = steps.last();
        after_all(session, catalog, steps.drop_last()).after(
            catalog,
            last.operation,
            last.fault,
            last.now,
        )
    }
}

/// The session at application start is well formed.
pub proof fn initial_session_is_well_formed()
    ensures
        SessionView::initial().well_formed(),
{
    crate::gain::unit_interval_as_range(crate::gain::UNITY_BITS);
}

/// Playing a track that the catalog holds, when the engine starts it, makes
/// that track the current one and the session playing: that is what a
/// status taken right afterwards reports, at whatever time it is taken.
pub proof fn play_then_status(
    session: SessionView,
    catalog: Seq<TrackView>,
    index: i32,
    now: u64,
    later: u64,
)
    requires
        session.well_formed(),
        resolves(catalog, index),
    ensures
        session.after_select_and_play(catalog, index, None, now).status(later).current_track
            == Some(index),
        session.after_select_and_play(catalog, index, None, now).status(later).state
            == PlayerState::Playing,
        SessionView::play_outcome(catalog, index, None) is Ok,
{
}

/// Playing an index that the catalog lacks changes nothing in the session,
/// asks nothing of the engine and is reported as an invalid index, whatever
/// the engine is said to have done.
pub proof fn unknown_index_changes_nothing(
    session: SessionView,
    catalog: Seq<TrackView>,
    index: i32,
    fault: Option<EngineFault>,
    now: u64,
)
    requires
        session.well_formed(),
        !resolves(catalog, index),
    ensures
        session.after_select_and_play(catalog, index, fault, now) == session,
        session.plan(catalog, Operation::SelectAndPlay(index)) == Seq::<EngineRequest>::empty(),
        SessionView::play_outcome(catalog, index, fault) == Err::<(), crate::session::PlayError>(
            crate::session::PlayError::InvalidIndex,
        ),
{
}

/// A track that the engine could not start leaves state, track, start time
/// and gain of the session as they were.
pub proof fn failed_start_keeps_the_session(
    session: SessionView,
    catalog: Seq<TrackView>,
    index: i32,
    fault: EngineFault,
    now: u64,
)
    requires
        session.well_formed(),
    ensures
        ({
            let after = session.after_select_and_play(catalog, index, Some(fault), now);
            &&& after.state == session.state
            &&& after.current_track == session.current_track
            &&& after.started_at == session.started_at
            &&& after.volume == session.volume
        }),
{
}

/// Pausing is idempotent. From a playing session the first pause leaves the
/// session paused and the second changes nothing; from any session, pausing
/// twice is pausing once.
pub proof fn pause_is_idempotent(session: SessionView)
    requires
        session.well_formed(),
    ensures
        session.state is Playing ==> session.after_pause().state is Paused,
        session.state is Playing ==> session.after_pause().after_pause().state is Paused,
        session.after_pause().after_pause() == session.after_pause(),
{
}

/// A gain outside the unit interval is refused: the stored gain, and the
/// whole session with it, is after the call what it was before, and the
/// engine is asked nothing.
pub proof fn refused_volume_changes_nothing(
    session: SessionView,
    catalog: Seq<TrackView>,
    gain: Gain,
)
    requires
        session.well_formed(),
        !in_unit_interval(gain.bits),
    ensures
        session.after_set_volume(gain).volume == session.volume,
        session.after_set_volume(gain) == session,
        session.plan(catalog, Operation::SetVolume(gain)) == Seq::<EngineRequest>::empty(),
{
}

/// A control command with nothing to act on changes nothing and asks
/// nothing of the engine: pause when nothing plays, resume when nothing is
/// paused, stop when the session is idle.
pub proof fn redundant_commands_change_nothing(session: SessionView, catalog: Seq<TrackView>)
    requires
        session.well_formed(),
    ensures
        !(session.state is Playing) ==> session.after_pause() == session && session.plan(
            catalog,
            Operation::Pause,
        ) == Seq::<EngineRequest>::empty(),
        !(session.state is Paused) ==> session.after_resume() == session && session.plan(
            catalog,
            Operation::Resume,
        ) == Seq::<EngineRequest>::empty(),
        session.state is Idle ==> session.after_stop() == session && session.plan(
            catalog,
            Operation::Stop,
        ) == Seq::<EngineRequest>::empty(),
{
}

/// Every operation leaves a well-formed session well formed.
pub proof fn operations_keep_sessions_well_formed(
    session: SessionView,
    catalog: Seq<TrackView>,
    operation: Operation,
    fault: Option<EngineFault>,
    now: u64,
)
    requires
        session.well_formed(),
    ensures
        session.after(catalog, operation, fault, now).well_formed(),
{
}

/// The plan of every operation is orderly: it starts a track only when no
/// handle is open, so that two handles are never open at once, and it
/// speaks to a handle only when one is open. The handles that the session
/// owns after the operation are those that the plan leaves open.
pub proof fn plans_never_overlap_handles(
    session: SessionView,
    catalog: Seq<TrackView>,
    operation: Operation,
    fault: Option<EngineFault>,
    now: u64,
)
    requires
        session.well_formed(),
    ensures
        orderly(session.handles(), session.plan(catalog, operation)),
        session.after(catalog, operation, fault, now).handles() == open_at_end(
            session.handles(),
            session.plan(catalog, operation),
            fault,
        ),
        0 <= session.after(catalog, operation, fault, now).handles() <= 1,
{
    reveal_with_fuel(orderly, 3);
    reveal_with_fuel(open_at_end, 3);
}

/// Switching tracks while a handle is held releases that handle first and
/// then starts the new track: the session ends with exactly one handle.
pub proof fn switching_leaves_one_handle(
    session: SessionView,
    catalog: Seq<TrackView>,
    index: i32,
    now: u64,
)
    requires
        session.well_formed(),
        session.handle_held,
        resolves(catalog, index),
    ensures
        session.plan(catalog, Operation::SelectAndPlay(index)) == seq![
            EngineRequest::Release,
            EngineRequest::Start { track: index, gain: session.volume },
        ],
        session.after_select_and_play(catalog, index, None, now).handles() == 1,
{
}

/// No sequence of operations, whatever the engine reports along the way,
/// leads to two open handles: before each step the session is well formed
/// and owns at most one handle, the plan of the step is orderly from there,
/// and the step leaves open what its plan leaves open.
pub proof fn no_sequence_opens_two_handles(
    session: SessionView,
    catalog: Seq<TrackView>,
    steps: Seq<Step>,
    k: int,
)
    requires
        session.well_formed(),
        0 <= k < steps.len(),
    ensures
        ({
            let before = after_all(session, catalog, steps.take(k));
            let after = after_all(session, catalog, steps.take(k + 1));
            let plan = before.plan(catalog, steps[k].operation);
            &&& before.well_formed()
            &&& 0 <= before.handles() <= 1
            &&& orderly(before.handles(), plan)
            &&& after.handles() == open_at_end(before.handles(), plan, steps[k].fault)
            &&& after.well_formed()
        }),
{
    sequences_keep_sessions_well_formed(session, catalog, steps.take(k));
    let before = after_all(session, catalog, steps.take(k));
    assert(steps.take(k + 1).drop_last() =~= steps.take(k));
    plans_never_overlap_handles(before, catalog, steps[k].operation, steps[k].fault, steps[k].now);
}

/// Every sequence of operations leaves a well-formed session well formed.
pub proof fn sequences_keep_sessions_well_formed(
    session: SessionView,
    catalog: Seq<TrackView>,
    steps: Seq<Step>,
)
    requires
        session.well_formed(),
    ensures
        after_all(session, catalog, steps).well_formed(),
    decreases steps.len(),
{
    if steps.len() > 0 {
        sequences_keep_sessions_well_formed(session, catalog, steps.drop_last());
    }
}

/// Leaving releases the engine handle exactly once if the session holds
/// one, and asks nothing of the engine if it holds none. Afterwards the
/// session holds no handle.
pub proof fn exit_releases_a_held_handle_once(player: PlayerView, fault: Option<EngineFault>, now: u64)
    requires
        player.session.well_formed(),
    ensures
        player.session.handle_held ==> player.plan(Command::Exit) == seq![EngineRequest::Release],
        !player.session.handle_held ==> player.plan(Command::Exit) == Seq::<
            EngineRequest,
        >::empty(),
        !player.after(Command::Exit, fault, now).session.handle_held,
        player.report(Command::Exit, fault, now) == Report::Exit,
{
}

/// A line of white space alone, the empty line among them, is no command:
/// nothing is dispatched and the player stays as it is, pending argument
/// included.
pub proof fn blank_lines_do_nothing(player: PlayerView, line: Seq<char>, reading: Option<Gain>)
    requires
        forall|k: int| 0 <= k < line.len() ==> white_space(#[trigger] line[k]),
    ensures
        parsed_line(line, reading) is Empty,
        player.after_line(line, reading) == player,
{
    blank_line_has_no_token(line);
}

/// A `play` whose pending argument names a track of the catalog, and that
/// the engine starts, is reported as now playing, and a `status` right
/// afterwards shows that track as current and the session as playing.
pub proof fn play_command_then_status_command(
    player: PlayerView,
    text: Seq<char>,
    index: i32,
    now: u64,
    later: u64,
)
    requires
        player.session.well_formed(),
        player.last_input == Some(text),
        index_of(text) == Some(index),
        resolves(player.catalog, index),
    ensures
        player.report(Command::Play, None, now) == Report::NowPlaying(index),
        player.after(Command::Play, None, now).report(Command::Status, None, later)
            == Report::Status(
            crate::session::StatusSnapshot {
                current_track: Some(index),
                state: PlayerState::Playing,
                elapsed_seconds: Some(crate::session::seconds_between(now, later)),
                volume: player.session.volume,
            },
        ),
{
}

/// Commands change nothing but the session, and these change nothing at
/// all: `list`, `status`, `help`, a line that names no command, a `play`
/// whose pending argument is missing or names no track, and a `volume`
/// outside the unit interval. None of them asks anything of the engine.
pub proof fn commands_without_effect(player: PlayerView, command: Command, fault: Option<EngineFault>, now: u64)
    requires
        player.session.well_formed(),
    ensures
        player.after(command, fault, now).catalog == player.catalog,
        player.after(command, fault, now).last_input == player.last_input,
        player.after(command, fault, now).main_dir == player.main_dir,
        (command is List || command is Status || command is Help || command is Invalid) ==> {
            &&& player.after(command, fault, now) == player
            &&& player.plan(command) == Seq::<EngineRequest>::empty()
        },
        (command is Play && (player.report(command, fault, now) is MissingIndex || player.report(
            command,
            fault,
            now,
        ) is InvalidIndex)) ==> {
            &&& player.after(command, fault, now) == player
            &&& player.plan(command) == Seq::<EngineRequest>::empty()
        },
        player.report(command, fault, now) is VolumeOutOfRange ==> {
            &&& player.after(command, fault, now) == player
            &&& player.plan(command) == Seq::<EngineRequest>::empty()
        },
{
}

} // verus!
