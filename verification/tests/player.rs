use musicplayer::catalog::FileEntry;
use musicplayer::command::{gain_token, Command, Parsed, VolumeParseError};
use musicplayer::engine::{EngineFault, EngineRequest};
use musicplayer::gain::Gain;
use musicplayer::player::{CliPlayer, DirectoryListing, Report, StartupError};
use musicplayer::session::{PlayError, PlayerState, StatusSnapshot};
use std::path::PathBuf;

const TICK: u64 = 1_000_000_000;

/// Stands in for the audio engine: it counts what it is asked to do and
/// fails the start of the tracks it is told to fail.
struct MockEngine {
    open: usize,
    peak: usize,
    releases: usize,
    starts: usize,
    failing: Vec<i32>,
    log: Vec<EngineRequest>,
}

impl MockEngine {
    fn new() -> MockEngine {
        MockEngine { open: 0, peak: 0, releases: 0, starts: 0, failing: Vec::new(), log: Vec::new() }
    }

    fn carry_out(&mut self, plan: &[EngineRequest]) -> Option<EngineFault> {
        let mut fault = None;
        for request in plan {
            self.log.push(*request);
            match request {
                EngineRequest::Release => {
                    assert_eq!(self.open, 1, "release without an open handle");
                    self.open -= 1;
                    self.releases += 1;
                }
                EngineRequest::Start { track, .. } => {
                    assert_eq!(self.open, 0, "start while a handle is open");
                    self.starts += 1;
                    if self.failing.contains(track) {
                        fault = Some(EngineFault::SourceUndecodable);
                    } else {
                        self.open += 1;
                    }
                }
                EngineRequest::Pause | EngineRequest::Resume | EngineRequest::SetGain(_) => {
                    assert_eq!(self.open, 1, "signal without an open handle");
                }
            }
            self.peak = self.peak.max(self.open);
        }
        fault
    }
}

fn gain_from(value: f32) -> Gain {
    Gain::from_bits(value.to_bits())
}

fn files(names: &[&str]) -> Vec<FileEntry> {
    names
        .iter()
        .map(|name| FileEntry { path: PathBuf::from("/music").join(name), name: name.to_string() })
        .collect()
}

fn player_with(names: &[&str]) -> CliPlayer {
    let mut player = CliPlayer::new();
    let started = player.run(Some("/music".to_string()), DirectoryListing::Files(files(names)));
    assert_eq!(started, Ok(names.len()));
    player
}

/// Handles one line the way the program does: parse, let the engine carry
/// out the plan, make the transition.
fn enter(player: &mut CliPlayer, engine: &mut MockEngine, line: &str, now: u64) -> Option<Report> {
    let reading = gain_token(line)
        .and_then(|token| token.parse::<f32>().ok())
        .map(|value| Gain::from_bits(value.to_bits()));
    match player.get_commands(line, reading) {
        Parsed::Empty => None,
        Parsed::VolumeParseError(_) => None,
        Parsed::Command(command) => {
            let plan = player.engine_requests(command);
            let fault = engine.carry_out(&plan);
            Some(player.act_on_commands(command, fault, now))
        }
    }
}

#[test]
fn new_player_has_nothing() {
    let player = CliPlayer::new();
    assert_eq!(player.catalog().len(), 0);
    assert_eq!(player.session().state(), PlayerState::Idle);
    assert_eq!(player.session().current_track(), None);
    assert_eq!(player.last_input(), &None);
    assert_eq!(player.main_dir(), &None);
    assert!(player.list().is_empty());
}

#[test]
fn directory_with_three_files_lists_three_entries() {
    let player = player_with(&["b.mp3", "a.mp3", "c.mp3"]);
    assert_eq!(player.catalog().len(), 3);
    assert_eq!(player.main_dir(), &Some("/music".to_string()));
    let entries = player.list();
    assert_eq!(entries.len(), 3);
    let indices: Vec<i32> = entries.iter().map(|entry| entry.index).collect();
    assert_eq!(indices, vec![1, 2, 3]);
    let names: Vec<&str> = entries.iter().map(|entry| entry.name.as_str()).collect();
    assert_eq!(names, vec!["b.mp3", "a.mp3", "c.mp3"]);
    assert!(entries.iter().all(|entry| !entry.current));
}

#[test]
fn startup_needs_a_directory() {
    let mut player = CliPlayer::new();
    assert_eq!(
        player.run(None, DirectoryListing::Files(files(&["a.mp3"]))),
        Err(StartupError::MissingDirectory)
    );
    assert_eq!(
        player.run(Some("/nowhere".to_string()), DirectoryListing::Unreadable),
        Err(StartupError::DirectoryUnreadable)
    );
    assert_eq!(
        player.run(Some("/etc/hosts".to_string()), DirectoryListing::NotADirectory),
        Err(StartupError::DirectoryNotFound)
    );
    assert_eq!(player.catalog().len(), 0);
    assert_eq!(player.main_dir(), &None);
    assert_eq!(player.run(Some("/empty".to_string()), DirectoryListing::Files(Vec::new())), Ok(0));
    assert_eq!(player.main_dir(), &Some("/empty".to_string()));
}

#[test]
fn load_songs_replaces_the_catalog() {
    let mut player = CliPlayer::new();
    player.load_songs(files(&["x.mp3", "y.mp3"]));
    assert_eq!(player.catalog().len(), 2);
    assert_eq!(player.catalog().get(2).unwrap().display_name(), "y.mp3");
    assert_eq!(player.main_dir(), &None);
    player.load_songs(files(&["z.mp3"]));
    assert_eq!(player.catalog().len(), 1);
    assert_eq!(player.catalog().get(1).unwrap().display_name(), "z.mp3");
}

#[test]
fn play_pause_resume_status() {
    let mut player = player_with(&["one.mp3", "two.mp3", "three.mp3"]);
    let mut engine = MockEngine::new();
    assert_eq!(enter(&mut player, &mut engine, "play 2", 10 * TICK), Some(Report::NowPlaying(2)));
    assert_eq!(enter(&mut player, &mut engine, "pause", 11 * TICK), Some(Report::Paused));
    assert_eq!(enter(&mut player, &mut engine, "resume", 12 * TICK), Some(Report::Resumed));
    assert_eq!(
        enter(&mut player, &mut engine, "status", 13 * TICK),
        Some(Report::Status(StatusSnapshot {
            current_track: Some(2),
            state: PlayerState::Playing,
            elapsed_seconds: Some(3),
            volume: gain_from(1.0),
        }))
    );
    assert_eq!(
        engine.log,
        vec![
            EngineRequest::Start { track: 2, gain: gain_from(1.0) },
            EngineRequest::Pause,
            EngineRequest::Resume,
        ]
    );
}

#[test]
fn play_out_of_range_reports_invalid_index() {
    let mut player = player_with(&["one.mp3", "two.mp3", "three.mp3"]);
    let mut engine = MockEngine::new();
    assert_eq!(enter(&mut player, &mut engine, "play 99", TICK), Some(Report::InvalidIndex));
    assert_eq!(
        enter(&mut player, &mut engine, "status", 2 * TICK),
        Some(Report::Status(StatusSnapshot {
            current_track: None,
            state: PlayerState::Idle,
            elapsed_seconds: None,
            volume: gain_from(1.0),
        }))
    );
    assert!(engine.log.is_empty());
}

#[test]
fn volume_out_of_range_keeps_the_volume() {
    let mut player = player_with(&["one.mp3"]);
    let mut engine = MockEngine::new();
    assert_eq!(
        enter(&mut player, &mut engine, "volume 1.5", TICK),
        Some(Report::VolumeOutOfRange)
    );
    assert_eq!(player.session().status(TICK).volume, gain_from(1.0));
    assert_eq!(
        enter(&mut player, &mut engine, "volume 0.3", TICK),
        Some(Report::VolumeSet(gain_from(0.3)))
    );
    assert_eq!(
        enter(&mut player, &mut engine, "volume -0.1", TICK),
        Some(Report::VolumeOutOfRange)
    );
    assert_eq!(enter(&mut player, &mut engine, "volume nan", TICK), Some(Report::VolumeOutOfRange));
    assert_eq!(enter(&mut player, &mut engine, "volume inf", TICK), Some(Report::VolumeOutOfRange));
    assert_eq!(player.session().status(TICK).volume, gain_from(0.3));
    assert!(engine.log.is_empty());
}

#[test]
fn stop_while_idle_is_silent() {
    let mut player = player_with(&["one.mp3"]);
    let mut engine = MockEngine::new();
    let before = player.session().status(TICK);
    assert_eq!(enter(&mut player, &mut engine, "stop", TICK), Some(Report::Ignored));
    assert_eq!(player.session().status(TICK), before);
    assert_eq!(enter(&mut player, &mut engine, "pause", TICK), Some(Report::Ignored));
    assert_eq!(enter(&mut player, &mut engine, "resume", TICK), Some(Report::Ignored));
    assert_eq!(player.session().status(TICK), before);
    assert!(engine.log.is_empty());
}

#[test]
fn exit_releases_a_held_handle_exactly_once() {
    let mut player = player_with(&["one.mp3", "two.mp3"]);
    let mut engine = MockEngine::new();
    assert_eq!(enter(&mut player, &mut engine, "play 1", TICK), Some(Report::NowPlaying(1)));
    assert_eq!(engine.releases, 0);
    assert_eq!(enter(&mut player, &mut engine, "exit", 2 * TICK), Some(Report::Exit));
    assert_eq!(engine.releases, 1);
    assert_eq!(engine.open, 0);
    assert!(!player.session().holds_handle());
    assert!(player.engine_requests(Command::Exit).is_empty());
}

#[test]
fn exit_without_a_handle_releases_nothing() {
    let mut player = player_with(&["one.mp3"]);
    let mut engine = MockEngine::new();
    assert!(player.engine_requests(Command::Exit).is_empty());
    assert_eq!(enter(&mut player, &mut engine, "exit", TICK), Some(Report::Exit));
    assert_eq!(engine.releases, 0);
    assert!(engine.log.is_empty());

    assert_eq!(enter(&mut player, &mut engine, "play 1", TICK), Some(Report::NowPlaying(1)));
    assert_eq!(enter(&mut player, &mut engine, "stop", TICK), Some(Report::Stopped));
    assert_eq!(engine.releases, 1);
    assert_eq!(enter(&mut player, &mut engine, "exit", TICK), Some(Report::Exit));
    assert_eq!(engine.releases, 1);
}

#[test]
fn exit_while_paused_releases_the_handle() {
    let mut player = player_with(&["one.mp3"]);
    let mut engine = MockEngine::new();
    assert_eq!(enter(&mut player, &mut engine, "play 1", TICK), Some(Report::NowPlaying(1)));
    assert_eq!(enter(&mut player, &mut engine, "pause", TICK), Some(Report::Paused));
    assert_eq!(player.engine_requests(Command::Exit), vec![EngineRequest::Release]);
    assert_eq!(enter(&mut player, &mut engine, "exit", TICK), Some(Report::Exit));
    assert_eq!(engine.releases, 1);
    assert_eq!(engine.open, 0);
}

#[test]
fn switching_tracks_never_opens_two_handles() {
    let mut player = player_with(&["one.mp3", "two.mp3", "three.mp3"]);
    let mut engine = MockEngine::new();
    engine.failing.push(3);
    let lines = [
        "play 1", "play 2", "pause", "play 1", "play 3", "pause", "resume", "play 2", "volume 0.4",
        "stop", "stop", "play 3", "play 9", "play 1", "resume", "play", "list", "status", "exit",
    ];
    let mut now = TICK;
    for line in lines {
        enter(&mut player, &mut engine, line, now);
        assert!(engine.open <= 1);
        assert_eq!(engine.open == 1, player.session().holds_handle(), "after {:?}", line);
        now += TICK;
    }
    assert_eq!(engine.peak, 1);
    assert_eq!(engine.open, 0);
    assert_eq!(engine.starts, 7);
}

#[test]
fn switching_while_playing_ends_with_one_handle() {
    let mut player = player_with(&["one.mp3", "two.mp3"]);
    let mut engine = MockEngine::new();
    assert_eq!(enter(&mut player, &mut engine, "play 1", TICK), Some(Report::NowPlaying(1)));
    assert_eq!(enter(&mut player, &mut engine, "play 2", 2 * TICK), Some(Report::NowPlaying(2)));
    assert_eq!(engine.open, 1);
    assert_eq!(engine.releases, 1);
    assert_eq!(
        engine.log,
        vec![
            EngineRequest::Start { track: 1, gain: gain_from(1.0) },
            EngineRequest::Release,
            EngineRequest::Start { track: 2, gain: gain_from(1.0) },
        ]
    );
    assert_eq!(player.session().status(2 * TICK).current_track, Some(2));
}

#[test]
fn new_track_starts_at_the_configured_volume() {
    let mut player = player_with(&["one.mp3", "two.mp3"]);
    let mut engine = MockEngine::new();
    assert_eq!(
        enter(&mut player, &mut engine, "volume 0.25", TICK),
        Some(Report::VolumeSet(gain_from(0.25)))
    );
    assert_eq!(enter(&mut player, &mut engine, "play 2", TICK), Some(Report::NowPlaying(2)));
    assert_eq!(
        enter(&mut player, &mut engine, "volume 0.75", TICK),
        Some(Report::VolumeSet(gain_from(0.75)))
    );
    assert_eq!(
        engine.log,
        vec![
            EngineRequest::Start { track: 2, gain: gain_from(0.25) },
            EngineRequest::SetGain(gain_from(0.75)),
        ]
    );
}

#[test]
fn play_needs_an_index() {
    let mut player = player_with(&["one.mp3", "two.mp3"]);
    let mut engine = MockEngine::new();
    assert_eq!(enter(&mut player, &mut engine, "play", TICK), Some(Report::MissingIndex));
    assert_eq!(enter(&mut player, &mut engine, "play two", TICK), Some(Report::InvalidIndex));
    assert_eq!(enter(&mut player, &mut engine, "play 1.0", TICK), Some(Report::InvalidIndex));
    assert_eq!(enter(&mut player, &mut engine, "play 0", TICK), Some(Report::InvalidIndex));
    assert_eq!(enter(&mut player, &mut engine, "play -1", TICK), Some(Report::InvalidIndex));
    assert_eq!(enter(&mut player, &mut engine, "play 3", TICK), Some(Report::InvalidIndex));
    assert_eq!(
        enter(&mut player, &mut engine, "play 99999999999", TICK),
        Some(Report::InvalidIndex)
    );
    assert_eq!(player.session().state(), PlayerState::Idle);
    assert!(engine.log.is_empty());
    assert_eq!(enter(&mut player, &mut engine, "play +2", TICK), Some(Report::NowPlaying(2)));
    assert_eq!(enter(&mut player, &mut engine, "PLAY 001", TICK), Some(Report::NowPlaying(1)));
}

#[test]
fn engine_fault_is_reported_and_state_kept() {
    let mut player = player_with(&["one.mp3", "broken.mp3"]);
    let mut engine = MockEngine::new();
    engine.failing.push(2);
    assert_eq!(
        enter(&mut player, &mut engine, "play 2", TICK),
        Some(Report::EngineFault(EngineFault::SourceUndecodable))
    );
    assert_eq!(player.session().state(), PlayerState::Idle);
    assert_eq!(player.session().current_track(), None);
    assert_eq!(enter(&mut player, &mut engine, "play 1", 2 * TICK), Some(Report::NowPlaying(1)));
    assert_eq!(
        enter(&mut player, &mut engine, "play 2", 3 * TICK),
        Some(Report::EngineFault(EngineFault::SourceUndecodable))
    );
    let status = player.session().status(4 * TICK);
    assert_eq!(status.state, PlayerState::Playing);
    assert_eq!(status.current_track, Some(1));
    assert_eq!(status.elapsed_seconds, Some(2));
    assert_eq!(engine.open, 0);
    assert!(!player.session().holds_handle());
}

#[test]
fn play_reports_what_the_session_reports() {
    let mut player = player_with(&["one.mp3"]);
    assert_eq!(player.play(2, None, TICK), Err(PlayError::InvalidIndex));
    assert_eq!(
        player.play(1, Some(EngineFault::SourceUnreadable), TICK),
        Err(PlayError::Engine(EngineFault::SourceUnreadable))
    );
    assert_eq!(
        player.play(1, Some(EngineFault::DeviceUnavailable), TICK),
        Err(PlayError::Engine(EngineFault::DeviceUnavailable))
    );
    assert_eq!(player.session().state(), PlayerState::Idle);
    assert_eq!(player.play(1, None, TICK), Ok(()));
    assert_eq!(player.session().state(), PlayerState::Playing);
    assert_eq!(player.session().current_track(), Some(1));
}

#[test]
fn lines_leave_their_second_token_pending() {
    let mut player = player_with(&["one.mp3", "two.mp3"]);
    assert_eq!(player.get_commands("play 2", None), Parsed::Command(Command::Play));
    assert_eq!(player.last_input(), &Some("2".to_string()));
    assert_eq!(player.get_commands("", None), Parsed::Empty);
    assert_eq!(player.get_commands("   ", None), Parsed::Empty);
    assert_eq!(player.last_input(), &Some("2".to_string()));
    assert_eq!(player.get_commands("pause ABC", None), Parsed::Command(Command::Pause));
    assert_eq!(player.last_input(), &Some("abc".to_string()));
    assert_eq!(player.get_commands("status", None), Parsed::Command(Command::Status));
    assert_eq!(player.last_input(), &None);
    assert_eq!(
        player.get_commands("volume LOUD", None),
        Parsed::VolumeParseError(VolumeParseError::Malformed)
    );
    assert_eq!(player.last_input(), &Some("loud".to_string()));
    assert_eq!(
        player.get_commands("volume", None),
        Parsed::VolumeParseError(VolumeParseError::Missing)
    );
    assert_eq!(player.last_input(), &None);
}

#[test]
fn play_reads_the_pending_argument() {
    let mut player = player_with(&["one.mp3", "two.mp3"]);
    assert_eq!(player.get_commands("pause 2", None), Parsed::Command(Command::Pause));
    assert_eq!(
        player.engine_requests(Command::Play),
        vec![EngineRequest::Start { track: 2, gain: gain_from(1.0) }]
    );
    assert_eq!(player.act_on_commands(Command::Play, None, TICK), Report::NowPlaying(2));
    assert_eq!(player.get_commands("help", None), Parsed::Command(Command::Help));
    assert!(player.engine_requests(Command::Play).is_empty());
    assert_eq!(player.act_on_commands(Command::Play, None, TICK), Report::MissingIndex);
    assert_eq!(player.session().current_track(), Some(2));
}

#[test]
fn commands_that_only_show_something_change_nothing() {
    let mut player = player_with(&["one.mp3", "two.mp3"]);
    let mut engine = MockEngine::new();
    assert_eq!(enter(&mut player, &mut engine, "play 1", TICK), Some(Report::NowPlaying(1)));
    let before = player.session().status(5 * TICK);
    assert_eq!(enter(&mut player, &mut engine, "list", 2 * TICK), Some(Report::Listing));
    assert_eq!(enter(&mut player, &mut engine, "help", 2 * TICK), Some(Report::Help));
    assert_eq!(enter(&mut player, &mut engine, "dance", 2 * TICK), Some(Report::InvalidCommand));
    assert_eq!(enter(&mut player, &mut engine, "", 2 * TICK), None);
    assert_eq!(enter(&mut player, &mut engine, "volume", 2 * TICK), None);
    assert_eq!(enter(&mut player, &mut engine, "volume x", 2 * TICK), None);
    assert_eq!(player.session().status(5 * TICK), before);
    assert_eq!(engine.log.len(), 1);
}

#[test]
fn list_marks_the_current_track() {
    let mut player = player_with(&["one.mp3", "two.mp3", "three.mp3"]);
    let mut engine = MockEngine::new();
    assert_eq!(enter(&mut player, &mut engine, "play 2", TICK), Some(Report::NowPlaying(2)));
    let marks: Vec<bool> = player.list().iter().map(|entry| entry.current).collect();
    assert_eq!(marks, vec![false, true, false]);
    assert_eq!(enter(&mut player, &mut engine, "pause", TICK), Some(Report::Paused));
    let marks: Vec<bool> = player.list().iter().map(|entry| entry.current).collect();
    assert_eq!(marks, vec![false, true, false]);
    assert_eq!(enter(&mut player, &mut engine, "stop", TICK), Some(Report::Stopped));
    assert!(player.list().iter().all(|entry| !entry.current));
}

#[test]
fn stop_reports_only_when_something_stopped() {
    let mut player = player_with(&["one.mp3"]);
    let mut engine = MockEngine::new();
    assert_eq!(enter(&mut player, &mut engine, "play 1", TICK), Some(Report::NowPlaying(1)));
    assert_eq!(enter(&mut player, &mut engine, "pause", TICK), Some(Report::Paused));
    assert_eq!(enter(&mut player, &mut engine, "pause", TICK), Some(Report::Ignored));
    assert_eq!(enter(&mut player, &mut engine, "stop", TICK), Some(Report::Stopped));
    assert_eq!(enter(&mut player, &mut engine, "stop", TICK), Some(Report::Ignored));
    assert_eq!(player.session().state(), PlayerState::Idle);
    assert_eq!(engine.releases, 1);
}
