//! The player: a catalog, a session and the argument that the last line left
//! pending, driven by commands.
//!
//! One line of input is handled in three steps. `get_commands` parses the
//! line. `engine_requests` says what the audio engine has to do for the
//! command; the caller does it. `act_on_commands` then makes the transition
//! and says what to report.

use vstd::prelude::*;
use crate::catalog::{catalog_of, FileEntry, TrackCatalog, TrackView};
use crate::command::{index_of, parse, parse_index, parsed_line, pending_argument, Command, Parsed};
use crate::engine::{EngineFault, EngineRequest};
use crate::gain::{in_unit_interval, Gain};
use crate::session::{
    resolves,
    Operation,
    PlayError,
    PlaybackSession,
    PlayerState,
    SessionView,
    StatusSnapshot,
};

verus! {

/// What the caller found where the music directory was said to be.
pub enum DirectoryListing {
    /// The path could not be examined or read.
    Unreadable,
    /// The path names something that is no directory.
    NotADirectory,
    /// The regular files of the directory, in the order of the listing.
    Files(Vec<FileEntry>),
}

/// Why the player could not start. Each of these ends the program.
#[derive(Clone, Copy, Debug, PartialEq, Eq)]
pub enum StartupError {
    /// No music directory was given.
    MissingDirectory,
    /// The music directory could not be examined or read.
    DirectoryUnreadable,
    /// The path given is no directory.
    DirectoryNotFound,
}

/// What the player has to say after a command.
#[derive(Clone, Copy, Debug, PartialEq, Eq)]
pub enum Report {
    /// The track with this index is now playing.
    NowPlaying(i32),
    /// `play` came without an index.
    MissingIndex,
    /// The index is no number, or the catalog holds no such track.
    InvalidIndex,
    /// The engine could not start the track.
    EngineFault(EngineFault),
    /// Playback was paused.
    Paused,
    /// Playback was resumed.
    Resumed,
    /// Playback was stopped.
    Stopped,
    /// The command had nothing to act on; there is nothing to say.
    Ignored,
    /// The catalog is to be shown.
    Listing,
    /// The gain was set.
    VolumeSet(Gain),
    /// The gain lies outside the interval from 0.0 to 1.0.
    VolumeOutOfRange,
    /// The session as it stands.
    Status(StatusSnapshot),
    /// The usage text is to be shown.
    Help,
    /// Everything is released; the program may end.
    Exit,
    /// The line named no command.
    InvalidCommand,
}

/// One line of the catalog as it is shown.
#[derive(Debug)]
pub struct ListEntry {
    /// The track's index.
    pub index: i32,
    /// The track's name.
    pub name: String,
    /// Whether this is the current track of the session.
    pub current: bool,
}

/// What a player stands for.
pub struct PlayerView {
    /// The tracks of the music directory.
    pub catalog: Seq<TrackView>,
    /// The playback session.
    pub session: SessionView,
    /// The pending argument: the second token of the last line that had a
    /// token, in lower case.
    pub last_input: Option<Seq<char>>,
    /// The music directory that the catalog was loaded from.
    pub main_dir: Option<Seq<char>>,
}

impl PlayerView {
    /// The session operation that a command comes to, if it comes to one.
    /// `play` takes its index from the pending argument; `exit` stops the
    /// session.
    pub open spec fn operation(self, command: Command) -> Option<Operation> {
        match command {
            Command::Play => match self.last_input {
                Some(text) => match index_of(text) {
                    Some(index) => Some(Operation::SelectAndPlay(index)),
                    None => None,
                },
                None => None,
            },
            Command::Pause => Some(Operation::Pause),
            Command::Resume => Some(Operation::Resume),
            Command::Stop => Some(Operation::Stop),
            Command::Exit => Some(Operation::Stop),
            Command::Volume(gain) => Some(Operation::SetVolume(gain)),
            _ => None,
        }
    }

    /// The engine plan of a command.
    pub open spec fn plan(self, command: Command) -> Seq<EngineRequest> {
        match self.operation(command) {
            Some(operation) => self.session.plan(self.catalog, operation),
            None => seq![],
        }
    }

    /// The player after a command. Only the session changes.
    pub open spec fn after(self, command: Command, fault: Option<EngineFault>, now: u64) -> PlayerView {
        match self.operation(command) {
            Some(operation) => PlayerView {
                session: self.session.after(self.catalog, operation, fault, now),
                ..self
            },
            None => self,
        }
    }

    /// What the player reports after a command.
    pub open spec fn report(self, command: Command, fault: Option<EngineFault>, now: u64) -> Report {
        match command {
            Command::Play => match self.last_input {
                None => Report::MissingIndex,
                Some(text) => match index_of(text) {
                    None => Report::InvalidIndex,
                    Some(index) => match SessionView::play_outcome(self.catalog, index, fault) {
                        Ok(_) => Report::NowPlaying(index),
                        Err(PlayError::InvalidIndex) => Report::InvalidIndex,
                        Err(PlayError::Engine(fault)) => Report::EngineFault(fault),
                    },
                },
            },
            Command::Pause => if self.session.state is Playing {
                Report::Paused
            } else {
                Report::Ignored
            },
            Command::Resume => if self.session.state is Paused {
                Report::Resumed
            } else {
                Report::Ignored
            },
            Command::Stop => if self.session.state is Idle {
                Report::Ignored
            } else {
                Report::Stopped
            },
            Command::List => Report::Listing,
            Command::Status => Report::Status(self.session.status(now)),
            Command::Help => Report::Help,
            Command::Exit => Report::Exit,
            Command::Volume(gain) => if in_unit_interval(gain.bits) {
                Report::VolumeSet(gain)
            } else {
                Report::VolumeOutOfRange
            },
            Command::Invalid => Report::InvalidCommand,
        }
    }

    /// The player after a line of input: a line with a token replaces the
    /// pending argument, a line without one changes nothing.
    pub open spec fn after_line(self, line: Seq<char>, reading: Option<Gain>) -> PlayerView {
        if parsed_line(line, reading) is Empty {
            self
        } else {
            PlayerView { last_input: pending_argument(line), ..self }
        }
    }
}

/// The command-line player.
#[derive(Debug)]
pub struct CliPlayer {
    catalog: TrackCatalog,
    session: PlaybackSession,
    last_input: Option<String>,
    main_dir: Option<String>,
}

/// What an optional string says.
pub open spec fn said(text: Option<String>) -> Option<Seq<char>> {
    match text {
        Some(text) => Some(text@),
        None => None,
    }
}

impl View for CliPlayer {
    type V = PlayerView;

    closed spec fn view(&self) -> PlayerView {
        PlayerView {
            catalog: self.catalog@,
            session: self.session@,
            last_input: said(self.last_input),
            main_dir: said(self.main_dir),
        }
    }
}

impl CliPlayer {
    /// A player at application start: no directory, no tracks, an idle
    /// session at full volume, nothing pending.
    pub fn new() -> (player: CliPlayer)
        ensures
            player@.catalog == Seq::<TrackView>::empty(),
            player@.session == SessionView::initial(),
            player@.last_input is None,
            player@.main_dir is None,
    {
        CliPlayer {
            catalog: TrackCatalog::empty(),
            session: PlaybackSession::new(),
            last_input: None,
            main_dir: None,
        }
    }

    /// Starts the player on a music directory. `directory` is the path that
    /// was given, `listing` what the caller found there. On success the
    /// player has the directory's catalog and returns the number of tracks;
    /// otherwise nothing changes.
    pub fn run(&mut self, directory: Option<String>, listing: DirectoryListing) -> (started: Result<
        usize,
        StartupError,
    >)
        requires
            listing matches DirectoryListing::Files(files) ==> files@.len() <= i32::MAX,
        ensures
            directory is None ==> started == Err::<usize, StartupError>(
                StartupError::MissingDirectory,
            ),
            directory is Some && listing is Unreadable ==> started == Err::<usize, StartupError>(
                StartupError::DirectoryUnreadable,
            ),
            directory is Some && listing is NotADirectory ==> started == Err::<
                usize,
                StartupError,
            >(StartupError::DirectoryNotFound),
            directory is Some && listing is Files ==> started == Ok::<usize, StartupError>(
                listing->Files_0@.len() as usize,
            ),
            started is Err ==> final(self)@ == old(self)@,
            started is Ok ==> final(self)@ == (PlayerView {
                catalog: catalog_of(listing->Files_0@),
                main_dir: said(directory),
                ..old(self)@
            }),
    {
        let directory = match directory {
            Some(directory) => directory,
            None => {
                return Err(StartupError::MissingDirectory);
            },
        };
        match listing {
            DirectoryListing::Unreadable => Err(StartupError::DirectoryUnreadable),
            DirectoryListing::NotADirectory => Err(StartupError::DirectoryNotFound),
            DirectoryListing::Files(files) => {
                self.main_dir = Some(directory);
                self.load_songs(files);
                Ok(self.catalog.len())
            },
        }
    }

    /// Loads the catalog of a directory listing, in place of the catalog
    /// that the player had. The listing holds regular files only.
    pub fn load_songs(&mut self, listing: Vec<FileEntry>)
        requires
            listing@.len() <= i32::MAX,
        ensures
            final(self)@ == (PlayerView { catalog: catalog_of(listing@), ..old(self)@ }),
    {
        self.catalog = TrackCatalog::build(listing);
    }

    /// The catalog.
    pub fn catalog(&self) -> (catalog: &TrackCatalog)
        ensures
            catalog@ == self@.catalog,
    {
        &self.catalog
    }

    /// The session.
    pub fn session(&self) -> (session: &PlaybackSession)
        ensures
            session@ == self@.session,
    {
        &self.session
    }

    /// The pending argument.
    pub fn last_input(&self) -> (pending: &Option<String>)
        ensures
            said(*pending) == self@.last_input,
    {
        &self.last_input
    }

    /// The music directory that the catalog was loaded from.
    pub fn main_dir(&self) -> (directory: &Option<String>)
        ensures
            said(*directory) == self@.main_dir,
    {
        &self.main_dir
    }

    /// Takes one line of input. A line without a token does nothing. Any
    /// other line leaves its second token, in lower case, as the pending
    /// argument, and is parsed into a command or a report on its gain.
    ///
    /// `reading` is the line's second token read as a gain by the caller,
    /// `None` where the token is missing or no number.
    pub fn get_commands(&mut self, input_line: &str, reading: Option<Gain>) -> (parsed: Parsed)
        ensures
            parsed == parsed_line(input_line@, reading),
            final(self)@ == old(self)@.after_line(input_line@, reading),
    {
        let line = parse(input_line, reading);
        match line.outcome {
            Parsed::Empty => {},
            _ => {
                self.last_input = line.argument;
            },
        }
        line.outcome
    }

    /// The session operation that a command comes to, if it comes to one.
    pub fn operation(&self, command: Command) -> (operation: Option<Operation>)
        ensures
            operation == self@.operation(command),
    {
        match command {
            Command::Play => match &self.last_input {
                Some(text) => match parse_index(text.as_str()) {
                    Some(index) => Some(Operation::SelectAndPlay(index)),
                    None => None,
                },
                None => None,
            },
            Command::Pause => Some(Operation::Pause),
            Command::Resume => Some(Operation::Resume),
            Command::Stop => Some(Operation::Stop),
            Command::Exit => Some(Operation::Stop),
            Command::Volume(gain) => Some(Operation::SetVolume(gain)),
            _ => None,
        }
    }

    /// The engine plan of a command: what the audio engine has to do, in
    /// this order, before `act_on_commands` is called with the command.
    pub fn engine_requests(&self, command: Command) -> (requests: Vec<EngineRequest>)
        ensures
            requests@ == self@.plan(command),
    {
        match self.operation(command) {
            Some(operation) => self.session.engine_requests(&self.catalog, operation),
            None => Vec::new(),
        }
    }

    /// Plays the track with this index. The engine has carried out the plan
    /// before the call; `fault` says how the start went and `now` is the
    /// reading of a monotonic nanosecond clock when it returned.
    pub fn play(&mut self, sound_index: i32, fault: Option<EngineFault>, now: u64) -> (outcome:
        Result<(), PlayError>)
        ensures
            final(self)@ == (PlayerView {
                session: old(self)@.session.after_select_and_play(
                    old(self)@.catalog,
                    sound_index,
                    fault,
                    now,
                ),
                ..old(self)@
            }),
            outcome == SessionView::play_outcome(old(self)@.catalog, sound_index, fault),
    {
        self.session.select_and_play(&self.catalog, sound_index, fault, now)
    }

    /// Carries out a command on the session and says what to report.
    ///
    /// The engine has carried out the plan of the command before the call.
    /// `fault` says how the start of a track went, if the plan held one, and
    /// `now` is the reading of a monotonic nanosecond clock.
    pub fn act_on_commands(&mut self, command: Command, fault: Option<EngineFault>, now: u64) -> (report:
        Report)
        ensures
            final(self)@ == old(self)@.after(command, fault, now),
            report == old(self)@.report(command, fault, now),
    {
        match command {
            Command::Play => {
                match self.operation(command) {
                    Some(Operation::SelectAndPlay(index)) => match self.play(index, fault, now) {
                        Ok(_) => Report::NowPlaying(index),
                        Err(PlayError::InvalidIndex) => Report::InvalidIndex,
                        Err(PlayError::Engine(fault)) => Report::EngineFault(fault),
                    },
                    _ => if self.last_input.is_none() {
                        Report::MissingIndex
                    } else {
                        Report::InvalidIndex
                    },
                }
            },
            Command::Pause => if self.session.pause() {
                Report::Paused
            } else {
                Report::Ignored
            },
            Command::Resume => if self.session.resume() {
                Report::Resumed
            } else {
                Report::Ignored
            },
            Command::Stop => if self.session.stop() {
                Report::Stopped
            } else {
                Report::Ignored
            },
            Command::List => Report::Listing,
            Command::Status => Report::Status(self.session.status(now)),
            Command::Help => Report::Help,
            Command::Exit => {
                self.session.stop();
                Report::Exit
            },
            Command::Volume(gain) => match self.session.set_volume(gain) {
                Ok(_) => Report::VolumeSet(gain),
                Err(_) => Report::VolumeOutOfRange,
            },
            Command::Invalid => Report::InvalidCommand,
        }
    }

    /// The catalog as it is shown: every track in index order, the current
    /// one marked.
    pub fn list(&self) -> (entries: Vec<ListEntry>)
        ensures
            entries@.len() == self@.catalog.len(),
            forall|position: int|
                0 <= position < entries@.len() ==> {
                    let entry = #[trigger] entries@[position];
                    &&& entry.index == position + 1
                    &&& entry.name@ == self@.catalog[position].display_name
                    &&& entry.current == (self@.session.current_track == Some(entry.index))
                },
    {
        let tracks = self.catalog.all();
        let current = self.session.current_track();
        let mut entries: Vec<ListEntry> = Vec::new();
        let mut position: usize = 0;
        proof {
            use_type_invariant(&self.catalog);
        }
        while position < tracks.len()
            invariant
                position <= tracks@.len(),
                tracks@.len() == self@.catalog.len(),
                TrackCatalog::numbered(self@.catalog),
                current == self@.session.current_track,
                forall|k: int| 0 <= k < tracks@.len() ==> (#[trigger] tracks@[k])@ == self@.catalog[k],
                entries@.len() == position,
                forall|k: int|
                    0 <= k < entries@.len() ==> {
                        let entry = #[trigger] entries@[k];
                        &&& entry.index == k + 1
                        &&& entry.name@ == self@.catalog[k].display_name
                        &&& entry.current == (self@.session.current_track == Some(entry.index))
                    },
            decreases tracks@.len() - position,
        {
            let track = &tracks[position];
            let index = track.index();
            let marked = match current {
                Some(current) => current == index,
                None => false,
            };
            entries.push(ListEntry { index, name: track.display_name().clone(), current: marked });
            position += 1;
        }
        entries
    }
}

} // verus!
