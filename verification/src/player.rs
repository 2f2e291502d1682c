//! The player's state and the decisions it makes between pieces of outside
//! work: which queued action runs next, what a finished action changes, and
//! what the play, loop and drop gestures do.
//!
//! The application runs the frame loop: it asks [`PlayerState::next_action`]
//! for the next action, does the outside work the action names (opening the
//! audio device, showing the file dialog, decoding a file) and reports the
//! outcome back through the matching `finish`/`play` method.
//!
//! Paths are of the application's own path type `P`; the library moves them
//! around without looking into them. Where a file's name is shown, the
//! application hands over the name as text beside the path.

use crate::normalize::{nfc_of, nfc_string};
use vstd::prelude::*;

verus! {

/// Something the player has been asked to do; actions run in the order in
/// which they were queued.
#[derive(Debug, PartialEq, Eq)]
pub enum Action<P> {
    /// Open the default audio output and attach a player to it.
    InitAudioPlayer,
    /// Ask the user for a file to play.
    OpenFile,
    /// Decode the selected file and start playing it.
    PlayFile,
    /// Read the stream facts (format, rate, channels) of the selected file.
    ReadFileProps,
    /// Open the given file in a new instance of the application.
    StartNewInstance(P),
}

/// Why playing the selected file could not start.
#[derive(Debug, PartialEq, Eq, Clone, Copy)]
pub enum PlayError {
    /// No file is selected.
    NoFileSelected,
    /// The audio output has not been opened.
    AudioPlayerNotInitialized,
}

/// Why opening a file through the dialog did not select one.
#[derive(Debug, PartialEq, Eq, Clone, Copy)]
pub enum OpenFileError {
    /// The dialog was closed without a choice.
    NoFileSelected,
}

/// What the audio sink is told when the play button is pressed.
#[derive(Debug, PartialEq, Eq, Clone, Copy)]
pub enum PlayCommand {
    /// Nothing is loaded: playing the selected file was queued instead.
    Queued,
    /// Resume the paused sink.
    Resume,
    /// Pause the playing sink.
    Pause,
}

/// The icon on the play button.
#[derive(Debug, PartialEq, Eq, Clone, Copy)]
pub enum PlayIcon {
    /// The "play" arrow.
    Play,
    /// The "pause" bars.
    Pause,
}

/// The icon on the loop button.
#[derive(Debug, PartialEq, Eq, Clone, Copy)]
pub enum LoopIcon {
    /// Looping the current track.
    RepeatOne,
    /// Not looping.
    Repeat,
}

/// The state the player keeps besides the audio device and the window.
pub struct PlayerState<P> {
    /// The file that is selected for playing.
    pub file_path: Option<P>,
    /// The name shown in the header, in Unicode NFC. It is set, together
    /// with the selected file, at start-up and when files are dropped; a
    /// file chosen in the dialog, or a failed play, leaves it as it was, so
    /// it can then be stale or absent.
    pub file_path_normalized: Option<String>,
    /// The actions waiting to run, oldest first.
    pub actions: Vec<Action<P>>,
    /// The length of the loaded track in whole seconds.
    pub audio_duration: u64,
    /// The playback position in whole seconds.
    pub audio_position: u64,
    /// Whether the track is to be repeated.
    pub is_looped: bool,
    /// Whether the track has played to its end.
    pub is_finished: bool,
    /// Whether the audio output has been opened.
    pub audio_player_initialized: bool,
}

impl PlayError {
    /// The error's text, as shown in the playback failure notice.
    pub fn message(&self) -> (text: String)
        ensures
            text@ == play_error_text(*self),
    {
        match self {
            PlayError::NoFileSelected => String::from_str("No file selected"),
            PlayError::AudioPlayerNotInitialized => String::from_str(
                "Audio player not initialized",
            ),
        }
    }
}

impl OpenFileError {
    /// The error's text, as shown in the file-open failure notice.
    pub fn message(&self) -> (text: String)
        ensures
            text@ == "No file selected"@,
    {
        String::from_str("No file selected")
    }
}

/// The text of a playback error.
pub open spec fn play_error_text(e: PlayError) -> Seq<char> {
    match e {
        PlayError::NoFileSelected => "No file selected"@,
        PlayError::AudioPlayerNotInitialized => "Audio player not initialized"@,
    }
}

/// The actions queued when the player starts: opening the audio output,
/// then playing the file given on the command line, if one was.
pub open spec fn launch_actions<P>(has_file: bool) -> Seq<Action<P>> {
    if has_file {
        seq![Action::InitAudioPlayer, Action::PlayFile]
    } else {
        seq![Action::InitAudioPlayer]
    }
}

/// Whether an action may run: until the audio output is open, only the
/// action that opens it may.
pub open spec fn may_run<P>(initialized: bool, action: Action<P>) -> bool {
    initialized || action is InitAudioPlayer
}

/// The path of a file handed over with its name.
pub open spec fn path_of<P>(entry: (P, String)) -> P {
    entry.0
}

/// The name, as text, of a file handed over with its path.
pub open spec fn name_of<P>(entry: (P, String)) -> String {
    entry.1
}

/// The actions queued for one dropped file (its path with its name as
/// text), given its place in the drop: the first one is read and played
/// here, each later one is opened in a new instance; an entry without a path
/// queues nothing.
pub open spec fn dropped_file_actions<P>(index: int, entry: Option<(P, String)>) -> Seq<Action<P>> {
    match entry {
        None => Seq::empty(),
        Some((p, _name)) => if index == 0 {
            seq![Action::ReadFileProps, Action::PlayFile]
        } else {
            seq![Action::StartNewInstance(p)]
        },
    }
}

/// The actions queued for a drop of files, in the order of the files.
pub open spec fn dropped_actions<P>(dropped: Seq<Option<(P, String)>>) -> Seq<Action<P>>
    decreases dropped.len(),
{
    if dropped.len() == 0 {
        Seq::empty()
    } else {
        dropped_actions(dropped.drop_last()) + dropped_file_actions(
            dropped.len() - 1,
            dropped.last(),
        )
    }
}

/// The actions a drop queues, written over the entries without recursion:
/// reading and playing the first file when the first entry has a path, then
/// a new instance for each later entry with a path, in their order.
pub open spec fn first_then_instances<P>(dropped: Seq<Option<(P, String)>>) -> Seq<Action<P>>
    recommends
        dropped.len() > 0,
{
    (if dropped[0] is Some {
        seq![Action::<P>::ReadFileProps, Action::<P>::PlayFile]
    } else {
        Seq::<Action<P>>::empty()
    }) + dropped.skip(1).filter(|e: Option<(P, String)>| e is Some).map_values(
        |e: Option<(P, String)>| Action::StartNewInstance(path_of(e->0)),
    )
}

/// Whether a drop selects a file for playing here: its first entry has a path.
pub open spec fn drop_selects<P>(dropped: Seq<Option<(P, String)>>) -> bool {
    dropped.len() > 0 && dropped[0] is Some
}

/// The icon on the play button for a sink in the given condition.
pub open spec fn play_button_icon(sink_paused: bool, sink_empty: bool) -> PlayIcon {
    if sink_paused {
        PlayIcon::Play
    } else if sink_empty {
        PlayIcon::Play
    } else {
        PlayIcon::Pause
    }
}

/// What pressing the play button does to a sink in the given condition.
pub open spec fn play_button_command(sink_empty: bool, sink_paused: bool) -> PlayCommand {
    if sink_empty {
        PlayCommand::Queued
    } else if sink_paused {
        PlayCommand::Resume
    } else {
        PlayCommand::Pause
    }
}

impl<P> PlayerState<P> {
    /// Whether two states agree on everything but the action queue.
    pub open spec fn same_but_queue(self, other: Self) -> bool {
        &&& self.file_path == other.file_path
        &&& self.file_path_normalized == other.file_path_normalized
        &&& self.audio_duration == other.audio_duration
        &&& self.audio_position == other.audio_position
        &&& self.is_looped == other.is_looped
        &&& self.is_finished == other.is_finished
        &&& self.audio_player_initialized == other.audio_player_initialized
    }

    /// The state with the loop flag flipped.
    pub open spec fn with_loop_toggled(self) -> Self {
        PlayerState { is_looped: !self.is_looped, ..self }
    }

    /// The state at start-up, given the file named on the command line and
    /// its name in NFC: nothing loaded, nothing looping, the audio output not
    /// yet open, and [`launch_actions`] queued.
    pub fn with_file(file_path: Option<P>, file_path_normalized: Option<String>) -> (s: Self)
        ensures
            s.file_path == file_path,
            s.file_path_normalized == file_path_normalized,
            s.actions@ == launch_actions::<P>(file_path is Some),
            s.audio_duration == 0,
            s.audio_position == 0,
            !s.is_looped,
            !s.is_finished,
            !s.audio_player_initialized,
    {
        let mut actions = Vec::new();
        actions.push(Action::InitAudioPlayer);
        if file_path.is_some() {
            actions.push(Action::PlayFile);
        }
        assert(actions@ =~= launch_actions::<P>(file_path is Some));
        PlayerState {
            file_path,
            file_path_normalized,
            actions,
            audio_duration: 0,
            audio_position: 0,
            is_looped: false,
            is_finished: false,
            audio_player_initialized: false,
        }
    }

    /// The state at start-up for the file named on the command line, if any,
    /// given with its name as text; the name is shown in Unicode NFC.
    pub fn new(file: Option<(P, String)>) -> (s: Self)
        ensures
            file is None ==> s.file_path is None && s.file_path_normalized is None,
            file is Some ==> s.file_path == Some(path_of(file->0)) && s.file_path_normalized is Some
                && s.file_path_normalized->0@ == nfc_of(name_of(file->0)@),
            s.actions@ == launch_actions::<P>(file is Some),
            s.audio_duration == 0,
            s.audio_position == 0,
            !s.is_looped,
            !s.is_finished,
            !s.audio_player_initialized,
    {
        match file {
            Some((path, name)) => {
                let normalized = nfc_string(name.as_str());
                Self::with_file(Some(path), Some(normalized))
            },
            None => Self::with_file(None, None),
        }
    }

    /// Takes the oldest queued action. Until the audio output is open, any
    /// other action is dropped instead of returned, and the frame's
    /// processing stops; an empty queue also yields `None`.
    pub fn next_action(&mut self) -> (next: Option<Action<P>>)
        ensures
            old(self).actions.len() == 0 ==> next is None && *final(self) == *old(self),
            old(self).actions.len() > 0 && old(self).audio_player_initialized ==> next == Some(
                old(self).actions@[0],
            ),
            old(self).actions.len() > 0 && !old(self).audio_player_initialized ==> (next is Some
                <==> old(self).actions@[0] is InitAudioPlayer),
            next is Some ==> next == Some(old(self).actions@[0]),
            old(self).actions.len() > 0 ==> {
                &&& final(self).actions@ == old(self).actions@.drop_first()
                &&& final(self).same_but_queue(*old(self))
                &&& next == if may_run(
                    old(self).audio_player_initialized,
                    old(self).actions@[0],
                ) {
                    Some(old(self).actions@[0])
                } else {
                    None::<Action<P>>
                }
            },
    {
        if self.actions.is_empty() {
            return None;
        }
        let action = self.actions.remove(0);
        assert(old(self).actions@.remove(0) =~= old(self).actions@.drop_first());
        let allowed = match &action {
            Action::InitAudioPlayer => true,
            _ => self.audio_player_initialized,
        };
        if allowed {
            Some(action)
        } else {
            None
        }
    }

    /// Records the outcome of opening the audio output: once it has opened,
    /// the player stays initialized.
    pub fn finish_init(&mut self, opened: bool)
        ensures
            *final(self) == (PlayerState {
                audio_player_initialized: old(self).audio_player_initialized || opened,
                ..*old(self)
            }),
    {
        if opened {
            self.audio_player_initialized = true;
        }
    }

    /// Records the file the dialog returned: a chosen file becomes the
    /// selected one and playing it is queued; no choice is an error and
    /// changes nothing.
    pub fn finish_open_file(&mut self, picked: Option<P>) -> (r: Result<(), OpenFileError>)
        ensures
            picked is None ==> r == Err::<(), OpenFileError>(OpenFileError::NoFileSelected)
                && *final(self) == *old(self),
            picked is Some ==> {
                &&& r is Ok
                &&& final(self).file_path == picked
                &&& final(self).actions@ == old(self).actions@.push(Action::PlayFile)
                &&& final(self).file_path_normalized == old(self).file_path_normalized
                &&& final(self).audio_duration == old(self).audio_duration
                &&& final(self).audio_position == old(self).audio_position
                &&& final(self).is_looped == old(self).is_looped
                &&& final(self).is_finished == old(self).is_finished
                &&& final(self).audio_player_initialized == old(
                    self,
                ).audio_player_initialized
            },
    {
        match picked {
            None => Err(OpenFileError::NoFileSelected),
            Some(p) => {
                self.file_path = Some(p);
                self.actions.push(Action::PlayFile);
                Ok(())
            },
        }
    }

    /// Checks that the selected file can be played and returns it. Without a
    /// selected file, or without an open audio output (`output_ready`), it
    /// fails; it changes nothing either way (the caller reacts to a failure
    /// with [`PlayerState::play_failed`]).
    pub fn begin_play(&self, output_ready: bool) -> (r: Result<&P, PlayError>)
        ensures
            self.file_path is None ==> r == Err::<&P, PlayError>(PlayError::NoFileSelected),
            self.file_path is Some && !output_ready ==> r == Err::<&P, PlayError>(
                PlayError::AudioPlayerNotInitialized,
            ),
            self.file_path is Some && output_ready ==> r is Ok && *r->Ok_0
                == self.file_path->0,
    {
        match &self.file_path {
            None => Err(PlayError::NoFileSelected),
            Some(p) => {
                if !output_ready {
                    Err(PlayError::AudioPlayerNotInitialized)
                } else {
                    Ok(p)
                }
            },
        }
    }

    /// Records that the selected file was decoded and handed to the audio
    /// sink; its length is the decoder's total duration in whole seconds, or
    /// 0 when the decoder does not know it.
    pub fn play_started(&mut self, total_seconds: Option<u64>)
        ensures
            *final(self) == (PlayerState {
                audio_duration: match total_seconds {
                    Some(t) => t,
                    None => 0,
                },
                ..*old(self)
            }),
    {
        self.audio_duration = match total_seconds {
            Some(t) => t,
            None => 0,
        };
    }

    /// Records that playing the selected file failed (it could not be
    /// checked, opened or decoded): no file is selected any more, so the
    /// welcome screen returns.
    pub fn play_failed(&mut self)
        ensures
            *final(self) == (PlayerState { file_path: None, ..*old(self) }),
    {
        self.file_path = None;
    }

    /// Takes the sink's position after the frame's actions: 0 when nothing
    /// is queued in the sink, else its position in whole seconds.
    pub fn update_position(&mut self, sink_empty: bool, position_seconds: u64)
        ensures
            *final(self) == (PlayerState {
                audio_position: if sink_empty {
                    0
                } else {
                    position_seconds
                },
                ..*old(self)
            }),
    {
        self.audio_position = if sink_empty {
            0
        } else {
            position_seconds
        };
    }

    /// Whether the window shows the welcome screen (which asks for a file)
    /// instead of the player: exactly when no file is selected.
    pub fn shows_welcome(&self) -> (welcome: bool)
        ensures
            welcome == (self.file_path is None),
    {
        self.file_path.is_none()
    }

    /// Queues the file dialog (the welcome screen was clicked).
    pub fn request_open_file(&mut self)
        ensures
            final(self).actions@ == old(self).actions@.push(Action::OpenFile),
            final(self).same_but_queue(*old(self)),
    {
        self.actions.push(Action::OpenFile);
    }

    /// Presses the play button: with nothing in the sink, playing the
    /// selected file is queued; otherwise a paused sink resumes and a
    /// playing one pauses.
    pub fn press_play(&mut self, sink_empty: bool, sink_paused: bool) -> (cmd: PlayCommand)
        ensures
            cmd == play_button_command(sink_empty, sink_paused),
            final(self).actions@ == if sink_empty {
                old(self).actions@.push(Action::PlayFile)
            } else {
                old(self).actions@
            },
            final(self).same_but_queue(*old(self)),
    {
        if sink_empty {
            self.actions.push(Action::PlayFile);
            PlayCommand::Queued
        } else if sink_paused {
            PlayCommand::Resume
        } else {
            PlayCommand::Pause
        }
    }

    /// Presses the loop button.
    pub fn toggle_loop(&mut self)
        ensures
            *final(self) == old(self).with_loop_toggled(),
    {
        self.is_looped = !self.is_looped;
    }

    /// The icon on the loop button.
    pub fn loop_icon(&self) -> (icon: LoopIcon)
        ensures
            icon == (if self.is_looped {
                LoopIcon::RepeatOne
            } else {
                LoopIcon::Repeat
            }),
    {
        if self.is_looped {
            LoopIcon::RepeatOne
        } else {
            LoopIcon::Repeat
        }
    }

    /// Takes a drop of files onto the welcome screen (each entry a path with
    /// its name as text, or no path), given the NFC name of the first one: if
    /// the first entry has a path, it becomes the selected file, with
    /// `first_normalized` as its shown name; the queue gets
    /// [`dropped_actions`] of the drop.
    pub fn accept_dropped_files(
        &mut self,
        dropped: Vec<Option<(P, String)>>,
        first_normalized: Option<String>,
    )
        ensures
            final(self).actions@ == old(self).actions@ + dropped_actions(dropped@),
            dropped@.len() > 0 ==> final(self).actions@ == old(self).actions@
                + first_then_instances(dropped@),
            drop_selects(dropped@) ==> final(self).file_path == Some(path_of(dropped@[0]->0))
                && final(self).file_path_normalized == first_normalized,
            !drop_selects(dropped@) ==> final(self).file_path == old(self).file_path
                && final(self).file_path_normalized == old(self).file_path_normalized,
            final(self).audio_duration == old(self).audio_duration,
            final(self).audio_position == old(self).audio_position,
            final(self).is_looped == old(self).is_looped,
            final(self).is_finished == old(self).is_finished,
            final(self).audio_player_initialized == old(self).audio_player_initialized,
    {
        let ghost all = dropped@;
        let ghost first = first_normalized;
        assert(all.len() == dropped.len());
        let mut rest = dropped;
        let mut first_normalized = first_normalized;
        let mut i: usize = 0;
        assert(all.take(0) =~= Seq::<Option<(P, String)>>::empty());
        assert(old(self).actions@ + dropped_actions(all.take(0)) =~= old(self).actions@);
        assert(all.skip(0) =~= all);
        while rest.len() > 0
            invariant
                i <= all.len(),
                all.len() <= usize::MAX,
                rest@ == all.skip(i as int),
                i == 0 ==> first_normalized == first,
                self.actions@ == old(self).actions@ + dropped_actions(all.take(i as int)),
                i > 0 && drop_selects(all) ==> self.file_path == Some(path_of(all[0]->0))
                    && self.file_path_normalized == first,
                i == 0 || !drop_selects(all) ==> self.file_path == old(self).file_path
                    && self.file_path_normalized == old(self).file_path_normalized,
                self.audio_duration == old(self).audio_duration,
                self.audio_position == old(self).audio_position,
                self.is_looped == old(self).is_looped,
                self.is_finished == old(self).is_finished,
                self.audio_player_initialized == old(self).audio_player_initialized,
            decreases rest.len(),
        {
            let ghost before = self.actions@;
            let entry = rest.remove(0);
            assert(entry == all[i as int]);
            match entry {
                Some((path, _name)) => {
                    if i == 0 {
                        self.file_path = Some(path);
                        self.file_path_normalized = first_normalized;
                        first_normalized = None;
                        self.actions.push(Action::ReadFileProps);
                        self.actions.push(Action::PlayFile);
                    } else {
                        self.actions.push(Action::StartNewInstance(path));
                    }
                },
                None => {},
            }
            assert(all.take(i + 1).drop_last() =~= all.take(i as int));
            assert(self.actions@ =~= before + dropped_file_actions(i as int, all[i as int]));
            assert(rest@ =~= all.skip(i + 1));
            i = i + 1;
        }
        assert(all.take(all.len() as int) =~= all);
        proof {
            if all.len() > 0 {
                drop_queues_first_then_instances(all);
            }
        }
    }

    /// Takes a drop of files onto the welcome screen (each entry a path with
    /// its name as text, or no path): if the first entry has a path, it
    /// becomes the selected file and its name is shown in Unicode NFC; the
    /// queue gets [`dropped_actions`] of the drop.
    pub fn drop_files(&mut self, dropped: Vec<Option<(P, String)>>)
        ensures
            final(self).actions@ == old(self).actions@ + dropped_actions(dropped@),
            dropped@.len() > 0 ==> final(self).actions@ == old(self).actions@
                + first_then_instances(dropped@),
            drop_selects(dropped@) ==> final(self).file_path == Some(path_of(dropped@[0]->0))
                && final(self).file_path_normalized is Some
                && final(self).file_path_normalized->0@ == nfc_of(name_of(dropped@[0]->0)@),
            !drop_selects(dropped@) ==> final(self).file_path == old(self).file_path
                && final(self).file_path_normalized == old(self).file_path_normalized,
            final(self).audio_duration == old(self).audio_duration,
            final(self).audio_position == old(self).audio_position,
            final(self).is_looped == old(self).is_looped,
            final(self).is_finished == old(self).is_finished,
            final(self).audio_player_initialized == old(self).audio_player_initialized,
    {
        let first_normalized = if dropped.len() > 0 {
            match &dropped[0] {
                Some((_path, name)) => Some(nfc_string(name.as_str())),
                None => None,
            }
        } else {
            None
        };
        self.accept_dropped_files(dropped, first_normalized);
    }
}

/// The icon on the play button: "play" while the sink is paused or has
/// nothing queued, "pause" while it plays.
pub fn play_icon(sink_paused: bool, sink_empty: bool) -> (icon: PlayIcon)
    ensures
        icon == play_button_icon(sink_paused, sink_empty),
{
    if sink_paused {
        PlayIcon::Play
    } else if sink_empty {
        PlayIcon::Play
    } else {
        PlayIcon::Pause
    }
}

/// The play button does what its icon shows: it pauses exactly when it
/// shows "pause"; when it shows "play", it resumes the sink or queues the
/// selected file.
pub proof fn play_button_does_what_it_shows(sink_paused: bool, sink_empty: bool)
    ensures
        (play_button_icon(sink_paused, sink_empty) == PlayIcon::Pause) <==> (play_button_command(
            sink_empty,
            sink_paused,
        ) == PlayCommand::Pause),
        play_button_icon(sink_paused, sink_empty) == PlayIcon::Play ==> (play_button_command(
            sink_empty,
            sink_paused,
        ) == PlayCommand::Resume || play_button_command(sink_empty, sink_paused)
            == PlayCommand::Queued),
{
}

/// Once the audio output is open, every action may run, whatever it is;
/// before, only the action that opens the output may.
pub proof fn open_output_runs_every_action<P>(action: Action<P>)
    ensures
        may_run(true, action),
        may_run(false, action) <==> action is InitAudioPlayer,
{
}

/// The actions a drop queues, stated over the entries: reading and playing
/// the first file when the first entry has a path, then opening each later
/// entry that has a path in a new instance, in the order of the entries.
pub proof fn drop_queues_first_then_instances<P>(dropped: Seq<Option<(P, String)>>)
    requires
        dropped.len() > 0,
    ensures
        dropped_actions(dropped) == (if dropped[0] is Some {
            seq![Action::<P>::ReadFileProps, Action::<P>::PlayFile]
        } else {
            Seq::<Action<P>>::empty()
        }) + dropped.skip(1).filter(|e: Option<(P, String)>| e is Some).map_values(
            |e: Option<(P, String)>| Action::StartNewInstance(path_of(e->0)),
        ),
        forall|k: int|
            #![trigger dropped[k]]
            1 <= k < dropped.len() && dropped[k] is Some ==> dropped_actions(dropped).contains(
                Action::StartNewInstance(path_of(dropped[k]->0)),
            ),
    decreases dropped.len(),
{
    let pred = |e: Option<(P, String)>| e is Some;
    let f = |e: Option<(P, String)>| Action::StartNewInstance(path_of(e->0));
    let head = if dropped[0] is Some {
        seq![Action::<P>::ReadFileProps, Action::<P>::PlayFile]
    } else {
        Seq::<Action<P>>::empty()
    };
    if dropped.len() == 1 {
        assert(dropped.drop_last() =~= Seq::<Option<(P, String)>>::empty());
        assert(dropped.skip(1) =~= Seq::<Option<(P, String)>>::empty());
        reveal(Seq::filter);
        assert(dropped.skip(1).filter(pred) =~= Seq::<Option<(P, String)>>::empty());
        assert(dropped_actions(dropped.drop_last()) =~= Seq::<Action<P>>::empty());
        assert(dropped_file_actions(0, dropped[0]) =~= head);
        assert(dropped_actions(dropped) =~= head + dropped.skip(1).filter(pred).map_values(f));
    } else {
        let init = dropped.drop_last();
        drop_queues_first_then_instances(init);
        assert(init[0] == dropped[0]);
        assert(dropped.skip(1) =~= init.skip(1).push(dropped.last()));
        init.skip(1).lemma_filter_push(dropped.last(), pred);
        let fi = init.skip(1).filter(pred);
        if pred(dropped.last()) {
            assert(fi.push(dropped.last()).map_values(f) =~= fi.map_values(f).push(
                f(dropped.last()),
            ));
        }
        assert(dropped_actions(dropped) =~= head + dropped.skip(1).filter(pred).map_values(f));
    }
    assert forall|k: int|
        #![trigger dropped[k]]
        1 <= k < dropped.len() && dropped[k] is Some implies dropped_actions(dropped).contains(
            Action::StartNewInstance(path_of(dropped[k]->0)),
        ) by {
        let later = dropped.skip(1);
        assert(later[k - 1] == dropped[k]);
        later.lemma_filter_contains(pred, k - 1);
        let fl = later.filter(pred);
        let m = choose|m: int| 0 <= m < fl.len() && fl[m] == later[k - 1];
        let all = dropped_actions(dropped);
        assert(all[head.len() + m] == fl.map_values(f)[m]);
    }
}

/// Pressing the loop button twice gives back the state before.
pub proof fn loop_toggle_twice_restores<P>(s: PlayerState<P>)
    ensures
        s.with_loop_toggled().with_loop_toggled() == s,
{
}

} // verus!
