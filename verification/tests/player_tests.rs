use slyh::player::{
    play_icon, Action, LoopIcon, OpenFileError, PlayCommand, PlayError, PlayIcon, PlayerState,
};

fn started(path: Option<&str>) -> PlayerState<String> {
    PlayerState::new(path.map(|p| (p.to_string(), p.to_string())))
}

fn entry(path: &str) -> Option<(String, String)> {
    Some((path.to_string(), path.to_string()))
}

#[test]
fn launch_without_file_queues_only_init() {
    let s = started(None);
    assert_eq!(s.actions, vec![Action::InitAudioPlayer]);
    assert_eq!(s.file_path, None);
    assert_eq!(s.file_path_normalized, None);
    assert!(!s.audio_player_initialized);
    assert!(!s.is_looped && !s.is_finished);
    assert_eq!((s.audio_duration, s.audio_position), (0, 0));
}

#[test]
fn launch_with_file_queues_init_then_play() {
    let s = started(Some("/music/a.mp3"));
    assert_eq!(s.actions, vec![Action::InitAudioPlayer, Action::PlayFile]);
    assert_eq!(s.file_path.as_deref(), Some("/music/a.mp3"));
    assert_eq!(s.file_path_normalized.as_deref(), Some("/music/a.mp3"));
}

#[test]
fn launch_name_is_composed_to_nfc() {
    let s = started(Some("/music/cafe\u{301}.flac"));
    assert_eq!(s.file_path.as_deref(), Some("/music/cafe\u{301}.flac"));
    assert_eq!(s.file_path_normalized.as_deref(), Some("/music/caf\u{e9}.flac"));
}

#[test]
fn with_file_keeps_given_name() {
    let s: PlayerState<String> =
        PlayerState::with_file(Some("a".to_string()), Some("b".to_string()));
    assert_eq!(s.file_path_normalized.as_deref(), Some("b"));
    assert_eq!(s.actions, vec![Action::InitAudioPlayer, Action::PlayFile]);
}

#[test]
fn queue_runs_init_then_play_in_order() {
    let mut s = started(Some("a.mp3"));
    assert_eq!(s.next_action(), Some(Action::InitAudioPlayer));
    s.finish_init(true);
    assert!(s.audio_player_initialized);
    assert_eq!(s.next_action(), Some(Action::PlayFile));
    assert_eq!(s.next_action(), None);
    assert!(s.actions.is_empty());
}

#[test]
fn actions_before_init_are_dropped() {
    let mut s = started(Some("a.mp3"));
    assert_eq!(s.next_action(), Some(Action::InitAudioPlayer));
    s.finish_init(false);
    assert!(!s.audio_player_initialized);
    // The audio output did not open: the queued play is dropped, not run.
    assert_eq!(s.next_action(), None);
    assert!(s.actions.is_empty());
}

#[test]
fn gated_action_stops_the_frame_but_keeps_the_rest() {
    let mut s = started(None);
    s.actions = vec![Action::OpenFile, Action::InitAudioPlayer];
    assert_eq!(s.next_action(), None);
    assert_eq!(s.actions, vec![Action::InitAudioPlayer]);
    assert_eq!(s.next_action(), Some(Action::InitAudioPlayer));
}

#[test]
fn init_stays_done() {
    let mut s = started(None);
    s.finish_init(true);
    s.finish_init(false);
    assert!(s.audio_player_initialized);
}

#[test]
fn open_file_selects_and_queues_play() {
    let mut s = started(None);
    s.actions.clear();
    assert_eq!(s.finish_open_file(Some("b.ogg".to_string())), Ok(()));
    assert_eq!(s.file_path.as_deref(), Some("b.ogg"));
    assert_eq!(s.actions, vec![Action::PlayFile]);
    // The shown name is not updated by the dialog.
    assert_eq!(s.file_path_normalized, None);
}

#[test]
fn open_file_without_choice_is_an_error() {
    let mut s = started(None);
    assert_eq!(s.finish_open_file(None), Err(OpenFileError::NoFileSelected));
    assert_eq!(s.actions, vec![Action::InitAudioPlayer]);
    assert_eq!(s.file_path, None);
    assert_eq!(OpenFileError::NoFileSelected.message(), "No file selected");
}

#[test]
fn play_without_file_fails() {
    let s = started(None);
    assert_eq!(s.begin_play(true), Err(PlayError::NoFileSelected));
    assert_eq!(PlayError::NoFileSelected.message(), "No file selected");
}

#[test]
fn play_without_output_fails_and_changes_nothing() {
    let mut s = started(Some("a.mp3"));
    assert_eq!(s.begin_play(false), Err(PlayError::AudioPlayerNotInitialized));
    assert_eq!(s.file_path.as_deref(), Some("a.mp3"));
    assert_eq!(s.actions, vec![Action::InitAudioPlayer, Action::PlayFile]);
    // The frame logic reacts to the failure by unselecting the file.
    s.play_failed();
    assert_eq!(s.file_path, None);
    assert!(s.shows_welcome());
    assert_eq!(
        PlayError::AudioPlayerNotInitialized.message(),
        "Audio player not initialized"
    );
}

#[test]
fn play_returns_selected_file() {
    let s = started(Some("a.mp3"));
    assert_eq!(s.begin_play(true), Ok(&"a.mp3".to_string()));
    assert_eq!(s.file_path.as_deref(), Some("a.mp3"));
}

#[test]
fn play_started_takes_duration_or_zero() {
    let mut s = started(Some("a.mp3"));
    s.play_started(Some(215));
    assert_eq!(s.audio_duration, 215);
    s.play_started(None);
    assert_eq!(s.audio_duration, 0);
}

#[test]
fn play_failure_unselects_file() {
    let mut s = started(Some("a.mp3"));
    assert!(!s.shows_welcome());
    s.play_failed();
    assert_eq!(s.file_path, None);
    assert!(s.shows_welcome());
    assert_eq!(s.file_path_normalized.as_deref(), Some("a.mp3"));
}

#[test]
fn position_is_zero_for_empty_sink() {
    let mut s = started(None);
    s.update_position(false, 42);
    assert_eq!(s.audio_position, 42);
    s.update_position(true, 42);
    assert_eq!(s.audio_position, 0);
}

#[test]
fn welcome_click_queues_dialog() {
    let mut s = started(None);
    s.request_open_file();
    assert_eq!(s.actions, vec![Action::InitAudioPlayer, Action::OpenFile]);
}

#[test]
fn play_button_commands_and_icons() {
    let mut s = started(None);
    s.actions.clear();
    assert_eq!(s.press_play(true, false), PlayCommand::Queued);
    assert_eq!(s.actions, vec![Action::PlayFile]);
    assert_eq!(s.press_play(false, true), PlayCommand::Resume);
    assert_eq!(s.press_play(false, false), PlayCommand::Pause);
    assert_eq!(s.actions, vec![Action::PlayFile]);

    assert_eq!(play_icon(true, false), PlayIcon::Play);
    assert_eq!(play_icon(true, true), PlayIcon::Play);
    assert_eq!(play_icon(false, true), PlayIcon::Play);
    assert_eq!(play_icon(false, false), PlayIcon::Pause);
}

#[test]
fn play_button_pauses_exactly_when_it_shows_pause() {
    for paused in [false, true] {
        for empty in [false, true] {
            let mut s = started(None);
            let shows_pause = play_icon(paused, empty) == PlayIcon::Pause;
            let pauses = s.press_play(empty, paused) == PlayCommand::Pause;
            assert_eq!(shows_pause, pauses);
        }
    }
}

#[test]
fn loop_button_toggles() {
    let mut s = started(None);
    assert_eq!(s.loop_icon(), LoopIcon::Repeat);
    s.toggle_loop();
    assert!(s.is_looped);
    assert_eq!(s.loop_icon(), LoopIcon::RepeatOne);
    s.toggle_loop();
    assert!(!s.is_looped);
    assert_eq!(s.loop_icon(), LoopIcon::Repeat);
}

#[test]
fn dropped_files_first_plays_rest_open_new_instances() {
    let mut s = started(None);
    s.actions.clear();
    let dropped = vec![
        entry("/m/cafe\u{301}.mp3"),
        None,
        entry("/m/b.mp3"),
        entry("/m/c.mp3"),
    ];
    s.drop_files(dropped);
    assert_eq!(s.file_path.as_deref(), Some("/m/cafe\u{301}.mp3"));
    assert_eq!(s.file_path_normalized.as_deref(), Some("/m/caf\u{e9}.mp3"));
    assert_eq!(
        s.actions,
        vec![
            Action::ReadFileProps,
            Action::PlayFile,
            Action::StartNewInstance("/m/b.mp3".to_string()),
            Action::StartNewInstance("/m/c.mp3".to_string()),
        ]
    );
}

#[test]
fn dropped_files_without_first_path_select_nothing() {
    let mut s = started(Some("x.mp3"));
    let dropped = vec![None, entry("/m/b.mp3")];
    s.drop_files(dropped);
    assert_eq!(s.file_path.as_deref(), Some("x.mp3"));
    assert_eq!(
        s.actions,
        vec![
            Action::InitAudioPlayer,
            Action::PlayFile,
            Action::StartNewInstance("/m/b.mp3".to_string()),
        ]
    );
    let mut t = started(None);
    t.drop_files(Vec::new());
    assert_eq!(t.actions, vec![Action::InitAudioPlayer]);
}

#[test]
fn accept_dropped_files_uses_given_name() {
    let mut s = started(None);
    s.accept_dropped_files(vec![entry("a")], Some("A".to_string()));
    assert_eq!(s.file_path_normalized.as_deref(), Some("A"));
}

#[test]
fn dropped_path_and_shown_name_are_kept_apart() {
    // The path itself is kept as given; only the shown name is normalized,
    // and it is made from the text handed over beside the path.
    let mut s = started(None);
    s.drop_files(vec![Some(("p1".to_string(), "cafe\u{301}".to_string()))]);
    assert_eq!(s.file_path.as_deref(), Some("p1"));
    assert_eq!(s.file_path_normalized.as_deref(), Some("caf\u{e9}"));

    let t = PlayerState::new(Some((7u32, "e\u{301}.ogg".to_string())));
    assert_eq!(t.file_path, Some(7u32));
    assert_eq!(t.file_path_normalized.as_deref(), Some("\u{e9}.ogg"));
}
