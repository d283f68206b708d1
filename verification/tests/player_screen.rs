use radiofm::app::{
    App, Command, InputMode, Key, KeyCode, MouseKind, PlayOutcome, PlayRequest, VolumeStep,
};
use radiofm::config::{default_stations, Station, StationKind};
use radiofm::source::{NowPlaying, PlayerHandle};
use radiofm::ui::is_currently_playing;

fn key(code: KeyCode) -> Key {
    Key { code, ctrl: false }
}

fn ch(c: char) -> Key {
    key(KeyCode::Char(c))
}

fn station(name: &str, url: &str) -> Station {
    Station { name: name.to_string(), kind: StationKind::Internet(url.to_string()) }
}

fn three() -> App {
    App::new(
        vec![
            station("A", "http://a"),
            station("B", "http://b"),
            Station { name: "C".to_string(), kind: StationKind::Fm(99_900) },
        ],
        100_000,
    )
}

#[test]
fn new_screen_state() {
    let app = App::new(default_stations(), 100_000);
    assert_eq!(app.selected, 0);
    assert_eq!(app.input_mode, InputMode::NoInput);
    assert_eq!(app.input_buffer, "");
    assert_eq!(app.status, "Welcome to radiofm.rs \u{1F63C}  - press ? for help");
    assert!(!app.should_quit);
    assert_eq!(app.player.now_playing, NowPlaying::Nothing);
}

#[test]
fn quit_keys() {
    let mut app = three();
    assert_eq!(app.handle_key(ch('q')), Command::Nothing);
    assert!(app.should_quit);
    let mut app = three();
    app.handle_key(key(KeyCode::Esc));
    assert!(app.should_quit);
    let mut app = three();
    app.handle_key(Key { code: KeyCode::Char('c'), ctrl: true });
    assert!(app.should_quit);
    let mut app = three();
    app.handle_key(ch('c'));
    assert!(!app.should_quit);
}

#[test]
fn selection_wraps_around() {
    let mut app = three();
    app.handle_key(key(KeyCode::Up));
    assert_eq!(app.selected, 2);
    app.handle_key(ch('j'));
    assert_eq!(app.selected, 0);
    app.handle_key(key(KeyCode::Down));
    app.handle_key(key(KeyCode::Down));
    assert_eq!(app.selected, 2);
    app.handle_key(key(KeyCode::Down));
    assert_eq!(app.selected, 0);
    app.handle_key(ch('k'));
    assert_eq!(app.selected, 2);
}

#[test]
fn selection_on_empty_list_stays() {
    let mut app = App::new(Vec::new(), 100_000);
    app.handle_key(key(KeyCode::Down));
    assert_eq!(app.selected, 0);
    assert_eq!(app.handle_key(key(KeyCode::Enter)), Command::Nothing);
    assert_eq!(app.handle_key(ch('d')), Command::Nothing);
}

#[test]
fn down_then_up_restores_selection() {
    for start in 0..3 {
        let mut app = three();
        app.selected = start;
        app.handle_key(key(KeyCode::Down));
        app.handle_key(key(KeyCode::Up));
        assert_eq!(app.selected, start);
    }
}

#[test]
fn enter_plays_selected_station() {
    let mut app = three();
    let cmd = app.handle_key(key(KeyCode::Enter));
    let request = PlayRequest::Station {
        name: "A".to_string(),
        kind: StationKind::Internet("http://a".to_string()),
    };
    assert_eq!(cmd, Command::Play(request.clone()));
    app.finish_play(request, PlayOutcome::Started { hardware: false, note: None });
    assert_eq!(app.status, "Now playing: A");
    assert_eq!(
        app.player.now_playing,
        NowPlaying::Internet { name: "A".to_string(), url: "http://a".to_string() }
    );
    assert!(app.player.is_playing());
    assert!(is_currently_playing(&app, 0));
    assert!(!is_currently_playing(&app, 1));
    assert!(!is_currently_playing(&app, 7));
}

#[test]
fn enter_on_fm_station_remembers_frequency() {
    let mut app = three();
    app.selected = 2;
    let cmd = app.handle_key(key(KeyCode::Enter));
    let request = PlayRequest::Station { name: "C".to_string(), kind: StationKind::Fm(99_900) };
    assert_eq!(cmd, Command::Play(request.clone()));
    assert_eq!(app.last_fm_khz, 99_900);
    app.finish_play(
        request,
        PlayOutcome::Started { hardware: false, note: Some("simulated".to_string()) },
    );
    assert_eq!(app.status, "simulated");
    assert_eq!(app.player.last_error, Some("simulated".to_string()));
    assert_eq!(app.player.now_playing, NowPlaying::Fm { khz: 99_900, hardware: false });
    assert!(is_currently_playing(&app, 2));
    assert_eq!(app.dial_khz(), 99_900);
}

#[test]
fn failed_playback_reports_and_changes_nothing_else() {
    let mut app = three();
    let request = PlayRequest::Station {
        name: "A".to_string(),
        kind: StationKind::Internet("http://a".to_string()),
    };
    app.finish_play(request, PlayOutcome::Failed { error: "no device".to_string() });
    assert_eq!(app.status, "Playback error: no device");
    assert_eq!(app.player.now_playing, NowPlaying::Nothing);
    app.finish_play(
        PlayRequest::TypedFm { khz: 90_000 },
        PlayOutcome::Failed { error: "x".to_string() },
    );
    assert_eq!(app.status, "Couldn't tune: x");
    app.finish_play(
        PlayRequest::NudgedFm { khz: 90_000 },
        PlayOutcome::Failed { error: "y".to_string() },
    );
    assert_eq!(app.status, "Couldn't retune: y");
    assert!(!app.player.is_playing());
}

#[test]
fn stop_key() {
    let mut app = three();
    assert_eq!(app.handle_key(ch('s')), Command::Stop);
    assert_eq!(app.status, "Stopped.");
}

#[test]
fn volume_keys_and_wheel() {
    let mut app = three();
    assert_eq!(app.handle_key(ch('+')), Command::AdjustVolume(VolumeStep::Up));
    assert_eq!(app.handle_key(ch('=')), Command::AdjustVolume(VolumeStep::Up));
    assert_eq!(app.handle_key(ch('-')), Command::AdjustVolume(VolumeStep::Down));
    assert_eq!(app.handle_key(ch('_')), Command::AdjustVolume(VolumeStep::Down));
    assert_eq!(app.handle_mouse(MouseKind::ScrollUp), Command::AdjustVolume(VolumeStep::ScrollUp));
    assert_eq!(
        app.handle_mouse(MouseKind::ScrollDown),
        Command::AdjustVolume(VolumeStep::ScrollDown)
    );
    assert_eq!(app.handle_mouse(MouseKind::Other), Command::Nothing);
}

#[test]
fn typed_frequency_flow() {
    let mut app = three();
    app.handle_key(ch('f'));
    assert_eq!(app.input_mode, InputMode::FmFrequency);
    assert_eq!(app.status, "Type an FM frequency in MHz (e.g. 101.1) and press Enter.");
    for c in " 101.1 ".chars() {
        app.handle_key(ch(c));
    }
    assert_eq!(app.input_buffer, " 101.1 ");
    let cmd = app.handle_key(key(KeyCode::Enter));
    assert_eq!(cmd, Command::ParseFrequency("101.1".to_string()));
    assert_eq!(app.input_mode, InputMode::NoInput);
    assert_eq!(app.input_buffer, "");
    let cmd = app.frequency_entered(Some(101_100));
    assert_eq!(cmd, Command::Play(PlayRequest::TypedFm { khz: 101_100 }));
    assert_eq!(app.last_fm_khz, 101_100);
    app.finish_play(
        PlayRequest::TypedFm { khz: 101_100 },
        PlayOutcome::Started { hardware: true, note: None },
    );
    assert_eq!(app.status, "Tuned to 101.1 MHz.");
    assert_eq!(app.player.now_playing, NowPlaying::Fm { khz: 101_100, hardware: true });
}

#[test]
fn typed_frequency_is_held_to_band() {
    let mut app = three();
    assert_eq!(
        app.frequency_entered(Some(150_000)),
        Command::Play(PlayRequest::TypedFm { khz: 108_000 })
    );
    assert_eq!(app.last_fm_khz, 108_000);
    assert_eq!(
        app.frequency_entered(Some(0)),
        Command::Play(PlayRequest::TypedFm { khz: 87_500 })
    );
}

#[test]
fn typed_frequency_that_is_no_number() {
    let mut app = three();
    assert_eq!(app.frequency_entered(None), Command::Nothing);
    assert_eq!(app.status, "That didn't look like a frequency, e.g. try 101.1");
    assert_eq!(app.last_fm_khz, 100_000);
}

#[test]
fn nudge_without_fm_moves_dial_only() {
    let mut app = three();
    assert_eq!(app.handle_key(key(KeyCode::Right)), Command::Nothing);
    assert_eq!(app.last_fm_khz, 100_100);
    assert_eq!(app.handle_key(key(KeyCode::Left)), Command::Nothing);
    assert_eq!(app.last_fm_khz, 100_000);
}

#[test]
fn nudge_with_fm_retunes_within_band() {
    let mut app = three();
    app.player.play_fm(107_950, false, None);
    let cmd = app.handle_key(key(KeyCode::Right));
    assert_eq!(cmd, Command::Play(PlayRequest::NudgedFm { khz: 108_000 }));
    assert_eq!(app.last_fm_khz, 108_000);
    app.finish_play(
        PlayRequest::NudgedFm { khz: 108_000 },
        PlayOutcome::Started { hardware: false, note: None },
    );
    assert_eq!(app.status, "Tuned to 108.0 MHz.");
    let cmd = app.handle_key(key(KeyCode::Right));
    assert_eq!(cmd, Command::Play(PlayRequest::NudgedFm { khz: 108_000 }));
}

#[test]
fn nudge_from_huge_saved_frequency_lands_in_band() {
    let mut app = App::new(Vec::new(), 3_000_000_000);
    app.handle_key(key(KeyCode::Left));
    assert_eq!(app.last_fm_khz, 87_500);
}

#[test]
fn add_station_flow() {
    let mut app = three();
    app.handle_key(ch('a'));
    assert_eq!(app.input_mode, InputMode::NewStationName);
    assert_eq!(app.status, "New internet station -- type a name and press Enter.");
    for c in "  My Radio ".chars() {
        app.handle_key(ch(c));
    }
    assert_eq!(app.handle_key(key(KeyCode::Enter)), Command::Nothing);
    assert_eq!(app.input_mode, InputMode::NewStationUrl { name: "My Radio".to_string() });
    assert_eq!(app.status, "Now type the stream URL and press Enter.");
    assert_eq!(app.input_buffer, "");
    for c in "http://my.radio/x ".chars() {
        app.handle_key(ch(c));
    }
    assert_eq!(app.handle_key(key(KeyCode::Enter)), Command::Save);
    assert_eq!(app.stations.len(), 4);
    assert_eq!(app.stations[3], station("My Radio", "http://my.radio/x"));
    assert_eq!(app.selected, 3);
    assert_eq!(app.status, "Added \"My Radio\" to your stations.");
    assert_eq!(app.input_mode, InputMode::NoInput);
    assert_eq!(app.input_buffer, "");
}

#[test]
fn add_then_delete_restores_stations() {
    let before = three().stations;
    let mut app = three();
    app.handle_key(ch('a'));
    app.handle_key(ch('n'));
    app.handle_key(key(KeyCode::Enter));
    app.handle_key(ch('u'));
    assert_eq!(app.handle_key(key(KeyCode::Enter)), Command::Save);
    assert_eq!(app.handle_key(ch('d')), Command::Save);
    assert_eq!(app.stations, before);
    assert_eq!(app.selected, 2);
    assert_eq!(app.status, "Removed \"n\".");
}

#[test]
fn empty_name_or_url_is_refused() {
    let mut app = three();
    app.handle_key(ch('a'));
    app.handle_key(ch(' '));
    app.handle_key(key(KeyCode::Enter));
    assert_eq!(app.status, "Name can't be empty.");
    assert_eq!(app.input_mode, InputMode::NoInput);
    app.handle_key(ch('a'));
    app.handle_key(ch('x'));
    app.handle_key(key(KeyCode::Enter));
    app.handle_key(key(KeyCode::Enter));
    assert_eq!(app.status, "URL can't be empty.");
    assert_eq!(app.input_mode, InputMode::NoInput);
    assert_eq!(app.stations.len(), 3);
}

#[test]
fn escape_cancels_prompt() {
    let mut app = three();
    app.handle_key(ch('f'));
    app.handle_key(ch('9'));
    app.handle_key(key(KeyCode::Esc));
    assert_eq!(app.input_mode, InputMode::NoInput);
    assert_eq!(app.input_buffer, "");
    assert_eq!(app.status, "Cancelled.");
    assert!(!app.should_quit);
}

#[test]
fn type_then_backspace_restores_buffer() {
    let mut app = three();
    app.handle_key(ch('f'));
    app.handle_key(ch('9'));
    app.handle_key(ch('8'));
    app.handle_key(ch('\u{e9}'));
    app.handle_key(key(KeyCode::Backspace));
    assert_eq!(app.input_buffer, "98");
    app.handle_key(key(KeyCode::Backspace));
    app.handle_key(key(KeyCode::Backspace));
    app.handle_key(key(KeyCode::Backspace));
    assert_eq!(app.input_buffer, "");
}

#[test]
fn keys_in_prompt_are_typed_not_commands() {
    let mut app = three();
    app.handle_key(ch('a'));
    assert_eq!(app.handle_key(ch('q')), Command::Nothing);
    assert_eq!(app.handle_key(ch('d')), Command::Nothing);
    assert!(!app.should_quit);
    assert_eq!(app.stations.len(), 3);
    assert_eq!(app.input_buffer, "qd");
}

#[test]
fn delete_last_selected_steps_back() {
    let mut app = three();
    app.selected = 2;
    assert_eq!(app.handle_key(ch('d')), Command::Save);
    assert_eq!(app.selected, 1);
    assert_eq!(app.status, "Removed \"C\".");
    app.selected = 0;
    app.handle_key(ch('d'));
    assert_eq!(app.selected, 0);
    assert_eq!(app.stations, vec![station("B", "http://b")]);
    app.handle_key(ch('d'));
    assert_eq!(app.selected, 0);
    assert!(app.stations.is_empty());
}

#[test]
fn player_state_transitions() {
    let mut p = PlayerHandle::new();
    assert!(!p.is_playing());
    p.play_fm(90_000, true, Some("note".to_string()));
    assert!(p.is_playing());
    p.stop();
    assert!(!p.is_playing());
    assert_eq!(p.last_error, Some("note".to_string()));
    p.play_internet("n".to_string(), "u".to_string());
    assert_eq!(p.last_error, None);
    assert!(p.is_playing());
}

#[test]
fn empty_list_with_stale_selection_is_harmless() {
    let mut app = App::new(Vec::new(), 100_000);
    app.selected = 5;
    assert_eq!(app.handle_key(key(KeyCode::Down)), Command::Nothing);
    assert_eq!(app.handle_key(key(KeyCode::Enter)), Command::Nothing);
    assert_eq!(app.handle_key(ch('d')), Command::Nothing);
    assert_eq!(app.selected, 5);
    app.handle_key(ch('a'));
    app.handle_key(ch('n'));
    app.handle_key(key(KeyCode::Enter));
    app.handle_key(ch('u'));
    assert_eq!(app.handle_key(key(KeyCode::Enter)), Command::Save);
    assert_eq!(app.selected, 0);
}
