//! The player screen as a state machine: keys and mouse events come in, the
//! screen state changes, and a `Command` goes out for the work that touches
//! the audio device, the network or the disk. The caller performs that work
//! and reports back (`frequency_entered`, `finish_play`, `PlayerHandle::stop`).
use crate::config::{is_internet_station, Station, StationKind};
use crate::mhz::{format_mhz, mhz_digits};
use crate::source::fm::{band_clamped, clamp_to_band, FM_BAND_MAX_KHZ, FM_BAND_MIN_KHZ};
use crate::source::{NowPlaying, PlayerHandle};
use crate::text::{pop_char, push_char, trim, trimmed};
use vstd::prelude::*;

verus! {

/// What the one-line prompt is currently collecting, if anything.
#[derive(Debug, Clone, PartialEq)]
pub enum InputMode {
    NoInput,
    FmFrequency,
    NewStationName,
    NewStationUrl { name: String },
}

/// A key, as far as the player tells keys apart.
#[derive(Debug, Clone, Copy, PartialEq, Eq)]
pub enum KeyCode {
    Char(char),
    Esc,
    Enter,
    Backspace,
    Up,
    Down,
    Left,
    Right,
    Other,
}

/// A key press: the key, and whether Control was held.
#[derive(Debug, Clone, Copy, PartialEq, Eq)]
pub struct Key {
    pub code: KeyCode,
    pub ctrl: bool,
}

/// A mouse event, as far as the player tells them apart.
#[derive(Debug, Clone, Copy, PartialEq, Eq)]
pub enum MouseKind {
    ScrollUp,
    ScrollDown,
    Other,
}

/// A volume change: by key (`+`/`-`, a step of 0.05) or by the mouse wheel
/// (a step of 0.03).
#[derive(Debug, Clone, Copy, PartialEq, Eq)]
pub enum VolumeStep {
    Up,
    Down,
    ScrollUp,
    ScrollDown,
}

/// What to start playing, and why (which decides the status line).
#[derive(Debug, Clone, PartialEq)]
pub enum PlayRequest {
    /// The selected station, by Enter.
    Station { name: String, kind: StationKind },
    /// A frequency typed into the FM prompt.
    TypedFm { khz: u32 },
    /// The playing FM frequency moved by the arrow keys.
    NudgedFm { khz: u32 },
}

/// How an attempt to start playback went.
#[derive(Debug, Clone, PartialEq)]
pub enum PlayOutcome {
    /// Playback runs; for FM, whether on hardware, and why it fell back if not.
    Started { hardware: bool, note: Option<String> },
    /// Playback could not start; the error as text.
    Failed { error: String },
}

/// Work for the caller to do after an event.
#[derive(Debug, Clone, PartialEq)]
pub enum Command {
    Nothing,
    /// Stop playback; on success report with `PlayerHandle::stop`.
    Stop,
    /// Start playback; report with `App::finish_play`.
    Play(PlayRequest),
    /// Read this text as a frequency in MHz; report with `App::frequency_entered`.
    ParseFrequency(String),
    /// Change the volume.
    AdjustVolume(VolumeStep),
    /// The station list changed: save the configuration.
    Save,
}

/// The player screen.
pub struct App {
    pub stations: Vec<Station>,
    pub selected: usize,
    pub input_mode: InputMode,
    pub input_buffer: String,
    pub status: String,
    pub should_quit: bool,
    /// The FM frequency to start from when nothing tuned is playing (saved
    /// in the configuration).
    pub last_fm_khz: u32,
    pub player: PlayerHandle,
}

/// Step of the right arrow key on the FM dial, in kHz.
pub const NUDGE_UP_KHZ: i32 = 100;

/// Step of the left arrow key on the FM dial, in kHz.
pub const NUDGE_DOWN_KHZ: i32 = -100;

/// The selection after moving it by `delta`, wrapping around the list.
pub open spec fn wrapped(selected: int, delta: int, len: int) -> int {
    (selected + delta) % len
}

/// `khz` moved by `delta` kHz (through `i32`, as the dial computes it) and
/// held to the FM band.
pub open spec fn nudged_khz(khz: u32, delta: i32) -> u32 {
    band_clamped((khz as i32) + delta)
}

/// Whether `khz` can be moved by `delta` in `i32` arithmetic.
pub open spec fn nudge_fits(khz: u32, delta: i32) -> bool {
    i32::MIN <= (khz as i32) + delta <= i32::MAX
}

impl App {
    /// The selection lies inside the station list, unless the list is empty.
    pub open spec fn wf(&self) -> bool {
        self.stations@.len() == 0 || self.selected < self.stations@.len()
    }

    /// The frequency the FM dial shows: the one playing, else the last one
    /// tuned.
    pub open spec fn fm_khz(&self) -> u32 {
        match self.player.now_playing {
            NowPlaying::Fm { khz, .. } => khz,
            _ => self.last_fm_khz,
        }
    }

    /// The machine limits of `handle_key`'s `i32` arithmetic: moving the
    /// selection needs the list's length in an `i32`, and nudging needs the
    /// moved frequency in one.
    pub open spec fn accepts(&self, key: Key) -> bool {
        self.input_mode is NoInput ==> match key.code {
            KeyCode::Up | KeyCode::Down => self.stations@.len() <= i32::MAX,
            KeyCode::Char(c) => (c == 'j' || c == 'k') ==> self.stations@.len() <= i32::MAX,
            KeyCode::Left => nudge_fits(self.fm_khz(), NUDGE_DOWN_KHZ),
            KeyCode::Right => nudge_fits(self.fm_khz(), NUDGE_UP_KHZ),
            _ => true,
        }
    }
}

/// Quitting: only `should_quit` changes.
pub open spec fn quits(old: App, new: App, cmd: Command) -> bool {
    new == App { should_quit: true, ..old } && cmd == Command::Nothing
}

/// Only the status line changes, to `msg`.
pub open spec fn only_status(old: App, new: App, msg: Seq<char>) -> bool {
    new == App { status: new.status, ..old } && new.status@ == msg
}

/// The selection moves by `delta`, wrapping around; nothing else changes.
pub open spec fn moves(old: App, new: App, delta: int, cmd: Command) -> bool {
    &&& cmd == Command::Nothing
    &&& if old.stations@.len() == 0 {
        new == old
    } else {
        new == App {
            selected: wrapped(old.selected as int, delta, old.stations@.len() as int) as usize,
            ..old
        }
    }
}

/// The prompt opens for `mode` with an empty buffer and the status `msg`.
pub open spec fn opens_prompt(old: App, new: App, mode: InputMode, msg: Seq<char>) -> bool {
    &&& new == App {
        input_mode: mode,
        input_buffer: new.input_buffer,
        status: new.status,
        ..old
    }
    &&& new.input_buffer@.len() == 0
    &&& new.status@ == msg
}

/// The prompt closes with an empty buffer and the status `msg`.
pub open spec fn closes_prompt(old: App, new: App, msg: Seq<char>) -> bool {
    opens_prompt(old, new, InputMode::NoInput, msg)
}

/// Enter on the list: the selected station is asked to play (an FM station
/// also becomes the last tuned frequency); with no station, nothing happens.
pub open spec fn plays_selected(old: App, new: App, cmd: Command) -> bool {
    if old.selected < old.stations@.len() {
        let station = old.stations@[old.selected as int];
        &&& match station.kind {
            StationKind::Fm(khz) => new == App { last_fm_khz: khz, ..old },
            StationKind::Internet(_) => new == old,
        }
        &&& cmd == Command::Play(PlayRequest::Station { name: station.name, kind: station.kind })
    } else {
        new == old && cmd == Command::Nothing
    }
}

/// An arrow key on the dial: the last tuned frequency moves by `delta`
/// within the band; if FM is playing, it is retuned there.
pub open spec fn nudges(old: App, new: App, delta: i32, cmd: Command) -> bool {
    let khz = nudged_khz(old.fm_khz(), delta);
    &&& new == App { last_fm_khz: khz, ..old }
    &&& if old.player.now_playing is Fm {
        cmd == Command::Play(PlayRequest::NudgedFm { khz })
    } else {
        cmd == Command::Nothing
    }
}

/// `d`: the selected station is removed, the selection stays or steps back
/// from the end, the status names the station, and the list is saved.
pub open spec fn deletes(old: App, new: App, cmd: Command) -> bool {
    if old.stations@.len() == 0 {
        new == old && cmd == Command::Nothing
    } else {
        let removed = old.stations@[old.selected as int];
        &&& new.stations@ == old.stations@.remove(old.selected as int)
        &&& new.selected == if old.selected >= new.stations@.len() && old.selected > 0 {
            (old.selected - 1) as usize
        } else {
            old.selected
        }
        &&& new.status@ == "Removed \""@ + removed.name@ + "\"."@
        &&& new == App {
            stations: new.stations,
            selected: new.selected,
            status: new.status,
            ..old
        }
        &&& cmd == Command::Save
    }
}

/// A key while no prompt is open.
pub open spec fn list_key_outcome(old: App, new: App, key: Key, cmd: Command) -> bool {
    match key.code {
        KeyCode::Esc => quits(old, new, cmd),
        KeyCode::Down => moves(old, new, 1, cmd),
        KeyCode::Up => moves(old, new, -1, cmd),
        KeyCode::Enter => plays_selected(old, new, cmd),
        KeyCode::Left => nudges(old, new, NUDGE_DOWN_KHZ, cmd),
        KeyCode::Right => nudges(old, new, NUDGE_UP_KHZ, cmd),
        KeyCode::Char(c) => if c == 'q' || (c == 'c' && key.ctrl) {
            quits(old, new, cmd)
        } else if c == 'j' {
            moves(old, new, 1, cmd)
        } else if c == 'k' {
            moves(old, new, -1, cmd)
        } else if c == 's' {
            only_status(old, new, "Stopped."@) && cmd == Command::Stop
        } else if c == '+' || c == '=' {
            new == old && cmd == Command::AdjustVolume(VolumeStep::Up)
        } else if c == '-' || c == '_' {
            new == old && cmd == Command::AdjustVolume(VolumeStep::Down)
        } else if c == 'f' {
            opens_prompt(
                old,
                new,
                InputMode::FmFrequency,
                "Type an FM frequency in MHz (e.g. 101.1) and press Enter."@,
            ) && cmd == Command::Nothing
        } else if c == 'a' {
            opens_prompt(
                old,
                new,
                InputMode::NewStationName,
                "New internet station -- type a name and press Enter."@,
            ) && cmd == Command::Nothing
        } else if c == 'd' {
            deletes(old, new, cmd)
        } else {
            new == old && cmd == Command::Nothing
        },
        _ => new == old && cmd == Command::Nothing,
    }
}

/// Enter in the prompt: the trimmed text is taken according to what the
/// prompt collects.
pub open spec fn submits(old: App, new: App, cmd: Command) -> bool {
    let text = trim(old.input_buffer@);
    match old.input_mode {
        InputMode::FmFrequency => {
            &&& new == App { input_mode: InputMode::NoInput, input_buffer: new.input_buffer, ..old }
            &&& new.input_buffer@.len() == 0
            &&& cmd matches Command::ParseFrequency(t) && t@ == text
        },
        InputMode::NewStationName => {
            &&& cmd == Command::Nothing
            &&& if text.len() == 0 {
                closes_prompt(old, new, "Name can't be empty."@)
            } else {
                &&& new.input_mode matches InputMode::NewStationUrl { name } && name@ == text
                &&& opens_prompt(
                    old,
                    new,
                    new.input_mode,
                    "Now type the stream URL and press Enter."@,
                )
            }
        },
        InputMode::NewStationUrl { name } => if text.len() == 0 {
            closes_prompt(old, new, "URL can't be empty."@) && cmd == Command::Nothing
        } else {
            &&& new.stations@.len() == old.stations@.len() + 1
            &&& new.stations@.drop_last() == old.stations@
            &&& new.stations@.last().name == name
            &&& is_internet_station(new.stations@.last(), name@, text)
            &&& new.selected == old.stations@.len()
            &&& new.status@ == "Added \""@ + name@ + "\" to your stations."@
            &&& new.input_mode == InputMode::NoInput
            &&& new.input_buffer@.len() == 0
            &&& new == App {
                stations: new.stations,
                selected: new.selected,
                status: new.status,
                input_mode: new.input_mode,
                input_buffer: new.input_buffer,
                ..old
            }
            &&& cmd == Command::Save
        },
        InputMode::NoInput => new == App { input_buffer: new.input_buffer, ..old }
            && new.input_buffer@.len() == 0 && cmd == Command::Nothing,
    }
}

/// A key while the prompt is open.
pub open spec fn prompt_key_outcome(old: App, new: App, key: Key, cmd: Command) -> bool {
    match key.code {
        KeyCode::Esc => closes_prompt(old, new, "Cancelled."@) && cmd == Command::Nothing,
        KeyCode::Enter => submits(old, new, cmd),
        KeyCode::Backspace => {
            &&& new == App { input_buffer: new.input_buffer, ..old }
            &&& new.input_buffer@ == if old.input_buffer@.len() > 0 {
                old.input_buffer@.drop_last()
            } else {
                old.input_buffer@
            }
            &&& cmd == Command::Nothing
        },
        KeyCode::Char(c) => {
            &&& new == App { input_buffer: new.input_buffer, ..old }
            &&& new.input_buffer@ == old.input_buffer@.push(c)
            &&& cmd == Command::Nothing
        },
        _ => new == old && cmd == Command::Nothing,
    }
}

/// What a key does: with the prompt open it edits or submits the prompt,
/// otherwise it acts on the list, the player and the dial.
pub open spec fn key_outcome(old: App, new: App, key: Key, cmd: Command) -> bool {
    if old.input_mode is NoInput {
        list_key_outcome(old, new, key, cmd)
    } else {
        prompt_key_outcome(old, new, key, cmd)
    }
}

/// The status line after a playback attempt.
pub open spec fn play_status(request: PlayRequest, outcome: PlayOutcome) -> Seq<char> {
    match outcome {
        PlayOutcome::Failed { error } => match request {
            PlayRequest::Station { .. } => "Playback error: "@ + error@,
            PlayRequest::TypedFm { .. } => "Couldn't tune: "@ + error@,
            PlayRequest::NudgedFm { .. } => "Couldn't retune: "@ + error@,
        },
        PlayOutcome::Started { hardware, note } => match request {
            PlayRequest::Station { name, kind } => match (kind, note) {
                (StationKind::Fm(_), Some(n)) => n@,
                _ => "Now playing: "@ + name@,
            },
            PlayRequest::TypedFm { khz } | PlayRequest::NudgedFm { khz } => match note {
                Some(n) => n@,
                None => "Tuned to "@ + mhz_digits(khz as nat) + " MHz."@,
            },
        },
    }
}

/// The player after a playback attempt: unchanged if it failed; otherwise
/// playing what was asked (an internet stream with no note, FM with the
/// tuner's note).
pub open spec fn player_after(old: PlayerHandle, request: PlayRequest, outcome: PlayOutcome) -> PlayerHandle {
    match outcome {
        PlayOutcome::Failed { .. } => old,
        PlayOutcome::Started { hardware, note } => match request {
            PlayRequest::Station { name, kind } => match kind {
                StationKind::Internet(url) => PlayerHandle {
                    now_playing: NowPlaying::Internet { name, url },
                    last_error: None,
                },
                StationKind::Fm(khz) => PlayerHandle {
                    now_playing: NowPlaying::Fm { khz, hardware },
                    last_error: note,
                },
            },
            PlayRequest::TypedFm { khz } | PlayRequest::NudgedFm { khz } => PlayerHandle {
                now_playing: NowPlaying::Fm { khz, hardware },
                last_error: note,
            },
        },
    }
}

/// "Welcome to radiofm.rs", a cat, and a hint.
pub open spec fn welcome() -> Seq<char> {
    "Welcome to radiofm.rs \u{1F63C}  - press ? for help"@
}

impl App {
    /// The screen over `stations`, with the first one selected, no prompt,
    /// nothing playing and the welcome line.
    pub fn new(stations: Vec<Station>, last_fm_khz: u32) -> (app: App)
        ensures
            app.wf(),
            app.stations == stations,
            app.selected == 0,
            app.input_mode == InputMode::NoInput,
            app.input_buffer@.len() == 0,
            app.status@ == welcome(),
            !app.should_quit,
            app.last_fm_khz == last_fm_khz,
            app.player.now_playing == NowPlaying::Nothing,
            app.player.last_error == None::<String>,
    {
        App {
            stations,
            selected: 0,
            input_mode: InputMode::NoInput,
            input_buffer: String::new(),
            status: String::from_str("Welcome to radiofm.rs \u{1F63C}  - press ? for help"),
            should_quit: false,
            last_fm_khz,
            player: PlayerHandle::new(),
        }
    }

    /// The frequency the FM dial shows: the one playing, else the last one
    /// tuned.
    pub fn dial_khz(&self) -> (khz: u32)
        ensures
            khz == self.fm_khz(),
    {
        match self.player.now_playing {
            NowPlaying::Fm { khz, .. } => khz,
            _ => self.last_fm_khz,
        }
    }

    /// Handles one key press.
    pub fn handle_key(&mut self, key: Key) -> (cmd: Command)
        requires
            old(self).wf(),
            old(self).accepts(key),
        ensures
            final(self).wf(),
            key_outcome(*old(self), *final(self), key, cmd),
    {
        match self.input_mode {
            InputMode::NoInput => {},
            _ => {
                return self.handle_input_mode_key(key);
            },
        }
        match key.code {
            KeyCode::Esc => {
                self.should_quit = true;
                Command::Nothing
            },
            KeyCode::Down => {
                self.move_selection(1);
                Command::Nothing
            },
            KeyCode::Up => {
                self.move_selection(-1);
                Command::Nothing
            },
            KeyCode::Enter => self.play_selected(),
            KeyCode::Left => self.nudge_fm(NUDGE_DOWN_KHZ),
            KeyCode::Right => self.nudge_fm(NUDGE_UP_KHZ),
            KeyCode::Char(c) => {
                if c == 'q' || (c == 'c' && key.ctrl) {
                    self.should_quit = true;
                    Command::Nothing
                } else if c == 'j' {
                    self.move_selection(1);
                    Command::Nothing
                } else if c == 'k' {
                    self.move_selection(-1);
                    Command::Nothing
                } else if c == 's' {
                    self.status = String::from_str("Stopped.");
                    Command::Stop
                } else if c == '+' || c == '=' {
                    Command::AdjustVolume(VolumeStep::Up)
                } else if c == '-' || c == '_' {
                    Command::AdjustVolume(VolumeStep::Down)
                } else if c == 'f' {
                    self.input_mode = InputMode::FmFrequency;
                    self.input_buffer = String::new();
                    self.status = String::from_str(
                        "Type an FM frequency in MHz (e.g. 101.1) and press Enter.",
                    );
                    Command::Nothing
                } else if c == 'a' {
                    self.input_mode = InputMode::NewStationName;
                    self.input_buffer = String::new();
                    self.status = String::from_str(
                        "New internet station -- type a name and press Enter.",
                    );
                    Command::Nothing
                } else if c == 'd' {
                    self.delete_selected()
                } else {
                    Command::Nothing
                }
            },
            _ => Command::Nothing,
        }
    }

    /// Handles one mouse event: the wheel changes the volume.
    pub fn handle_mouse(&mut self, kind: MouseKind) -> (cmd: Command)
        ensures
            *final(self) == *old(self),
            cmd == match kind {
                MouseKind::ScrollUp => Command::AdjustVolume(VolumeStep::ScrollUp),
                MouseKind::ScrollDown => Command::AdjustVolume(VolumeStep::ScrollDown),
                MouseKind::Other => Command::Nothing,
            },
    {
        match kind {
            MouseKind::ScrollUp => Command::AdjustVolume(VolumeStep::ScrollUp),
            MouseKind::ScrollDown => Command::AdjustVolume(VolumeStep::ScrollDown),
            MouseKind::Other => Command::Nothing,
        }
    }

    fn handle_input_mode_key(&mut self, key: Key) -> (cmd: Command)
        requires
            old(self).wf(),
            !(old(self).input_mode is NoInput),
        ensures
            final(self).wf(),
            prompt_key_outcome(*old(self), *final(self), key, cmd),
    {
        match key.code {
            KeyCode::Esc => {
                self.input_mode = InputMode::NoInput;
                self.input_buffer = String::new();
                self.status = String::from_str("Cancelled.");
                Command::Nothing
            },
            KeyCode::Enter => self.submit_input(),
            KeyCode::Backspace => {
                let _ = pop_char(&mut self.input_buffer);
                Command::Nothing
            },
            KeyCode::Char(c) => {
                push_char(&mut self.input_buffer, c);
                Command::Nothing
            },
            _ => Command::Nothing,
        }
    }

    fn submit_input(&mut self) -> (cmd: Command)
        requires
            old(self).wf(),
        ensures
            final(self).wf(),
            submits(*old(self), *final(self), cmd),
    {
        let text = trimmed(&self.input_buffer);
        let mut mode = InputMode::NoInput;
        std::mem::swap(&mut mode, &mut self.input_mode);
        let cmd = match mode {
            InputMode::FmFrequency => Command::ParseFrequency(text),
            InputMode::NewStationName => {
                if text.as_str().is_empty() {
                    self.status = String::from_str("Name can't be empty.");
                } else {
                    self.input_mode = InputMode::NewStationUrl { name: text };
                    self.input_buffer = String::new();
                    self.status = String::from_str("Now type the stream URL and press Enter.");
                    return Command::Nothing;
                }
                Command::Nothing
            },
            InputMode::NewStationUrl { name } => {
                if text.as_str().is_empty() {
                    self.status = String::from_str("URL can't be empty.");
                    Command::Nothing
                } else {
                    let mut status = String::from_str("Added \"");
                    status.append(name.as_str());
                    status.append("\" to your stations.");
                    self.stations.push(Station { name, kind: StationKind::Internet(text) });
                    assert(self.stations@.drop_last() =~= old(self).stations@);
                    self.selected = self.stations.len() - 1;
                    self.status = status;
                    Command::Save
                }
            },
            InputMode::NoInput => Command::Nothing,
        };
        self.input_buffer = String::new();
        cmd
    }

    fn move_selection(&mut self, delta: i32)
        requires
            old(self).wf(),
            old(self).stations@.len() <= i32::MAX,
            old(self).stations@.len() > 0 ==> i32::MIN <= old(self).selected + delta <= i32::MAX,
        ensures
            final(self).wf(),
            moves(*old(self), *final(self), delta as int, Command::Nothing),
    {
        if self.stations.len() == 0 {
            return ;
        }
        let len = self.stations.len() as i32;
        let idx = self.selected as i32 + delta;
        match idx.checked_rem_euclid(len) {
            Some(r) => {
                self.selected = r as usize;
            },
            None => {},
        }
    }

    fn play_selected(&mut self) -> (cmd: Command)
        requires
            old(self).wf(),
        ensures
            final(self).wf(),
            plays_selected(*old(self), *final(self), cmd),
    {
        if self.selected >= self.stations.len() {
            return Command::Nothing;
        }
        let station = &self.stations[self.selected];
        let name = station.name.clone();
        let kind = match &station.kind {
            StationKind::Internet(url) => StationKind::Internet(url.clone()),
            StationKind::Fm(khz) => StationKind::Fm(*khz),
        };
        match kind {
            StationKind::Fm(khz) => {
                self.last_fm_khz = khz;
            },
            StationKind::Internet(_) => {},
        }
        Command::Play(PlayRequest::Station { name, kind })
    }

    fn delete_selected(&mut self) -> (cmd: Command)
        requires
            old(self).wf(),
        ensures
            final(self).wf(),
            deletes(*old(self), *final(self), cmd),
    {
        if self.stations.len() == 0 {
            return Command::Nothing;
        }
        let removed = self.stations.remove(self.selected);
        if self.selected >= self.stations.len() && self.selected > 0 {
            self.selected = self.selected - 1;
        }
        let mut status = String::from_str("Removed \"");
        status.append(removed.name.as_str());
        status.append("\".");
        self.status = status;
        Command::Save
    }

    fn nudge_fm(&mut self, delta_khz: i32) -> (cmd: Command)
        requires
            old(self).wf(),
            nudge_fits(old(self).fm_khz(), delta_khz),
        ensures
            final(self).wf(),
            nudges(*old(self), *final(self), delta_khz, cmd),
    {
        let current = self.dial_khz();
        let moved = current as i32 + delta_khz;
        let new_khz = if moved < FM_BAND_MIN_KHZ as i32 {
            FM_BAND_MIN_KHZ
        } else if moved > FM_BAND_MAX_KHZ as i32 {
            FM_BAND_MAX_KHZ
        } else {
            moved as u32
        };
        self.last_fm_khz = new_khz;
        match self.player.now_playing {
            NowPlaying::Fm { .. } => Command::Play(PlayRequest::NudgedFm { khz: new_khz }),
            _ => Command::Nothing,
        }
    }

    /// Reports what the FM prompt's text read as: `Some(khz)` for a number
    /// of MHz (in kHz, rounded), `None` if it was no number. A frequency is
    /// held to the band, remembered, and asked to play.
    pub fn frequency_entered(&mut self, khz: Option<u32>) -> (cmd: Command)
        requires
            old(self).wf(),
        ensures
            final(self).wf(),
            match khz {
                Some(k) => {
                    &&& *final(self) == (App { last_fm_khz: band_clamped(k as int), ..*old(self) })
                    &&& cmd == Command::Play(PlayRequest::TypedFm { khz: band_clamped(k as int) })
                },
                None => {
                    &&& only_status(
                        *old(self),
                        *final(self),
                        "That didn't look like a frequency, e.g. try 101.1"@,
                    )
                    &&& cmd == Command::Nothing
                },
            },
    {
        match khz {
            Some(k) => {
                let khz = clamp_to_band(k);
                self.last_fm_khz = khz;
                Command::Play(PlayRequest::TypedFm { khz })
            },
            None => {
                self.status = String::from_str(
                    "That didn't look like a frequency, e.g. try 101.1",
                );
                Command::Nothing
            },
        }
    }

    /// Reports how the playback asked for by `request` went: the player
    /// takes it on, and the status line says so.
    pub fn finish_play(&mut self, request: PlayRequest, outcome: PlayOutcome)
        requires
            old(self).wf(),
        ensures
            final(self).wf(),
            final(self).player == player_after(old(self).player, request, outcome),
            final(self).status@ == play_status(request, outcome),
            *final(self) == (App {
                player: final(self).player,
                status: final(self).status,
                ..*old(self)
            }),
    {
        match outcome {
            PlayOutcome::Failed { error } => {
                let mut status = match request {
                    PlayRequest::Station { .. } => String::from_str("Playback error: "),
                    PlayRequest::TypedFm { .. } => String::from_str("Couldn't tune: "),
                    PlayRequest::NudgedFm { .. } => String::from_str("Couldn't retune: "),
                };
                status.append(error.as_str());
                self.status = status;
            },
            PlayOutcome::Started { hardware, note } => {
                match request {
                    PlayRequest::Station { name, kind } => {
                        let mut fallback = String::from_str("Now playing: ");
                        fallback.append(name.as_str());
                        match kind {
                            StationKind::Internet(url) => {
                                self.player.play_internet(name, url);
                                self.status = fallback;
                            },
                            StationKind::Fm(khz) => {
                                let status = match &note {
                                    Some(n) => n.clone(),
                                    None => fallback,
                                };
                                self.player.play_fm(khz, hardware, note);
                                self.status = status;
                            },
                        }
                    },
                    PlayRequest::TypedFm { khz } | PlayRequest::NudgedFm { khz } => {
                        let status = match &note {
                            Some(n) => n.clone(),
                            None => {
                                let mut s = String::from_str("Tuned to ");
                                let mhz = format_mhz(khz);
                                s.append(mhz.as_str());
                                s.append(" MHz.");
                                s
                            },
                        };
                        self.player.play_fm(khz, hardware, note);
                        self.status = status;
                    },
                }
            },
        }
    }
}

/// Every key keeps the selection inside a non-empty station list.
pub proof fn law_keys_keep_selection_valid(old: App, new: App, key: Key, cmd: Command)
    requires
        old.wf(),
        old.stations@.len() <= usize::MAX,
        key_outcome(old, new, key, cmd),
    ensures
        new.wf(),
{
    let n = old.stations@.len() as int;
    if n > 0 {
        let s = old.selected as int;
        assert(0 <= (s + 1) % n < n) by (nonlinear_arith)
            requires
                n > 0,
        ;
        assert(0 <= (s - 1) % n < n) by (nonlinear_arith)
            requires
                n > 0,
        ;
    }
}

/// A started playback plays exactly what was asked for: an FM request the
/// requested frequency, with the hardware flag and note the tuner reported;
/// a stream request the requested station and URL, with no note.
pub proof fn law_started_playback_plays_request(
    player: PlayerHandle,
    request: PlayRequest,
    hardware: bool,
    note: Option<String>,
)
    ensures
        request matches PlayRequest::TypedFm { khz } ==> player_after(
            player,
            request,
            PlayOutcome::Started { hardware, note },
        ) == (PlayerHandle { now_playing: NowPlaying::Fm { khz, hardware }, last_error: note }),
        request matches PlayRequest::NudgedFm { khz } ==> player_after(
            player,
            request,
            PlayOutcome::Started { hardware, note },
        ) == (PlayerHandle { now_playing: NowPlaying::Fm { khz, hardware }, last_error: note }),
        request matches PlayRequest::Station { kind: StationKind::Fm(khz), .. } ==> player_after(
            player,
            request,
            PlayOutcome::Started { hardware, note },
        ) == (PlayerHandle { now_playing: NowPlaying::Fm { khz, hardware }, last_error: note }),
        request matches PlayRequest::Station { name, kind: StationKind::Internet(url) }
            ==> player_after(player, request, PlayOutcome::Started { hardware, note }) == (
        PlayerHandle { now_playing: NowPlaying::Internet { name, url }, last_error: None }),
{
}

/// Deleting the selected station keeps the others in their order: those
/// before it stay in place, those after it move up by one.
pub proof fn law_delete_keeps_order(old: App, new: App, key: Key, cmd: Command)
    requires
        old.wf(),
        old.input_mode is NoInput,
        old.stations@.len() > 0,
        key.code == KeyCode::Char('d'),
        key_outcome(old, new, key, cmd),
    ensures
        new.stations@.len() == old.stations@.len() - 1,
        forall|j: int| (0 <= j < old.selected) ==> (new.stations@[j] == old.stations@[j]),
        forall|j: int|
            (old.selected <= j < new.stations@.len()) ==> (new.stations@[j] == old.stations@[j
                + 1]),
{
}

/// The arrow keys step the dial by 100 kHz: Right up, Left down, as long as
/// the step stays inside the FM band; with FM playing, that frequency is
/// what is asked to play.
pub proof fn law_nudge_steps_by_100_khz(old: App, new: App, key: Key, cmd: Command)
    requires
        old.input_mode is NoInput,
        old.fm_khz() <= i32::MAX,
        key.code == KeyCode::Left || key.code == KeyCode::Right,
        key_outcome(old, new, key, cmd),
    ensures
        key.code == KeyCode::Right && old.fm_khz() + 100 <= FM_BAND_MAX_KHZ
            && old.fm_khz() + 100 >= FM_BAND_MIN_KHZ ==> new.last_fm_khz == old.fm_khz() + 100,
        key.code == KeyCode::Left && old.fm_khz() - 100 >= FM_BAND_MIN_KHZ && old.fm_khz() - 100
            <= FM_BAND_MAX_KHZ ==> new.last_fm_khz == old.fm_khz() - 100,
        old.player.now_playing is Fm ==> cmd == Command::Play(
            PlayRequest::NudgedFm { khz: new.last_fm_khz },
        ),
        !(old.player.now_playing is Fm) ==> cmd == Command::Nothing,
{
}

/// Moving the selection down and then up again, with no prompt open and
/// at least one station, puts everything back as it was.
pub proof fn law_down_then_up_restores(
    a0: App,
    a1: App,
    a2: App,
    down: Key,
    up: Key,
    c1: Command,
    c2: Command,
)
    requires
        a0.wf(),
        a0.input_mode is NoInput,
        0 < a0.stations@.len() <= i32::MAX,
        down.code == KeyCode::Down,
        up.code == KeyCode::Up,
        key_outcome(a0, a1, down, c1),
        key_outcome(a1, a2, up, c2),
    ensures
        a2 == a0,
{
    let n = a0.stations@.len() as int;
    let s = a0.selected as int;
    if s + 1 < n {
        assert((s + 1) % n == s + 1) by (nonlinear_arith)
            requires
                0 <= s + 1 < n,
        ;
        assert((s + 1 - 1) % n == s) by (nonlinear_arith)
            requires
                0 <= s < n,
        ;
    } else {
        assert((s + 1) % n == 0) by (nonlinear_arith)
            requires
                s + 1 == n,
                n > 0,
        ;
        assert((0 - 1) % n == s) by (nonlinear_arith)
            requires
                s + 1 == n,
                n > 0,
        ;
    }
}

/// The arrow keys move the dial's frequency, and any retune they ask for,
/// only within the FM band.
pub proof fn law_nudged_frequency_stays_in_band(old: App, new: App, key: Key, cmd: Command)
    requires
        old.input_mode is NoInput,
        key.code == KeyCode::Left || key.code == KeyCode::Right,
        key_outcome(old, new, key, cmd),
    ensures
        FM_BAND_MIN_KHZ <= new.last_fm_khz <= FM_BAND_MAX_KHZ,
        cmd matches Command::Play(PlayRequest::NudgedFm { khz }) ==> khz == new.last_fm_khz,
{
}

/// In the prompt, typing a character and then Backspace leaves the prompt
/// as it was.
pub proof fn law_type_then_backspace_restores(
    a0: App,
    a1: App,
    a2: App,
    typed: Key,
    backspace: Key,
    c1: Command,
    c2: Command,
)
    requires
        !(a0.input_mode is NoInput),
        typed.code is Char,
        backspace.code == KeyCode::Backspace,
        key_outcome(a0, a1, typed, c1),
        key_outcome(a1, a2, backspace, c2),
    ensures
        a2.input_buffer@ == a0.input_buffer@,
        a2 == (App { input_buffer: a2.input_buffer, ..a0 }),
        c1 == Command::Nothing,
        c2 == Command::Nothing,
{
    assert(a0.input_buffer@.push(typed.code->Char_0).drop_last() =~= a0.input_buffer@);
}

/// Adding a station and then deleting it (the new station is selected once
/// added) gives back the station list as it was.
pub proof fn law_add_then_delete_restores_stations(
    a0: App,
    a1: App,
    a2: App,
    enter: Key,
    delete: Key,
    c1: Command,
    c2: Command,
)
    requires
        a0.wf(),
        a0.input_mode is NewStationUrl,
        trim(a0.input_buffer@).len() > 0,
        enter.code == KeyCode::Enter,
        delete.code == KeyCode::Char('d'),
        key_outcome(a0, a1, enter, c1),
        key_outcome(a1, a2, delete, c2),
    ensures
        a2.stations@ == a0.stations@,
        c1 == Command::Save,
        c2 == Command::Save,
{
    assert(a1.stations@.remove(a1.selected as int) =~= a1.stations@.drop_last());
}

/// Once a playback attempt has started, the player plays something; a
/// failed attempt leaves it as it was.
pub proof fn law_started_playback_plays(
    player: PlayerHandle,
    request: PlayRequest,
    outcome: PlayOutcome,
)
    ensures
        outcome is Started ==> !(player_after(player, request, outcome).now_playing is Nothing),
        outcome is Failed ==> player_after(player, request, outcome) == player,
{
}

} // verus!
