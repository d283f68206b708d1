//! What the player is playing, and how that changes as playback starts and
//! stops. The audio device and the streams themselves live outside the
//! library; this is the state they report into.
pub mod caching;
pub mod fm;

use vstd::prelude::*;

verus! {

/// What is playing right now.
#[derive(Debug, Clone, PartialEq)]
pub enum NowPlaying {
    Nothing,
    Internet { name: String, url: String },
    Fm { khz: u32, hardware: bool },
}

/// The player's state: what plays, and the note the last start left
/// (for FM, why a simulated tuner stands in for hardware).
pub struct PlayerHandle {
    pub now_playing: NowPlaying,
    pub last_error: Option<String>,
}

impl PlayerHandle {
    /// A player that plays nothing and has nothing to report.
    pub fn new() -> (p: PlayerHandle)
        ensures
            p.now_playing == NowPlaying::Nothing,
            p.last_error == None::<String>,
    {
        PlayerHandle { now_playing: NowPlaying::Nothing, last_error: None }
    }

    /// An internet stream has started: it is what plays, with nothing to
    /// report.
    pub fn play_internet(&mut self, name: String, url: String)
        ensures
            final(self).now_playing == (NowPlaying::Internet { name, url }),
            final(self).last_error == None::<String>,
    {
        self.last_error = None;
        self.now_playing = NowPlaying::Internet { name, url };
    }

    /// The FM receiver has started at `khz`, on hardware or simulated; `note`
    /// says why it fell back to simulation, if it did.
    pub fn play_fm(&mut self, khz: u32, hardware: bool, note: Option<String>)
        ensures
            final(self).now_playing == (NowPlaying::Fm { khz, hardware }),
            final(self).last_error == note,
    {
        self.last_error = note;
        self.now_playing = NowPlaying::Fm { khz, hardware };
    }

    /// Playback has stopped.
    pub fn stop(&mut self)
        ensures
            final(self).now_playing == NowPlaying::Nothing,
            final(self).last_error == old(self).last_error,
    {
        self.now_playing = NowPlaying::Nothing;
    }

    /// Whether anything plays.
    pub fn is_playing(&self) -> (b: bool)
        ensures
            b == !(self.now_playing is Nothing),
    {
        match self.now_playing {
            NowPlaying::Nothing => false,
            _ => true,
        }
    }
}

} // verus!
