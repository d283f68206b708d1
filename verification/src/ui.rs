//! Decisions the screen shows: which station in the list is the one
//! playing.
use crate::app::App;
use crate::config::StationKind;
use crate::source::NowPlaying;
use vstd::prelude::*;

verus! {

/// Station `idx` is what plays: the same stream URL, or the same FM
/// frequency.
pub open spec fn is_playing_station(app: App, idx: int) -> bool {
    &&& 0 <= idx < app.stations@.len()
    &&& match (app.player.now_playing, app.stations@[idx].kind) {
        (NowPlaying::Internet { url, .. }, StationKind::Internet(u)) => url@ == u@,
        (NowPlaying::Fm { khz, .. }, StationKind::Fm(k)) => khz == k,
        _ => false,
    }
}

/// Whether the station at `idx` in the list is the one playing.
pub fn is_currently_playing(app: &App, idx: usize) -> (b: bool)
    ensures
        b == is_playing_station(*app, idx as int),
{
    if idx >= app.stations.len() {
        return false;
    }
    let station = &app.stations[idx];
    match (&app.player.now_playing, &station.kind) {
        (NowPlaying::Internet { url, .. }, StationKind::Internet(u)) => *url == *u,
        (NowPlaying::Fm { khz, .. }, StationKind::Fm(k)) => *khz == *k,
        _ => false,
    }
}

/// A station marked as playing is tuned to what plays: the playing FM
/// frequency, or the playing stream's URL; with nothing playing, none is
/// marked.
pub proof fn law_marked_station_is_what_plays(app: App, idx: int)
    requires
        is_playing_station(app, idx),
    ensures
        0 <= idx < app.stations@.len(),
        !(app.player.now_playing is Nothing),
        app.player.now_playing matches NowPlaying::Fm { khz, .. } ==> app.stations@[idx].kind
            == StationKind::Fm(khz),
        app.player.now_playing matches NowPlaying::Internet { url, .. } ==> (
        app.stations@[idx].kind matches StationKind::Internet(u) && u@ == url@),
{
}

/// A station tuned to what plays is marked as playing.
pub proof fn law_station_tuned_to_what_plays_is_marked(app: App, idx: int)
    requires
        0 <= idx < app.stations@.len(),
        (app.player.now_playing matches NowPlaying::Fm { khz, .. } && app.stations@[idx].kind
            == StationKind::Fm(khz)) || (app.player.now_playing matches NowPlaying::Internet {
            url,
            ..
        } && app.stations@[idx].kind matches StationKind::Internet(u) && u@ == url@),
    ensures
        is_playing_station(app, idx),
{
}

} // verus!
