//! Stations the player knows about, and the built-in defaults.
use crate::mhz::{format_mhz, mhz_digits};
use vstd::prelude::*;

verus! {

/// A named station: an internet stream or an FM frequency.
#[derive(Debug, Clone, PartialEq)]
pub struct Station {
    pub name: String,
    pub kind: StationKind,
}

/// What a station tunes to: a stream URL, or an FM frequency in kHz.
#[derive(Debug, Clone, PartialEq)]
pub enum StationKind {
    Internet(String),
    Fm(u32),
}

/// The line shown for a station in the list: its name, two spaces, and in
/// parentheses the stream URL or the frequency in MHz.
pub open spec fn label_text(station: Station) -> Seq<char> {
    match station.kind {
        StationKind::Internet(url) => station.name@ + "  ("@ + url@ + ")"@,
        StationKind::Fm(khz) => station.name@ + "  ("@ + mhz_digits(khz as nat) + " MHz)"@,
    }
}

impl Station {
    /// The line shown for this station in the list.
    pub fn label(&self) -> (s: String)
        ensures
            s@ == label_text(*self),
    {
        let mut s = self.name.clone();
        s.append("  (");
        match &self.kind {
            StationKind::Internet(url) => {
                s.append(url.as_str());
                s.append(")");
            },
            StationKind::Fm(khz) => {
                let mhz = format_mhz(*khz);
                s.append(mhz.as_str());
                s.append(" MHz)");
            },
        }
        s
    }
}

/// `station` is the internet station `name` streaming from `url`.
pub open spec fn is_internet_station(station: Station, name: Seq<char>, url: Seq<char>) -> bool {
    &&& station.name@ == name
    &&& station.kind matches StationKind::Internet(u) && u@ == url
}

/// `station` is the FM station `name` at `khz` kHz.
pub open spec fn is_fm_station(station: Station, name: Seq<char>, khz: u32) -> bool {
    &&& station.name@ == name
    &&& station.kind == StationKind::Fm(khz)
}

/// The frequency the FM dial starts at when none was saved, in kHz.
pub fn default_last_fm_khz() -> (khz: u32)
    ensures
        khz == 100_000,
{
    100_000
}

fn internet_station(name: &str, url: &str) -> (s: Station)
    ensures
        is_internet_station(s, name@, url@),
{
    Station { name: String::from_str(name), kind: StationKind::Internet(String::from_str(url)) }
}

/// A handful of well-known public internet radio streams, so the player is
/// useful the moment it starts, plus a couple of FM presets as examples.
pub fn default_stations() -> (stations: Vec<Station>)
    ensures
        stations@.len() == 8,
        is_internet_station(
            stations@[0],
            "SomaFM - Groove Salad"@,
            "https://ice1.somafm.com/groovesalad-128-mp3"@,
        ),
        is_internet_station(
            stations@[1],
            "SomaFM - Drone Zone"@,
            "https://ice1.somafm.com/dronezone-128-mp3"@,
        ),
        is_internet_station(
            stations@[2],
            "SomaFM - Space Station"@,
            "https://ice1.somafm.com/spacestation-128-mp3"@,
        ),
        is_internet_station(
            stations@[3],
            "Radio Paradise - Main Mix"@,
            "https://stream.radioparadise.com/mp3-128"@,
        ),
        is_internet_station(
            stations@[4],
            "KEXP Seattle"@,
            "https://kexp-mp3-128.streamguys1.com/kexp128.mp3"@,
        ),
        is_internet_station(
            stations@[5],
            "BBC Radio"@,
            "https://garfnet.org.uk/download/radio/20231029-bbc-radio-with-rewind.m3u"@,
        ),
        is_fm_station(stations@[6], "Local FM"@, 101_100),
        is_fm_station(stations@[7], "Campus FM"@, 88_100),
{
    let mut stations: Vec<Station> = Vec::new();
    stations.push(
        internet_station("SomaFM - Groove Salad", "https://ice1.somafm.com/groovesalad-128-mp3"),
    );
    stations.push(
        internet_station("SomaFM - Drone Zone", "https://ice1.somafm.com/dronezone-128-mp3"),
    );
    stations.push(
        internet_station("SomaFM - Space Station", "https://ice1.somafm.com/spacestation-128-mp3"),
    );
    stations.push(
        internet_station("Radio Paradise - Main Mix", "https://stream.radioparadise.com/mp3-128"),
    );
    stations.push(
        internet_station("KEXP Seattle", "https://kexp-mp3-128.streamguys1.com/kexp128.mp3"),
    );
    stations.push(
        internet_station(
            "BBC Radio",
            "https://garfnet.org.uk/download/radio/20231029-bbc-radio-with-rewind.m3u",
        ),
    );
    stations.push(
        Station { name: String::from_str("Local FM"), kind: StationKind::Fm(101_100) },
    );
    stations.push(
        Station { name: String::from_str("Campus FM"), kind: StationKind::Fm(88_100) },
    );
    stations
}

} // verus!
