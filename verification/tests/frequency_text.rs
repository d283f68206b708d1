use radiofm::config::{default_last_fm_khz, default_stations, Station, StationKind};
use radiofm::mhz::format_mhz;
use radiofm::source::fm::{clamp_to_band, FM_BAND_MAX_KHZ, FM_BAND_MIN_KHZ};

fn float_text(khz: u32) -> String {
    format!("{:.1}", khz as f32 / 1000.0)
}

#[test]
fn mhz_text_examples() {
    assert_eq!(format_mhz(101_100), "101.1");
    assert_eq!(format_mhz(87_500), "87.5");
    assert_eq!(format_mhz(108_000), "108.0");
    assert_eq!(format_mhz(0), "0.0");
    assert_eq!(format_mhz(49), "0.0");
    assert_eq!(format_mhz(51), "0.1");
    assert_eq!(format_mhz(999_999), "1000.0");
}

#[test]
fn mhz_text_matches_float_formatting_in_low_range() {
    for khz in 0..=400_000u32 {
        assert_eq!(format_mhz(khz), float_text(khz), "khz = {khz}");
    }
}

#[test]
fn mhz_text_matches_float_formatting_around_significand_limit() {
    for khz in 16_700_000..=16_900_000u32 {
        assert_eq!(format_mhz(khz), float_text(khz), "khz = {khz}");
    }
}

#[test]
fn mhz_text_matches_float_formatting_across_u32() {
    let mut khz: u64 = 0;
    while khz <= u32::MAX as u64 {
        let k = khz as u32;
        assert_eq!(format_mhz(k), float_text(k), "khz = {k}");
        khz += 4093;
    }
    for shift in 0..32u32 {
        let p = 1u64 << shift;
        for k in [p.saturating_sub(1), p, p + 1] {
            if k <= u32::MAX as u64 {
                let k = k as u32;
                assert_eq!(format_mhz(k), float_text(k), "khz = {k}");
            }
        }
    }
    assert_eq!(format_mhz(u32::MAX), float_text(u32::MAX));
}

#[test]
fn mhz_text_matches_float_formatting_at_half_tenths() {
    // Frequencies ending in 50 kHz sit exactly between two tenths of a MHz.
    let mut khz = 50u32;
    while khz < 2_000_000 {
        assert_eq!(format_mhz(khz), float_text(khz), "khz = {khz}");
        khz += 100;
    }
}

#[test]
fn label_of_internet_station() {
    let s = Station {
        name: "KEXP Seattle".to_string(),
        kind: StationKind::Internet("https://example.org/live.mp3".to_string()),
    };
    assert_eq!(s.label(), "KEXP Seattle  (https://example.org/live.mp3)");
}

#[test]
fn label_of_fm_station() {
    let s = Station { name: "Local FM".to_string(), kind: StationKind::Fm(101_100) };
    assert_eq!(s.label(), "Local FM  (101.1 MHz)");
    let s = Station { name: "Edge".to_string(), kind: StationKind::Fm(87_550) };
    assert_eq!(s.label(), format!("Edge  ({:.1} MHz)", 87_550u32 as f32 / 1000.0));
}

#[test]
fn default_station_list() {
    let stations = default_stations();
    assert_eq!(stations.len(), 8);
    assert_eq!(stations[0].name, "SomaFM - Groove Salad");
    assert_eq!(
        stations[0].kind,
        StationKind::Internet("https://ice1.somafm.com/groovesalad-128-mp3".to_string())
    );
    assert_eq!(stations[3].name, "Radio Paradise - Main Mix");
    assert_eq!(
        stations[5].kind,
        StationKind::Internet(
            "https://garfnet.org.uk/download/radio/20231029-bbc-radio-with-rewind.m3u".to_string()
        )
    );
    assert_eq!(stations[6], Station { name: "Local FM".to_string(), kind: StationKind::Fm(101_100) });
    assert_eq!(stations[6].label(), "Local FM  (101.1 MHz)");
    assert_eq!(stations[7], Station { name: "Campus FM".to_string(), kind: StationKind::Fm(88_100) });
    let fm_presets = stations.iter().filter(|s| matches!(s.kind, StationKind::Fm(_))).count();
    assert_eq!(fm_presets, 2);
}

#[test]
fn default_dial_frequency() {
    assert_eq!(default_last_fm_khz(), 100_000);
}

#[test]
fn band_clamp_values() {
    assert_eq!(clamp_to_band(0), FM_BAND_MIN_KHZ);
    assert_eq!(clamp_to_band(87_499), 87_500);
    assert_eq!(clamp_to_band(87_500), 87_500);
    assert_eq!(clamp_to_band(101_100), 101_100);
    assert_eq!(clamp_to_band(108_000), 108_000);
    assert_eq!(clamp_to_band(108_001), FM_BAND_MAX_KHZ);
    assert_eq!(clamp_to_band(u32::MAX), 108_000);
    for k in [0u32, 50_000, 95_000, 200_000, u32::MAX] {
        assert_eq!(clamp_to_band(clamp_to_band(k)), clamp_to_band(k));
    }
}

#[test]
fn band_grid_shows_exact_tenths() {
    for khz in (87_500u32..=108_000).step_by(100) {
        assert_eq!(format_mhz(khz), format!("{}.{}", khz / 1000, (khz / 100) % 10));
    }
}
