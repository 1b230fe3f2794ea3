use mediatransport::artwork::{planArtwork, artworkBytes, ArtworkPlan, ARTWORK_SIZE_CEILING};
use mediatransport::session::{createSessionObject, SessionData};
use mediatransport::status::PlaybackStatus;
use mediatransport::strings::convertString;
use mediatransport::timeline::{durationMs, getTimeSpan, positionMs, TimelineProperties};

fn timeline(
    start_time: Option<i64>,
    end_time: Option<i64>,
    position: Option<i64>,
    last_updated: Option<u64>,
) -> TimelineProperties {
    TimelineProperties { start_time, end_time, position, last_updated }
}

#[test]
fn position_extrapolates_while_playing() {
    // reported 10000 ms, last update 5 s before now: position has moved to 15000 ms.
    let now: u64 = 100_000;
    assert_eq!(positionMs(true, 10_000, now, Some(now - 5_000)), 15_000);
}

#[test]
fn position_fixed_when_not_playing() {
    assert_eq!(positionMs(false, 7_000, 123_456_789, Some(1)), 7_000);
    assert_eq!(positionMs(false, 7_000, 0, None), 7_000);
}

#[test]
fn position_zero_delta_when_last_update_unreadable() {
    assert_eq!(positionMs(true, 4_200, 987_654_321, None), 4_200);
}

#[test]
fn get_time_span_defaults_to_zero() {
    assert_eq!(getTimeSpan(None), 0);
    assert_eq!(getTimeSpan(Some(5)), 5);
}

#[test]
fn get_time_span_reinterprets_negative_values() {
    assert_eq!(getTimeSpan(Some(-1)), u64::MAX);
    assert_eq!(getTimeSpan(Some(i64::MIN)), 0x8000_0000_0000_0000);
}

#[test]
fn duration_is_end_minus_start() {
    assert_eq!(durationMs(&timeline(Some(5_000), Some(20_000), None, None)), 15_000);
    assert_eq!(durationMs(&timeline(None, None, None, None)), 0);
}

#[test]
fn duration_with_unreadable_end_goes_negative() {
    assert_eq!(durationMs(&timeline(Some(5_000), None, None, None)), -5_000);
}

#[test]
fn unreadable_string_becomes_unknown() {
    assert_eq!(convertString(None), "Unknown");
    assert_eq!(convertString(Some(String::from("Spotify"))), "Spotify");
}

#[test]
fn oversize_artwork_is_never_loaded() {
    assert_eq!(planArtwork(Some(1u64 << 31)), ArtworkPlan::SkipEmpty);
    assert_eq!(planArtwork(Some(ARTWORK_SIZE_CEILING as u64)), ArtworkPlan::SkipEmpty);
    assert_eq!(planArtwork(Some(u64::MAX)), ArtworkPlan::SkipEmpty);
}

#[test]
fn modest_artwork_is_loaded() {
    assert_eq!(planArtwork(Some(10)), ArtworkPlan::Load(10));
    assert_eq!(planArtwork(Some(ARTWORK_SIZE_CEILING as u64 - 1)), ArtworkPlan::Load(ARTWORK_SIZE_CEILING - 1));
}

#[test]
fn absent_artwork_is_skipped() {
    assert_eq!(planArtwork(None), ArtworkPlan::SkipEmpty);
}

#[test]
fn artwork_bytes_follow_the_plan() {
    assert_eq!(artworkBytes(ArtworkPlan::Load(3), Some(vec![9, 8, 7])), vec![9, 8, 7]);
    assert_eq!(artworkBytes(ArtworkPlan::Load(3), None), Vec::<u8>::new());
    assert_eq!(artworkBytes(ArtworkPlan::SkipEmpty, Some(vec![1])), Vec::<u8>::new());
}

#[test]
fn record_is_fully_populated() {
    let data = SessionData {
        sourceApp: Some(String::from("player.app")),
        artist: None,
        title: Some(String::from("Song")),
        status: Some(PlaybackStatus::Playing),
        timeline: timeline(Some(1_000), Some(61_000), Some(10_000), Some(95_000)),
        artwork: vec![1, 2, 3],
    };
    let rec = createSessionObject(3, data, 100_000);
    assert_eq!(rec.index, 3);
    assert_eq!(rec.sourceApp, "player.app");
    assert_eq!(rec.artist, "Unknown");
    assert_eq!(rec.title, "Song");
    assert_eq!(rec.artwork, vec![1, 2, 3]);
    assert_eq!(rec.durationMs, 60_000);
    assert_eq!(rec.positionMs, 15_000);
    assert!(rec.isPlaying);
}

#[test]
fn record_with_nothing_readable_uses_every_default() {
    let data = SessionData {
        sourceApp: None,
        artist: None,
        title: None,
        status: None,
        timeline: timeline(None, None, None, None),
        artwork: Vec::new(),
    };
    let rec = createSessionObject(0, data, 100_000);
    assert_eq!(rec.sourceApp, "Unknown");
    assert_eq!(rec.artist, "Unknown");
    assert_eq!(rec.title, "Unknown");
    assert!(rec.artwork.is_empty());
    assert_eq!(rec.durationMs, 0);
    assert_eq!(rec.positionMs, 0);
    assert!(!rec.isPlaying);
}

#[test]
fn readable_properties_do_not_become_unknown() {
    let data = SessionData {
        sourceApp: Some(String::from("a")),
        artist: Some(String::from("b")),
        title: Some(String::from("c")),
        status: Some(PlaybackStatus::Paused),
        timeline: timeline(Some(0), Some(1), Some(0), None),
        artwork: Vec::new(),
    };
    let rec = createSessionObject(0, data, 0);
    assert_ne!(rec.sourceApp, "Unknown");
    assert_ne!(rec.artist, "Unknown");
    assert_ne!(rec.title, "Unknown");
    assert!(!rec.isPlaying);
}
