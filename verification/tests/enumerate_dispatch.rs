use mediatransport::bridge::{
    resolveWait, AwaitOutcome, MANAGER_REQUEST_TIMEOUT_MS, MEDIA_TRANSPORT_TIMEOUT_MS,
    THUMBNAIL_STREAM_TIMEOUT_MS,
};
use mediatransport::dispatch::{commandOutcome, getSMTCSession};
use mediatransport::enumerate::{parseSessions, SessionFetch};
use mediatransport::session::SessionData;
use mediatransport::status::PlaybackStatus;
use mediatransport::timeline::TimelineProperties;

fn playing_session(title: &str, position: i64, last_updated: u64) -> SessionData {
    SessionData {
        sourceApp: Some(String::from("app")),
        artist: Some(String::from("artist")),
        title: Some(String::from(title)),
        status: Some(PlaybackStatus::Playing),
        timeline: TimelineProperties {
            start_time: Some(0),
            end_time: Some(180_000),
            position: Some(position),
            last_updated: Some(last_updated),
        },
        artwork: Vec::new(),
    }
}

#[test]
fn one_record_per_resolved_session() {
    let fetches = vec![
        SessionFetch::Resolved(playing_session("one", 1_000, 50_000)),
        SessionFetch::Failed,
        SessionFetch::Resolved(playing_session("three", 2_000, 50_000)),
    ];
    let records = parseSessions(fetches, 60_000);
    assert_eq!(records.len(), 2);
    assert_eq!(records[0].index, 0);
    assert_eq!(records[0].title, "one");
    assert_eq!(records[1].index, 2);
    assert_eq!(records[1].title, "three");
}

#[test]
fn empty_provider_list_yields_empty_result() {
    let records = parseSessions(Vec::new(), 12_345);
    assert!(records.is_empty());
}

#[test]
fn all_failed_sessions_yield_empty_result() {
    let records = parseSessions(vec![SessionFetch::Failed, SessionFetch::Failed], 0);
    assert!(records.is_empty());
}

#[test]
fn repeated_enumeration_only_moves_positions_forward() {
    let first = parseSessions(
        vec![SessionFetch::Resolved(playing_session("t", 10_000, 95_000))],
        100_000,
    );
    let second = parseSessions(
        vec![SessionFetch::Resolved(playing_session("t", 10_000, 95_000))],
        101_500,
    );
    assert_eq!(first.len(), second.len());
    assert_eq!(first[0].title, second[0].title);
    assert_eq!(first[0].sourceApp, second[0].sourceApp);
    assert_eq!(first[0].artist, second[0].artist);
    assert_eq!(first[0].isPlaying, second[0].isPlaying);
    assert_eq!(first[0].positionMs, 15_000);
    assert_eq!(second[0].positionMs, 16_500);
    assert!(first[0].positionMs <= second[0].positionMs);
}

#[test]
fn out_of_range_index_returns_false() {
    let sessions: Vec<u8> = vec![10, 20];
    assert!(getSMTCSession(&sessions, 5).is_none());
    assert!(!commandOutcome(false, None));
}

#[test]
fn in_range_index_resolves_to_that_session() {
    let sessions: Vec<u8> = vec![10, 20];
    assert_eq!(getSMTCSession(&sessions, 1), Some(&20));
    assert_eq!(getSMTCSession(&sessions, 0), Some(&10));
}

#[test]
fn command_outcome_reports_os_verdict() {
    assert!(commandOutcome(true, Some(true)));
    assert!(!commandOutcome(true, Some(false)));
    assert!(!commandOutcome(true, None));
    assert!(!commandOutcome(false, Some(true)));
}

#[test]
fn timed_out_wait_fails_and_cancels() {
    let verdict = resolveWait(AwaitOutcome::<u32>::TimedOut);
    assert!(verdict.value.is_none());
    assert!(verdict.cancel);
}

#[test]
fn failed_wait_fails_and_cancels() {
    let verdict = resolveWait(AwaitOutcome::<u32>::Failed);
    assert!(verdict.value.is_none());
    assert!(verdict.cancel);
}

#[test]
fn completed_wait_hands_back_the_value() {
    let verdict = resolveWait(AwaitOutcome::Ready(42u32));
    assert_eq!(verdict.value, Some(42));
    assert!(!verdict.cancel);
}

#[test]
fn timeout_constants_hold_their_documented_bounds() {
    assert_eq!(MANAGER_REQUEST_TIMEOUT_MS, 5_000);
    assert_eq!(MEDIA_TRANSPORT_TIMEOUT_MS, 3_000);
    assert_eq!(THUMBNAIL_STREAM_TIMEOUT_MS, 1_000);
}
