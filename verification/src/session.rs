use vstd::prelude::*;

use crate::status::{PlaybackStatus, spec_is_playing, isPlayingStatus};
use crate::strings::{spec_default_string, opt_string_view, convertString};
use crate::timeline::{
    TimelineProperties,
    spec_time_span,
    spec_duration_ms,
    spec_position_ms,
    getTimeSpan,
    durationMs,
    positionMs,
};

verus! {

/// Everything extracted from one successfully resolved session: each
/// property either read from the OS or marked unreadable, plus the artwork
/// bytes the marshaller settled on.
pub struct SessionData {
    pub sourceApp: Option<String>,
    pub artist: Option<String>,
    pub title: Option<String>,
    pub status: Option<PlaybackStatus>,
    pub timeline: TimelineProperties,
    pub artwork: Vec<u8>,
}

/// Mathematical view of `SessionData`.
#[verifier::ext_equal]
pub struct SessionDataModel {
    pub sourceApp: Option<Seq<char>>,
    pub artist: Option<Seq<char>>,
    pub title: Option<Seq<char>>,
    pub status: Option<PlaybackStatus>,
    pub timeline: TimelineProperties,
    pub artwork: Seq<u8>,
}

impl View for SessionData {
    type V = SessionDataModel;

    open spec fn view(&self) -> SessionDataModel {
        SessionDataModel {
            sourceApp: opt_string_view(self.sourceApp),
            artist: opt_string_view(self.artist),
            title: opt_string_view(self.title),
            status: self.status,
            timeline: self.timeline,
            artwork: self.artwork@,
        }
    }
}

/// One caller-owned output record: the flattened, fully populated view of
/// one session. Every field always holds a value; failed sub-steps degrade
/// to the documented defaults instead of leaving a hole.
pub struct SessionRecord {
    pub index: u32,
    pub sourceApp: String,
    pub artist: String,
    pub title: String,
    pub artwork: Vec<u8>,
    pub durationMs: i64,
    pub positionMs: i64,
    pub isPlaying: bool,
}

/// Mathematical view of `SessionRecord`.
#[verifier::ext_equal]
pub struct SessionRecordModel {
    pub index: u32,
    pub sourceApp: Seq<char>,
    pub artist: Seq<char>,
    pub title: Seq<char>,
    pub artwork: Seq<u8>,
    pub durationMs: i64,
    pub positionMs: i64,
    pub isPlaying: bool,
}

impl View for SessionRecord {
    type V = SessionRecordModel;

    open spec fn view(&self) -> SessionRecordModel {
        SessionRecordModel {
            index: self.index,
            sourceApp: self.sourceApp@,
            artist: self.artist@,
            title: self.title@,
            artwork: self.artwork@,
            durationMs: self.durationMs,
            positionMs: self.positionMs,
            isPlaying: self.isPlaying,
        }
    }
}

/// The record a session's extracted data determines: strings defaulted to
/// the sentinel, duration and position computed by the timeline formulas,
/// artwork passed through, the playing flag from the playback status.
pub open spec fn spec_record(index: u32, d: SessionDataModel, now_ms: u64) -> SessionRecordModel {
    SessionRecordModel {
        index: index,
        sourceApp: spec_default_string(d.sourceApp),
        artist: spec_default_string(d.artist),
        title: spec_default_string(d.title),
        artwork: d.artwork,
        durationMs: spec_duration_ms(d.timeline),
        positionMs: spec_position_ms(
            spec_is_playing(d.status),
            spec_time_span(d.timeline.position),
            now_ms,
            d.timeline.last_updated,
        ),
        isPlaying: spec_is_playing(d.status),
    }
}

/// Assembles one output record from one session's extracted data. `now_ms`
/// is the wall-clock reading, millisecond-equivalent, taken for this
/// enumeration (0 when the clock itself could not be read).
pub fn createSessionObject(index: u32, data: SessionData, now_ms: u64) -> (r: SessionRecord)
    ensures
        r@ == spec_record(index, data@, now_ms),
{
    let is_playing = isPlayingStatus(data.status);
    let reported = getTimeSpan(data.timeline.position);
    let duration = durationMs(&data.timeline);
    let position = positionMs(is_playing, reported, now_ms, data.timeline.last_updated);
    let r = SessionRecord {
        index: index,
        sourceApp: convertString(data.sourceApp),
        artist: convertString(data.artist),
        title: convertString(data.title),
        artwork: data.artwork,
        durationMs: duration,
        positionMs: position,
        isPlaying: is_playing,
    };
    proof {
        assert(r@ =~= spec_record(index, data@, now_ms));
    }
    r
}

/// A record built from a session whose string properties are all readable
/// and none of which happens to equal the sentinel text has no string field
/// equal to `"Unknown"`.
pub proof fn lemma_all_readable_no_sentinel(index: u32, d: SessionDataModel, now_ms: u64)
    requires
        d.sourceApp matches Some(s) && s != "Unknown"@,
        d.artist matches Some(s) && s != "Unknown"@,
        d.title matches Some(s) && s != "Unknown"@,
    ensures
        spec_record(index, d, now_ms).sourceApp != "Unknown"@,
        spec_record(index, d, now_ms).artist != "Unknown"@,
        spec_record(index, d, now_ms).title != "Unknown"@,
{
}

/// A record built from a session with no readable string property has all
/// three string fields equal to `"Unknown"`.
pub proof fn lemma_none_readable_all_sentinel(index: u32, d: SessionDataModel, now_ms: u64)
    requires
        d.sourceApp is None,
        d.artist is None,
        d.title is None,
    ensures
        spec_record(index, d, now_ms).sourceApp == "Unknown"@,
        spec_record(index, d, now_ms).artist == "Unknown"@,
        spec_record(index, d, now_ms).title == "Unknown"@,
{
}

} // verus!
