use vstd::prelude::*;

use crate::session::{
    SessionData,
    SessionDataModel,
    SessionRecord,
    SessionRecordModel,
    spec_record,
    createSessionObject,
};
use crate::status::spec_is_playing;
use crate::timeline::{spec_time_span, lemma_position_extrapolation_monotonic};

verus! {

/// One element of the provider's freshly fetched session list: either the
/// session resolved and its properties were extracted, or the OS failed to
/// materialize that one session. A failed element is skipped, never fatal.
pub enum SessionFetch {
    Failed,
    Resolved(SessionData),
}

impl View for SessionFetch {
    type V = Option<SessionDataModel>;

    open spec fn view(&self) -> Option<SessionDataModel> {
        match self {
            SessionFetch::Failed => None,
            SessionFetch::Resolved(d) => Some(d@),
        }
    }
}

/// Views of a fetched session list.
pub open spec fn fetch_views(fetches: Seq<SessionFetch>) -> Seq<Option<SessionDataModel>> {
    fetches.map_values(|f: SessionFetch| f@)
}

/// Views of an output record list.
pub open spec fn record_views(records: Seq<SessionRecord>) -> Seq<SessionRecordModel> {
    records.map_values(|rec: SessionRecord| rec@)
}

/// The records produced from position `i` onward: one record per resolved
/// session, carrying the provider position as its index; failed sessions
/// contribute nothing.
pub open spec fn spec_records_from(
    fetches: Seq<Option<SessionDataModel>>,
    i: int,
    now_ms: u64,
) -> Seq<SessionRecordModel>
    decreases fetches.len() - i,
{
    if i < 0 || i >= fetches.len() {
        Seq::empty()
    } else {
        let rest = spec_records_from(fetches, i + 1, now_ms);
        match fetches[i] {
            Some(d) => seq![spec_record(i as u32, d, now_ms)] + rest,
            None => rest,
        }
    }
}

/// The full enumeration result a fetched session list determines.
pub open spec fn spec_parse_sessions(
    fetches: Seq<Option<SessionDataModel>>,
    now_ms: u64,
) -> Seq<SessionRecordModel> {
    spec_records_from(fetches, 0, now_ms)
}

/// Builds the ordered output collection for one enumeration call: one fully
/// populated record per resolved session, indexed by provider position, in
/// provider order; sessions the provider failed to materialize are skipped.
/// `now_ms` is the wall-clock reading taken for this call.
pub fn parseSessions(fetches: Vec<SessionFetch>, now_ms: u64) -> (r: Vec<SessionRecord>)
    requires
        fetches@.len() <= u32::MAX,
    ensures
        record_views(r@) == spec_parse_sessions(fetch_views(fetches@), now_ms),
{
    let ghost fm = fetch_views(fetches@);
    let mut out: Vec<SessionRecord> = Vec::new();
    let mut rest = fetches;
    let mut i: u32 = 0;
    proof {
        assert(record_views(out@) =~= Seq::<SessionRecordModel>::empty());
        assert(record_views(out@) + spec_records_from(fm, 0, now_ms) =~= spec_records_from(
            fm,
            0,
            now_ms,
        ));
        assert(fetch_views(rest@) =~= fm.subrange(0, fm.len() as int));
    }
    while rest.len() > 0
        invariant
            i as int + rest@.len() == fm.len(),
            fm.len() <= u32::MAX,
            fetch_views(rest@) == fm.subrange(i as int, fm.len() as int),
            record_views(out@) + spec_records_from(fm, i as int, now_ms) == spec_records_from(
                fm,
                0,
                now_ms,
            ),
        decreases rest@.len(),
    {
        let ghost prev_rest = rest@;
        let ghost prev_out = out@;
        let f = rest.remove(0);
        proof {
            assert(fetch_views(prev_rest)[0] == fm.subrange(i as int, fm.len() as int)[0]);
            assert(f@ == fm[i as int]);
            assert forall|j: int| 0 <= j < rest@.len() implies #[trigger] fetch_views(rest@)[j]
                == fm.subrange(i as int + 1, fm.len() as int)[j] by {
                assert(rest@[j] == prev_rest[j + 1]);
                assert(fetch_views(prev_rest)[j + 1] == fm.subrange(i as int, fm.len() as int)[j
                    + 1]);
            }
            assert(fetch_views(rest@) =~= fm.subrange(i as int + 1, fm.len() as int));
        }
        match f {
            SessionFetch::Resolved(d) => {
                let ghost dm = d@;
                let rec = createSessionObject(i, d, now_ms);
                out.push(rec);
                proof {
                    assert(fm[i as int] == Some(dm));
                    assert(spec_records_from(fm, i as int, now_ms) == seq![
                        spec_record(i, dm, now_ms),
                    ] + spec_records_from(fm, i as int + 1, now_ms));
                    assert(record_views(out@) =~= record_views(prev_out).push(rec@));
                    assert(record_views(prev_out).push(rec@) + spec_records_from(
                        fm,
                        i as int + 1,
                        now_ms,
                    ) =~= record_views(prev_out) + spec_records_from(fm, i as int, now_ms));
                }
            },
            SessionFetch::Failed => {
                proof {
                    assert(fm[i as int] is None);
                    assert(spec_records_from(fm, i as int, now_ms) == spec_records_from(
                        fm,
                        i as int + 1,
                        now_ms,
                    ));
                }
            },
        }
        i = i + 1;
    }
    proof {
        assert(spec_records_from(fm, i as int, now_ms) =~= Seq::<SessionRecordModel>::empty());
        assert(record_views(out@) + spec_records_from(fm, i as int, now_ms) =~= record_views(
            out@,
        ));
    }
    out
}

proof fn lemma_records_from_len(f: Seq<Option<SessionDataModel>>, i: int, now_ms: u64)
    requires
        0 <= i <= f.len(),
    ensures
        spec_records_from(f, i, now_ms).len() <= f.len() - i,
    decreases f.len() - i,
{
    if i < f.len() {
        lemma_records_from_len(f, i + 1, now_ms);
    }
}

/// The enumeration never invents a session: it yields at most one record
/// per element of the provider's session list.
pub proof fn lemma_no_more_records_than_sessions(
    f: Seq<Option<SessionDataModel>>,
    now_ms: u64,
)
    ensures
        spec_parse_sessions(f, now_ms).len() <= f.len(),
{
    lemma_records_from_len(f, 0, now_ms);
}

proof fn lemma_records_from_indices(f: Seq<Option<SessionDataModel>>, i: int, now_ms: u64)
    requires
        0 <= i <= f.len(),
        f.len() <= u32::MAX,
    ensures
        forall|j: int|
            0 <= j < spec_records_from(f, i, now_ms).len() ==> {
                let rec = #[trigger] spec_records_from(f, i, now_ms)[j];
                &&& i <= rec.index < f.len()
                &&& f[rec.index as int] is Some
                &&& rec == spec_record(rec.index, f[rec.index as int]->0, now_ms)
            },
    decreases f.len() - i,
{
    if i < f.len() {
        lemma_records_from_indices(f, i + 1, now_ms);
        let out = spec_records_from(f, i, now_ms);
        let rest = spec_records_from(f, i + 1, now_ms);
        match f[i] {
            Some(d) => {
                assert forall|j: int| 0 <= j < out.len() implies {
                    let rec = #[trigger] out[j];
                    &&& i <= rec.index < f.len()
                    &&& f[rec.index as int] is Some
                    &&& rec == spec_record(rec.index, f[rec.index as int]->0, now_ms)
                } by {
                    if j == 0 {
                        assert(out[0] == spec_record(i as u32, d, now_ms));
                    } else {
                        assert(out[j] == rest[j - 1]);
                    }
                }
            },
            None => {},
        }
    }
}

/// Every record's index is the provider position of a session that did not
/// fail, and the record is exactly what that session's data determines.
pub proof fn lemma_record_indices_match_provider(
    f: Seq<Option<SessionDataModel>>,
    now_ms: u64,
)
    requires
        f.len() <= u32::MAX,
    ensures
        forall|j: int|
            0 <= j < spec_parse_sessions(f, now_ms).len() ==> {
                let rec = #[trigger] spec_parse_sessions(f, now_ms)[j];
                &&& rec.index < f.len()
                &&& f[rec.index as int] is Some
                &&& rec == spec_record(rec.index, f[rec.index as int]->0, now_ms)
            },
{
    lemma_records_from_indices(f, 0, now_ms);
}

/// The quantities position extrapolation adds stay in the signed 64-bit
/// range between the two observations, so no wrap-around can run a playing
/// session's position backwards.
pub open spec fn spec_extrapolation_in_range(d: SessionDataModel, now1: u64, now2: u64) -> bool {
    spec_is_playing(d.status) ==> {
        let reported = spec_time_span(d.timeline.position);
        &&& reported <= i64::MAX
        &&& (d.timeline.last_updated matches Some(lu) ==> lu <= now1 && now2 - lu + reported
            <= i64::MAX)
    }
}

proof fn lemma_records_from_idempotent(
    f: Seq<Option<SessionDataModel>>,
    i: int,
    now1: u64,
    now2: u64,
)
    requires
        0 <= i <= f.len(),
        now1 <= now2,
        forall|k: int|
            0 <= k < f.len() && (#[trigger] f[k]) is Some ==> spec_extrapolation_in_range(
                f[k]->0,
                now1,
                now2,
            ),
    ensures
        spec_records_from(f, i, now1).len() == spec_records_from(f, i, now2).len(),
        forall|j: int|
            0 <= j < spec_records_from(f, i, now1).len() ==> {
                let r1 = #[trigger] spec_records_from(f, i, now1)[j];
                let r2 = spec_records_from(f, i, now2)[j];
                &&& r1.index == r2.index
                &&& r1.sourceApp == r2.sourceApp
                &&& r1.artist == r2.artist
                &&& r1.title == r2.title
                &&& r1.artwork == r2.artwork
                &&& r1.durationMs == r2.durationMs
                &&& r1.isPlaying == r2.isPlaying
                &&& (r1.isPlaying ==> r1.positionMs <= r2.positionMs)
                &&& (!r1.isPlaying ==> r1.positionMs == r2.positionMs)
            },
    decreases f.len() - i,
{
    if i < f.len() {
        lemma_records_from_idempotent(f, i + 1, now1, now2);
        let out1 = spec_records_from(f, i, now1);
        let out2 = spec_records_from(f, i, now2);
        let rest1 = spec_records_from(f, i + 1, now1);
        let rest2 = spec_records_from(f, i + 1, now2);
        match f[i] {
            Some(d) => {
                let r1 = spec_record(i as u32, d, now1);
                let r2 = spec_record(i as u32, d, now2);
                if spec_is_playing(d.status) {
                    lemma_position_extrapolation_monotonic(
                        spec_time_span(d.timeline.position),
                        now1,
                        now2,
                        d.timeline.last_updated,
                    );
                }
                assert forall|j: int| 0 <= j < out1.len() implies {
                    let a = #[trigger] out1[j];
                    let b = out2[j];
                    &&& a.index == b.index
                    &&& a.sourceApp == b.sourceApp
                    &&& a.artist == b.artist
                    &&& a.title == b.title
                    &&& a.artwork == b.artwork
                    &&& a.durationMs == b.durationMs
                    &&& a.isPlaying == b.isPlaying
                    &&& (a.isPlaying ==> a.positionMs <= b.positionMs)
                    &&& (!a.isPlaying ==> a.positionMs == b.positionMs)
                } by {
                    if j == 0 {
                        assert(out1[0] == r1);
                        assert(out2[0] == r2);
                    } else {
                        assert(out1[j] == rest1[j - 1]);
                        assert(out2[j] == rest2[j - 1]);
                    }
                }
            },
            None => {},
        }
    }
}

/// Enumerating twice over an unchanged session set yields records that agree
/// on index, strings, artwork, duration and playing flag; a playing
/// session's position only moves forward between the calls, and a paused
/// one's does not move at all.
pub proof fn lemma_enumerate_idempotent(
    f: Seq<Option<SessionDataModel>>,
    now1: u64,
    now2: u64,
)
    requires
        now1 <= now2,
        forall|k: int|
            0 <= k < f.len() && (#[trigger] f[k]) is Some ==> spec_extrapolation_in_range(
                f[k]->0,
                now1,
                now2,
            ),
    ensures
        spec_parse_sessions(f, now1).len() == spec_parse_sessions(f, now2).len(),
        forall|j: int|
            0 <= j < spec_parse_sessions(f, now1).len() ==> {
                let r1 = #[trigger] spec_parse_sessions(f, now1)[j];
                let r2 = spec_parse_sessions(f, now2)[j];
                &&& r1.index == r2.index
                &&& r1.sourceApp == r2.sourceApp
                &&& r1.artist == r2.artist
                &&& r1.title == r2.title
                &&& r1.artwork == r2.artwork
                &&& r1.durationMs == r2.durationMs
                &&& r1.isPlaying == r2.isPlaying
                &&& (r1.isPlaying ==> r1.positionMs <= r2.positionMs)
                &&& (!r1.isPlaying ==> r1.positionMs == r2.positionMs)
            },
{
    lemma_records_from_idempotent(f, 0, now1, now2);
}

} // verus!
