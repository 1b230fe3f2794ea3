use vstd::prelude::*;

verus! {

/// Artwork whose declared size reaches this ceiling (just under 2^31 bytes)
/// is treated as unreasonably large and never read.
pub const ARTWORK_SIZE_CEILING: u32 = 0x7FFF_FFFF;

/// What to do about one session's artwork: load the declared number of
/// bytes, or skip the read and emit an empty sequence.
#[derive(Clone, Copy, Debug, PartialEq, Eq, Structural)]
pub enum ArtworkPlan {
    SkipEmpty,
    Load(u32),
}

/// The artwork decision: a read is attempted exactly when a stream was
/// opened, its size was readable, and that size is under the ceiling.
pub open spec fn spec_artwork_plan(declared_size: Option<u64>) -> ArtworkPlan {
    match declared_size {
        Some(n) => if n < ARTWORK_SIZE_CEILING as u64 {
            ArtworkPlan::Load(n as u32)
        } else {
            ArtworkPlan::SkipEmpty
        },
        None => ArtworkPlan::SkipEmpty,
    }
}

/// Decides whether one session's artwork is read at all. `declared_size` is
/// the byte size the opened stream declares, or `None` when there is no
/// artwork or any step before the size query failed. Oversized artwork is
/// skipped outright, never read.
pub fn planArtwork(declared_size: Option<u64>) -> (p: ArtworkPlan)
    ensures
        p == spec_artwork_plan(declared_size),
        declared_size is Some && declared_size->0 >= ARTWORK_SIZE_CEILING as u64 ==> p
            == ArtworkPlan::SkipEmpty,
        declared_size is None ==> p == ArtworkPlan::SkipEmpty,
        declared_size is Some && declared_size->0 < ARTWORK_SIZE_CEILING as u64 ==> p
            == ArtworkPlan::Load(declared_size->0 as u32),
{
    match declared_size {
        Some(n) => {
            if n < ARTWORK_SIZE_CEILING as u64 {
                ArtworkPlan::Load(n as u32)
            } else {
                ArtworkPlan::SkipEmpty
            }
        },
        None => ArtworkPlan::SkipEmpty,
    }
}

/// Folds the outcome of following an artwork plan into the record's byte
/// sequence: the loaded bytes when the plan called for a read and the read
/// succeeded, the empty sequence in every other case. Failure inside artwork
/// extraction never surfaces beyond an empty sequence.
pub fn artworkBytes(plan: ArtworkPlan, loaded: Option<Vec<u8>>) -> (b: Vec<u8>)
    ensures
        plan is SkipEmpty ==> b@ == Seq::<u8>::empty(),
        loaded is None ==> b@ == Seq::<u8>::empty(),
        plan is Load && loaded is Some ==> b@ == loaded->0@,
{
    match plan {
        ArtworkPlan::Load(_) => match loaded {
            Some(v) => v,
            None => Vec::new(),
        },
        ArtworkPlan::SkipEmpty => Vec::new(),
    }
}

} // verus!
