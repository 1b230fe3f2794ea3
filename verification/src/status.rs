use vstd::prelude::*;

verus! {

/// Playback status of one media session, as the OS provider reports it.
/// Only `Playing` enables position extrapolation; every other variant is
/// treated alike.
#[derive(Clone, Copy, Debug, PartialEq, Eq, Structural)]
pub enum PlaybackStatus {
    Closed,
    Opened,
    Changing,
    Stopped,
    Playing,
    Paused,
}

/// A session counts as playing exactly when its status is readable and is
/// `Playing`; an unreadable status degrades to "not playing".
pub open spec fn spec_is_playing(status: Option<PlaybackStatus>) -> bool {
    status == Some(PlaybackStatus::Playing)
}

/// Folds an optionally-readable playback status into the `isPlaying` flag.
pub fn isPlayingStatus(status: Option<PlaybackStatus>) -> (r: bool)
    ensures
        r == spec_is_playing(status),
{
    match status {
        Some(s) => s == PlaybackStatus::Playing,
        None => false,
    }
}

} // verus!
