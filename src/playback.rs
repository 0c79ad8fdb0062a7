//! Playback requests: which tracks are playing on the shared voice output,
//! and when the lock is taken and released for them.
use vstd::prelude::*;

use crate::lock::messages::{Lock, Unlock};
use crate::models::Sound;

verus! {

/// Request to play the audio file at `audio_path` for `sound`.
#[derive(Clone, Debug)]
pub struct PlayAudio {
    pub audio_path: String,
    pub sound: Sound,
}

/// Why a play request was refused. No lock is taken in any of these cases.
#[derive(Clone, Copy, Debug, PartialEq, Eq, Structural)]
pub enum PlayError {
    /// The voice output has not joined a channel.
    NotConnected,
    /// The audio file could not be opened or decoded.
    DecodeError,
    /// Every track identity has been handed out.
    TrackIdsExhausted,
}

/// What a play request that went through hands on: the identity of the new
/// track, whose end is to be reported, and the lock request to send.
#[derive(Clone, Debug)]
pub struct PlayStart {
    pub track: u64,
    pub lock: Lock,
}

/// `tracks` strictly increase and stay below `bound`.
pub open spec fn tracks_ordered_below(tracks: Seq<u64>, bound: u64) -> bool {
    &&& forall|i: int, j: int| 0 <= i < j < tracks.len() ==> tracks[i] < tracks[j]
    &&& forall|i: int| 0 <= i < tracks.len() ==> tracks[i] < bound
}

/// Tracks other than `track`.
pub open spec fn not_track(track: u64) -> spec_fn(u64) -> bool {
    |t: u64| t != track
}

/// The outcome of a play request, given whether the voice output is in a
/// channel and whether the file was decoded: the connection is asked
/// about first, then the decoding.
pub open spec fn play_outcome(connected: bool, decoded: bool, ids_left: bool) -> Result<(), PlayError> {
    if !connected {
        Err(PlayError::NotConnected)
    } else if !decoded {
        Err(PlayError::DecodeError)
    } else if !ids_left {
        Err(PlayError::TrackIdsExhausted)
    } else {
        Ok(())
    }
}

/// The tracks that were started and have not ended yet. A new request does
/// not wait: it starts at once on the shared output (the last one wins) and
/// takes the lock again; the tracks it supersedes still end, and each end
/// releases the lock exactly once.
pub struct PlaybackCoordinator {
    live: Vec<u64>,
    next_track: u64,
}

impl View for PlaybackCoordinator {
    type V = Seq<u64>;

    closed spec fn view(&self) -> Seq<u64> {
        self.live@
    }
}

impl PlaybackCoordinator {
    /// Live tracks strictly increase and are below the next identity.
    pub closed spec fn wf(&self) -> bool {
        tracks_ordered_below(self.live@, self.next_track)
    }

    /// The identity the next track will get.
    pub closed spec fn next_track(&self) -> u64 {
        self.next_track
    }

    /// A coordinator with nothing playing.
    pub fn new() -> (r: PlaybackCoordinator)
        ensures
            r@ == Seq::<u64>::empty(),
            r.wf(),
            r.next_track() == 0,
    {
        PlaybackCoordinator { live: Vec::new(), next_track: 0 }
    }

    /// Decides on a play request once the voice output has been probed
    /// (`connected`) and the file decoded (`decoded`). On success the new
    /// track is live and the lock request for `msg.sound` is handed back; on
    /// failure nothing changes and no lock is asked for.
    pub fn play_audio(&mut self, msg: PlayAudio, connected: bool, decoded: bool) -> (r: Result<
        PlayStart,
        PlayError,
    >)
        requires
            old(self).wf(),
        ensures
            final(self).wf(),
            r is Ok <==> play_outcome(connected, decoded, old(self).next_track() < u64::MAX) is Ok,
            r matches Err(e) ==> play_outcome(
                connected,
                decoded,
                old(self).next_track() < u64::MAX,
            ) == Err::<(), PlayError>(e) && final(self)@ == old(self)@,
            r matches Ok(start) ==> {
                &&& !old(self)@.contains(start.track)
                &&& final(self)@ == old(self)@.push(start.track)
                &&& start.lock.sound@ == msg.sound@
            },
    {
        if !connected {
            return Err(PlayError::NotConnected);
        }
        if !decoded {
            return Err(PlayError::DecodeError);
        }
        if self.next_track == u64::MAX {
            return Err(PlayError::TrackIdsExhausted);
        }
        let track = self.next_track;
        proof {
            if self.live@.contains(track) {
                let k = choose|k: int| 0 <= k < self.live@.len() && self.live@[k] == track;
                assert(self.live@[k] < self.next_track);
            }
        }
        self.next_track = track + 1;
        self.live.push(track);
        Ok(PlayStart { track, lock: Lock { sound: msg.sound } })
    }

    /// Reports that `track` has ended, naturally or because another track
    /// superseded it. The first report of a live track hands back the unlock
    /// to send; any other report hands back nothing.
    pub fn track_ended(&mut self, track: u64) -> (r: Option<Unlock>)
        requires
            old(self).wf(),
        ensures
            final(self).wf(),
            final(self).next_track() == old(self).next_track(),
            r is Some <==> old(self)@.contains(track),
            final(self)@ == old(self)@.filter(not_track(track)),
    {
        let ghost before = self.live@;
        let mut kept: Vec<u64> = Vec::new();
        let mut found = false;
        let mut i: usize = 0;
        while i < self.live.len()
            invariant
                i <= before.len(),
                before == self.live@,
                tracks_ordered_below(before, self.next_track),
                kept@ == before.take(i as int).filter(not_track(track)),
                tracks_ordered_below(kept@, self.next_track),
                forall|k: int| 0 <= k < kept@.len() && i < before.len() ==> kept@[k] < before[i as int],
                found <==> exists|k: int| 0 <= k < i && before[k] == track,
            decreases before.len() - i,
        {
            proof {
                reveal(Seq::filter);
                assert(before.take(i + 1).drop_last() =~= before.take(i as int));
            }
            let t = self.live[i];
            if t != track {
                kept.push(t);
            } else {
                found = true;
            }
            i = i + 1;
        }
        assert(before.take(i as int) =~= before);
        self.live = kept;
        if found {
            Some(Unlock)
        } else {
            None
        }
    }
}

/// Each started track releases the lock exactly once: its first end report
/// fires an unlock, and a second report of the same track fires nothing.
pub proof fn lemma_track_unlocks_once(live: Seq<u64>, track: u64)
    requires
        !live.contains(track),
    ensures
        live.push(track).contains(track),
        !live.push(track).filter(not_track(track)).contains(track),
        live.push(track).filter(not_track(track)) == live,
{
    let started = live.push(track);
    assert(started[started.len() - 1] == track);
    reveal(Seq::filter);
    assert(started.drop_last() =~= live);
    lemma_filter_keeps_all(live, track);
    if started.filter(not_track(track)).contains(track) {
        let k = choose|k: int|
            0 <= k < started.filter(not_track(track)).len() && started.filter(not_track(track))[k]
                == track;
        started.lemma_filter_pred(not_track(track), k);
    }
}

/// Filtering out a track that is absent changes nothing.
proof fn lemma_filter_keeps_all(live: Seq<u64>, track: u64)
    requires
        !live.contains(track),
    ensures
        live.filter(not_track(track)) == live,
    decreases live.len(),
{
    reveal(Seq::filter);
    if live.len() > 0 {
        assert(!live.drop_last().contains(track)) by {
            if live.drop_last().contains(track) {
                let k = choose|k: int| 0 <= k < live.drop_last().len() && live.drop_last()[k] == track;
                assert(live[k] == track);
            }
        }
        lemma_filter_keeps_all(live.drop_last(), track);
        assert(live[live.len() - 1] != track);
        assert(live.drop_last().push(live.last()) =~= live);
    }
}

} // verus!
