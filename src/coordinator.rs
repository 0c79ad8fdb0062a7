//! The coordination core as one unit: play requests take the lock, track
//! ends release it, and every change is fanned out to the subscribers.
use vstd::prelude::*;

use crate::broadcast::{
    alive_at, delivers_to, lock_frame_text, other_than, silent_at, with_pong, Delivery,
    FrameAction, HeartbeatOutcome, InboundFrame, SubscriberBroadcast, Subscriber, ids_of,
    PING_TEXT,
};
use crate::lock::lock_actor::SoundLockActor;
use crate::lock::messages::{GetLockStatus, LockStatus, LockStatusView, Unlock};
use crate::playback::{not_track, play_outcome, PlayAudio, PlayError, PlaybackCoordinator};

verus! {

/// A play request that went through: the new track, and the lock change
/// to send to each subscriber.
#[derive(Clone, Debug)]
pub struct PlayStarted {
    pub track: u64,
    pub deliveries: Vec<Delivery>,
}

/// The lock, the tracks in flight and the subscribers, changed only through
/// these methods and so one request at a time.
pub struct Soundboard {
    lock: SoundLockActor,
    playback: PlaybackCoordinator,
    subscribers: SubscriberBroadcast,
}

impl Soundboard {
    /// The lock status.
    pub closed spec fn status(&self) -> LockStatusView {
        self.lock@
    }

    /// The tracks that were started and have not ended.
    pub closed spec fn tracks(&self) -> Seq<u64> {
        self.playback@
    }

    /// The live subscribers, in order of arrival.
    pub closed spec fn subscribers(&self) -> Seq<Subscriber> {
        self.subscribers@
    }

    /// Some track identity is still to be handed out.
    pub closed spec fn track_ids_left(&self) -> bool {
        self.playback.next_track() < u64::MAX
    }

    /// Some subscriber identity is still to be handed out.
    pub closed spec fn subscriber_ids_left(&self) -> bool {
        self.subscribers.next_id() < u64::MAX
    }

    /// The parts are well formed.
    pub closed spec fn wf(&self) -> bool {
        &&& self.lock@.wf()
        &&& self.playback.wf()
        &&& self.subscribers.wf()
    }

    /// Nothing locked, nothing playing, nobody subscribed.
    pub fn new() -> (r: Soundboard)
        ensures
            r.wf(),
            r.status() == LockStatusView::unlocked(),
            r.tracks() == Seq::<u64>::empty(),
            r.subscribers() == Seq::<Subscriber>::empty(),
            r.track_ids_left(),
            r.subscriber_ids_left(),
    {
        Soundboard {
            lock: SoundLockActor::new(),
            playback: PlaybackCoordinator::new(),
            subscribers: SubscriberBroadcast::new(),
        }
    }

    /// A snapshot of the lock status; changes nothing.
    pub fn get_status(&self) -> (r: LockStatus)
        requires
            self.wf(),
        ensures
            r@ == self.status(),
            r@.wf(),
    {
        self.lock.handle_get_status(GetLockStatus).unwrap()
    }

    /// A play request, once the voice output has been probed (`connected`)
    /// and the file decoded (`decoded`). On success the track is live, the
    /// lock is held by `msg.sound` whatever held it before, and each
    /// subscriber gets one frame saying that the lock is held. On failure
    /// nothing changes and nothing is sent.
    pub fn play_audio(&mut self, msg: PlayAudio, connected: bool, decoded: bool) -> (r: Result<
        PlayStarted,
        PlayError,
    >)
        requires
            old(self).wf(),
        ensures
            final(self).wf(),
            final(self).subscribers() == old(self).subscribers(),
            final(self).subscriber_ids_left() == old(self).subscriber_ids_left(),
            r is Ok <==> play_outcome(
                connected,
                decoded,
                old(self).track_ids_left(),
            ) is Ok,
            r matches Err(e) ==> {
                &&& play_outcome(connected, decoded, old(self).track_ids_left())
                    == Err::<(), PlayError>(e)
                &&& final(self).status() == old(self).status()
                &&& final(self).tracks() == old(self).tracks()
            },
            r matches Ok(p) ==> {
                &&& final(self).status() == LockStatusView::locked_by(msg.sound@)
                &&& !old(self).tracks().contains(p.track)
                &&& final(self).tracks() == old(self).tracks().push(p.track)
                &&& delivers_to(p.deliveries@, old(self).subscribers(), true)
            },
    {
        match self.playback.play_audio(msg, connected, decoded) {
            Ok(start) => {
                self.lock.handle_lock(start.lock);
                let deliveries = self.subscribers.fan_out(true);
                Ok(PlayStarted { track: start.track, deliveries })
            },
            Err(e) => Err(e),
        }
    }

    /// Reports that `track` has ended. The first report of a live track
    /// releases the lock and sends each subscriber one frame saying so;
    /// any other report changes nothing and sends nothing.
    pub fn track_ended(&mut self, track: u64) -> (r: Vec<Delivery>)
        requires
            old(self).wf(),
        ensures
            final(self).wf(),
            final(self).subscribers() == old(self).subscribers(),
            final(self).subscriber_ids_left() == old(self).subscriber_ids_left(),
            final(self).track_ids_left() == old(self).track_ids_left(),
            final(self).tracks() == old(self).tracks().filter(not_track(track)),
            old(self).tracks().contains(track) ==> {
                &&& final(self).status() == LockStatusView::unlocked()
                &&& delivers_to(r@, old(self).subscribers(), false)
            },
            !old(self).tracks().contains(track) ==> {
                &&& final(self).status() == old(self).status()
                &&& r@.len() == 0
            },
    {
        match self.playback.track_ended(track) {
            Some(u) => {
                self.lock.handle_unlock(u);
                self.subscribers.fan_out(false)
            },
            None => Vec::new(),
        }
    }

    /// Releases the lock at once, whatever holds it, and sends each
    /// subscriber one frame saying so. Tracks in flight still report their
    /// end.
    pub fn unlock(&mut self) -> (r: Vec<Delivery>)
        requires
            old(self).wf(),
        ensures
            final(self).wf(),
            final(self).subscribers() == old(self).subscribers(),
            final(self).subscriber_ids_left() == old(self).subscriber_ids_left(),
            final(self).tracks() == old(self).tracks(),
            final(self).track_ids_left() == old(self).track_ids_left(),
            final(self).status() == LockStatusView::unlocked(),
            delivers_to(r@, old(self).subscribers(), false),
    {
        self.lock.handle_unlock(Unlock);
        self.subscribers.fan_out(false)
    }

    /// A new subscriber, that answered at `now`. It gets at once one frame
    /// telling whether the lock is held now, without waiting for a change.
    /// Gives `None`, and registers nobody, only once every subscriber
    /// identity has been handed out.
    pub fn connect(&mut self, now: u64) -> (r: Option<Delivery>)
        requires
            old(self).wf(),
        ensures
            final(self).wf(),
            final(self).status() == old(self).status(),
            final(self).tracks() == old(self).tracks(),
            final(self).track_ids_left() == old(self).track_ids_left(),
            r is None <==> !old(self).subscriber_ids_left(),
            r is None ==> final(self).subscribers() == old(self).subscribers(),
            r matches Some(d) ==> {
                &&& !ids_of(old(self).subscribers()).contains(d.subscriber)
                &&& final(self).subscribers() == old(self).subscribers().push(
                    Subscriber { id: d.subscriber, heartbeat_ts: now },
                )
                &&& d.frame@ == lock_frame_text(old(self).status().is_locked)
            },
    {
        let status = self.get_status();
        self.subscribers.connect(now, &status)
    }

    /// A frame sent by subscriber `id` at `now`; see
    /// `SubscriberBroadcast::on_frame`.
    pub fn on_frame(&mut self, id: u64, frame: InboundFrame, now: u64) -> (r: FrameAction)
        requires
            old(self).wf(),
        ensures
            final(self).wf(),
            final(self).status() == old(self).status(),
            final(self).tracks() == old(self).tracks(),
            final(self).track_ids_left() == old(self).track_ids_left(),
            match frame {
                InboundFrame::Ping(p) => r == FrameAction::Pong(p) && final(self).subscribers()
                    == old(self).subscribers(),
                InboundFrame::Text(t) => final(self).subscribers() == old(self).subscribers() && if t@
                    == PING_TEXT@ {
                    r matches FrameAction::Pong(p) && p@.len() == 0
                } else {
                    r == FrameAction::Ignore
                },
                InboundFrame::Pong => r == FrameAction::Ignore && final(self).subscribers()
                    == with_pong(old(self).subscribers(), id, now),
                InboundFrame::Close => r == FrameAction::Close && final(self).subscribers()
                    == old(self).subscribers().filter(other_than(id)),
                InboundFrame::Other => r == FrameAction::Stop && final(self).subscribers()
                    == old(self).subscribers().filter(other_than(id)),
            },
    {
        self.subscribers.on_frame(id, frame, now)
    }

    /// The heartbeat at `now`: drops the subscribers that have not answered
    /// for longer than the timeout and lists those to ping.
    pub fn heartbeat(&mut self, now: u64) -> (r: HeartbeatOutcome)
        requires
            old(self).wf(),
        ensures
            final(self).wf(),
            final(self).status() == old(self).status(),
            final(self).tracks() == old(self).tracks(),
            final(self).track_ids_left() == old(self).track_ids_left(),
            final(self).subscribers() == old(self).subscribers().filter(alive_at(now)),
            r.dropped@ == ids_of(old(self).subscribers().filter(silent_at(now))),
            r.pinged@ == ids_of(final(self).subscribers()),
    {
        self.subscribers.heartbeat(now)
    }

    /// The live subscribers, in order of arrival.
    pub fn subscriber_list(&self) -> (r: Vec<Subscriber>)
        ensures
            r@ == self.subscribers(),
    {
        self.subscribers.subscribers()
    }
}

} // verus!
