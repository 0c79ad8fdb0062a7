//! The registry of live real-time subscribers: who is connected, when each
//! last answered a ping, and which frame each receives on a lock change.
use vstd::prelude::*;

use crate::lock::messages::LockStatus;

verus! {

/// Milliseconds between two pings sent to each subscriber.
pub const HEARTBEAT_INTERVAL_MS: u64 = 5000;

/// Milliseconds without a pong after which a subscriber is dropped.
pub const CLIENT_TIMEOUT_MS: u64 = 10000;

/// Frame sent to subscribers when the lock is taken.
pub const LOCKED_FRAME: &'static str = "{\"isLocked\": true}";

/// Frame sent to subscribers when the lock is released.
pub const UNLOCKED_FRAME: &'static str = "{\"isLocked\": false}";

/// Text frame that a subscriber may send in place of a protocol ping.
pub const PING_TEXT: &'static str = "{\"type\":\"PING\"}";

/// The frame that tells subscribers whether the lock is held.
pub open spec fn lock_frame_text(is_locked: bool) -> Seq<char> {
    if is_locked {
        LOCKED_FRAME@
    } else {
        UNLOCKED_FRAME@
    }
}

/// The frame that tells subscribers whether the lock is held.
pub fn lock_frame(is_locked: bool) -> (r: String)
    ensures
        r@ == lock_frame_text(is_locked),
{
    if is_locked {
        String::from_str(LOCKED_FRAME)
    } else {
        String::from_str(UNLOCKED_FRAME)
    }
}

/// One live connection: its identity and when it last answered a ping, in
/// milliseconds of a monotonic clock.
#[derive(Clone, Copy, Debug, PartialEq, Eq, Structural)]
pub struct Subscriber {
    pub id: u64,
    pub heartbeat_ts: u64,
}

/// Milliseconds from `ts` to `now`; zero when `now` comes first.
pub open spec fn elapsed(now: u64, ts: u64) -> int {
    if now >= ts {
        now - ts
    } else {
        0
    }
}

/// A subscriber that has not answered for longer than the timeout.
pub open spec fn timed_out(s: Subscriber, now: u64) -> bool {
    elapsed(now, s.heartbeat_ts) > CLIENT_TIMEOUT_MS
}

/// Subscribers that are still alive at `now`.
pub open spec fn alive_at(now: u64) -> spec_fn(Subscriber) -> bool {
    |s: Subscriber| !timed_out(s, now)
}

/// Subscribers that have timed out at `now`.
pub open spec fn silent_at(now: u64) -> spec_fn(Subscriber) -> bool {
    |s: Subscriber| timed_out(s, now)
}

/// Subscribers other than the one with identity `id`.
pub open spec fn other_than(id: u64) -> spec_fn(Subscriber) -> bool {
    |s: Subscriber| s.id != id
}

/// The identities of `subs`, in order.
pub open spec fn ids_of(subs: Seq<Subscriber>) -> Seq<u64> {
    subs.map_values(|s: Subscriber| s.id)
}

/// `subs` with the subscriber `id` marked as having answered at `now`.
pub open spec fn with_pong(subs: Seq<Subscriber>, id: u64, now: u64) -> Seq<Subscriber> {
    subs.map_values(
        |s: Subscriber|
            if s.id == id {
                Subscriber { id: s.id, heartbeat_ts: now }
            } else {
                s
            },
    )
}

/// Identities strictly increase along `subs` and stay below `bound`.
pub open spec fn ordered_below(subs: Seq<Subscriber>, bound: u64) -> bool {
    &&& forall|i: int, j: int| 0 <= i < j < subs.len() ==> subs[i].id < subs[j].id
    &&& forall|i: int| 0 <= i < subs.len() ==> subs[i].id < bound
}

/// Filtering one more element of `s` adds it when it passes `p`.
proof fn lemma_filter_step(s: Seq<Subscriber>, p: spec_fn(Subscriber) -> bool, i: int)
    requires
        0 <= i < s.len(),
    ensures
        s.take(i + 1).filter(p) == if p(s[i]) {
            s.take(i).filter(p).push(s[i])
        } else {
            s.take(i).filter(p)
        },
{
    reveal(Seq::filter);
    assert(s.take(i + 1).drop_last() =~= s.take(i));
}

/// After a heartbeat at `now`, a subscriber that has not answered for longer
/// than the timeout is gone; every other subscriber stays registered, and
/// the next lock change, sent as `d` to those that stayed, still reaches it.
pub proof fn lemma_heartbeat_drops_only_silent(
    subs: Seq<Subscriber>,
    now: u64,
    d: Seq<Delivery>,
    is_locked: bool,
)
    requires
        delivers_to(d, subs.filter(alive_at(now)), is_locked),
    ensures
        forall|s: Subscriber|
            subs.contains(s) && timed_out(s, now) ==> !(#[trigger] subs.filter(
                alive_at(now),
            ).contains(s)),
        forall|s: Subscriber|
            subs.contains(s) && !timed_out(s, now) ==> #[trigger] subs.filter(
                alive_at(now),
            ).contains(s),
        forall|s: Subscriber|
            #![trigger subs.contains(s)]
            subs.contains(s) && !timed_out(s, now) ==> exists|i: int|
                0 <= i < d.len() && d[i].subscriber == s.id && d[i].frame@ == lock_frame_text(
                    is_locked,
                ),
{
    let kept = subs.filter(alive_at(now));
    assert forall|s: Subscriber|
        subs.contains(s) && timed_out(s, now) implies !(#[trigger] kept.contains(s)) by {
        if kept.contains(s) {
            let k = choose|k: int| 0 <= k < kept.len() && kept[k] == s;
            subs.lemma_filter_pred(alive_at(now), k);
        }
    }
    assert forall|s: Subscriber|
        subs.contains(s) && !timed_out(s, now) implies #[trigger] kept.contains(s) by {
        let k = choose|k: int| 0 <= k < subs.len() && subs[k] == s;
        subs.lemma_filter_contains(alive_at(now), k);
    }
    assert forall|s: Subscriber|
        #![trigger subs.contains(s)]
        subs.contains(s) && !timed_out(s, now) implies exists|i: int|
            0 <= i < d.len() && d[i].subscriber == s.id && d[i].frame@ == lock_frame_text(
                is_locked,
            ) by {
        let k = choose|k: int| 0 <= k < subs.len() && subs[k] == s;
        subs.lemma_filter_contains(alive_at(now), k);
        let j = choose|j: int| 0 <= j < kept.len() && kept[j] == s;
        assert(d[j].subscriber == kept[j].id);
    }
}

/// One frame to send to one subscriber.
#[derive(Clone, Debug, PartialEq, Eq)]
pub struct Delivery {
    pub subscriber: u64,
    pub frame: String,
}

/// `d` sends `subs`' subscribers, in order, one frame each that tells
/// whether the lock is held.
pub open spec fn delivers_to(d: Seq<Delivery>, subs: Seq<Subscriber>, is_locked: bool) -> bool {
    &&& d.len() == subs.len()
    &&& forall|i: int|
        #![trigger d[i]]
        0 <= i < d.len() ==> d[i].subscriber == subs[i].id && d[i].frame@ == lock_frame_text(
            is_locked,
        )
}

/// What the heartbeat did: the subscribers dropped for silence, and those
/// to ping now.
#[derive(Clone, Debug, PartialEq, Eq)]
pub struct HeartbeatOutcome {
    pub dropped: Vec<u64>,
    pub pinged: Vec<u64>,
}

/// A frame received from a subscriber.
#[derive(Clone, Debug, PartialEq, Eq)]
pub enum InboundFrame {
    Ping(Vec<u8>),
    Pong,
    Text(String),
    Close,
    Other,
}

/// What to do on the connection after a frame was received.
#[derive(Clone, Debug, PartialEq, Eq)]
pub enum FrameAction {
    /// Answer with a protocol pong that carries these bytes.
    Pong(Vec<u8>),
    /// Nothing to send.
    Ignore,
    /// Close the connection as the subscriber asked; it has left the registry.
    Close,
    /// Stop the connection; it has left the registry.
    Stop,
}

/// The set of live subscribers, held in order of arrival.
pub struct SubscriberBroadcast {
    subscribers: Vec<Subscriber>,
    next_id: u64,
}

impl View for SubscriberBroadcast {
    type V = Seq<Subscriber>;

    closed spec fn view(&self) -> Seq<Subscriber> {
        self.subscribers@
    }
}

impl SubscriberBroadcast {
    /// Identities strictly increase in order of arrival, and every one of
    /// them is below the next identity to hand out.
    pub closed spec fn wf(&self) -> bool {
        ordered_below(self.subscribers@, self.next_id)
    }

    /// The identity the next subscriber will get.
    pub closed spec fn next_id(&self) -> u64 {
        self.next_id
    }

    /// A registry with nobody in it.
    pub fn new() -> (r: SubscriberBroadcast)
        ensures
            r@ == Seq::<Subscriber>::empty(),
            r.wf(),
            r.next_id() == 0,
    {
        SubscriberBroadcast { subscribers: Vec::new(), next_id: 0 }
    }

    /// The number of live subscribers.
    pub fn len(&self) -> (r: usize)
        ensures
            r == self@.len(),
    {
        self.subscribers.len()
    }

    /// Registers a new subscriber that answered at `now`, and returns the
    /// frame that tells it at once whether the lock in `status` is held.
    /// Gives `None`, and registers nobody, only once every identity has
    /// been handed out.
    pub fn connect(&mut self, now: u64, status: &LockStatus) -> (r: Option<Delivery>)
        requires
            old(self).wf(),
        ensures
            final(self).wf(),
            r is None <==> old(self).next_id() == u64::MAX,
            r is None ==> final(self)@ == old(self)@,
            r matches Some(d) ==> {
                &&& !ids_of(old(self)@).contains(d.subscriber)
                &&& final(self)@ == old(self)@.push(
                    Subscriber { id: d.subscriber, heartbeat_ts: now },
                )
                &&& d.frame@ == lock_frame_text(status.is_locked)
            },
    {
        if self.next_id == u64::MAX {
            return None;
        }
        let id = self.next_id;
        proof {
            if ids_of(self.subscribers@).contains(id) {
                let k = choose|k: int|
                    0 <= k < ids_of(self.subscribers@).len() && ids_of(self.subscribers@)[k] == id;
                assert(self.subscribers@[k].id < self.next_id);
            }
        }
        let ghost before = self.subscribers@;
        self.next_id = id + 1;
        self.subscribers.push(Subscriber { id, heartbeat_ts: now });
        assert(self.subscribers@ == before.push(Subscriber { id, heartbeat_ts: now }));
        Some(Delivery { subscriber: id, frame: lock_frame(status.is_locked) })
    }

    /// One frame for each live subscriber, in order, telling whether the
    /// lock is held.
    pub fn fan_out(&self, is_locked: bool) -> (r: Vec<Delivery>)
        ensures
            delivers_to(r@, self@, is_locked),
    {
        let mut out: Vec<Delivery> = Vec::new();
        let mut i: usize = 0;
        while i < self.subscribers.len()
            invariant
                i <= self.subscribers@.len(),
                delivers_to(out@, self.subscribers@.take(i as int), is_locked),
            decreases self.subscribers@.len() - i,
        {
            out.push(Delivery { subscriber: self.subscribers[i].id, frame: lock_frame(is_locked) });
            i = i + 1;
        }
        assert(self.subscribers@.take(i as int) =~= self.subscribers@);
        out
    }

    /// Marks the subscriber `id` as having answered a ping at `now`. Returns
    /// whether it was registered; the others are left as they were.
    pub fn record_pong(&mut self, id: u64, now: u64) -> (r: bool)
        requires
            old(self).wf(),
        ensures
            final(self).wf(),
            final(self).next_id() == old(self).next_id(),
            final(self)@ == with_pong(old(self)@, id, now),
            r == ids_of(old(self)@).contains(id),
    {
        let ghost before = self.subscribers@;
        let mut found = false;
        let mut i: usize = 0;
        while i < self.subscribers.len()
            invariant
                i <= self.subscribers@.len(),
                self.subscribers@.len() == before.len(),
                self.next_id == old(self).next_id,
                before == old(self).subscribers@,
                forall|k: int|
                    0 <= k < before.len() ==> #[trigger] self.subscribers@[k] == (if k < i
                        && before[k].id == id {
                        Subscriber { id, heartbeat_ts: now }
                    } else {
                        before[k]
                    }),
                found <==> exists|k: int| 0 <= k < i && before[k].id == id,
            decreases before.len() - i,
        {
            if self.subscribers[i].id == id {
                self.subscribers.set(i, Subscriber { id, heartbeat_ts: now });
                found = true;
            }
            i = i + 1;
        }
        assert(self.subscribers@ =~= with_pong(before, id, now));
        proof {
            if found {
                let k = choose|k: int| 0 <= k < i && before[k].id == id;
                assert(ids_of(before)[k] == id);
            }
            if ids_of(before).contains(id) {
                let k = choose|k: int| 0 <= k < ids_of(before).len() && ids_of(before)[k] == id;
                assert(before[k].id == id);
            }
        }
        found
    }

    /// Removes the subscriber `id`, if it is registered, and says whether it
    /// was.
    pub fn disconnect(&mut self, id: u64) -> (r: bool)
        requires
            old(self).wf(),
        ensures
            final(self).wf(),
            final(self).next_id() == old(self).next_id(),
            final(self)@ == old(self)@.filter(other_than(id)),
            r == ids_of(old(self)@).contains(id),
    {
        let ghost before = self.subscribers@;
        let mut kept: Vec<Subscriber> = Vec::new();
        let mut found = false;
        let mut i: usize = 0;
        while i < self.subscribers.len()
            invariant
                i <= before.len(),
                before == self.subscribers@,
                ordered_below(before, self.next_id),
                kept@ == before.take(i as int).filter(other_than(id)),
                ordered_below(kept@, self.next_id),
                forall|k: int| 0 <= k < kept@.len() && i < before.len() ==> kept@[k].id < before[i as int].id,
                found <==> exists|k: int| 0 <= k < i && before[k].id == id,
            decreases before.len() - i,
        {
            proof {
                lemma_filter_step(before, other_than(id), i as int);
            }
            let s = self.subscribers[i];
            if s.id != id {
                kept.push(s);
            } else {
                found = true;
            }
            i = i + 1;
        }
        assert(before.take(i as int) =~= before);
        proof {
            if found {
                let k = choose|k: int| 0 <= k < i && before[k].id == id;
                assert(ids_of(before)[k] == id);
            }
            if ids_of(before).contains(id) {
                let k = choose|k: int| 0 <= k < ids_of(before).len() && ids_of(before)[k] == id;
                assert(before[k].id == id);
            }
        }
        self.subscribers = kept;
        found
    }

    /// The heartbeat at `now`: drops every subscriber that has not answered
    /// for longer than the timeout and lists the others, which are to be
    /// pinged. The subscribers that stay are untouched and keep their order.
    pub fn heartbeat(&mut self, now: u64) -> (r: HeartbeatOutcome)
        requires
            old(self).wf(),
        ensures
            final(self).wf(),
            final(self).next_id() == old(self).next_id(),
            final(self)@ == old(self)@.filter(alive_at(now)),
            r.dropped@ == ids_of(old(self)@.filter(silent_at(now))),
            r.pinged@ == ids_of(final(self)@),
    {
        let ghost before = self.subscribers@;
        let mut kept: Vec<Subscriber> = Vec::new();
        let mut pinged: Vec<u64> = Vec::new();
        let mut dropped: Vec<u64> = Vec::new();
        let mut i: usize = 0;
        while i < self.subscribers.len()
            invariant
                i <= before.len(),
                before == self.subscribers@,
                ordered_below(before, self.next_id),
                kept@ == before.take(i as int).filter(alive_at(now)),
                pinged@ == ids_of(kept@),
                dropped@ == ids_of(before.take(i as int).filter(silent_at(now))),
                ordered_below(kept@, self.next_id),
                forall|k: int| 0 <= k < kept@.len() && i < before.len() ==> kept@[k].id < before[i as int].id,
            decreases before.len() - i,
        {
            proof {
                lemma_filter_step(before, alive_at(now), i as int);
                lemma_filter_step(before, silent_at(now), i as int);
            }
            let s = self.subscribers[i];
            let quiet: u64 = if now >= s.heartbeat_ts {
                now - s.heartbeat_ts
            } else {
                0
            };
            if quiet > CLIENT_TIMEOUT_MS {
                dropped.push(s.id);
            } else {
                kept.push(s);
                pinged.push(s.id);
            }
            assert(ids_of(kept@) =~= ids_of(before.take(i + 1).filter(alive_at(now))));
            assert(dropped@ =~= ids_of(before.take(i + 1).filter(silent_at(now))));
            i = i + 1;
        }
        assert(before.take(i as int) =~= before);
        self.subscribers = kept;
        HeartbeatOutcome { dropped, pinged }
    }

    /// Handles a frame that subscriber `id` sent at `now`. A protocol ping is
    /// answered with a pong that carries the same bytes, and the text ping
    /// with an empty pong; a pong marks the subscriber as alive; other text
    /// is ignored. A close request, or any other frame, ends the connection
    /// and removes the subscriber.
    pub fn on_frame(&mut self, id: u64, frame: InboundFrame, now: u64) -> (r: FrameAction)
        requires
            old(self).wf(),
        ensures
            final(self).wf(),
            final(self).next_id() == old(self).next_id(),
            match frame {
                InboundFrame::Ping(p) => r == FrameAction::Pong(p) && final(self)@ == old(self)@,
                InboundFrame::Text(t) => final(self)@ == old(self)@ && if t@ == PING_TEXT@ {
                    r matches FrameAction::Pong(p) && p@.len() == 0
                } else {
                    r == FrameAction::Ignore
                },
                InboundFrame::Pong => r == FrameAction::Ignore && final(self)@ == with_pong(
                    old(self)@,
                    id,
                    now,
                ),
                InboundFrame::Close => r == FrameAction::Close && final(self)@ == old(self)@.filter(
                    other_than(id),
                ),
                InboundFrame::Other => r == FrameAction::Stop && final(self)@ == old(self)@.filter(
                    other_than(id),
                ),
            },
    {
        match frame {
            InboundFrame::Ping(p) => FrameAction::Pong(p),
            InboundFrame::Text(t) => {
                let ping = String::from_str(PING_TEXT);
                if t == ping {
                    FrameAction::Pong(Vec::new())
                } else {
                    FrameAction::Ignore
                }
            },
            InboundFrame::Pong => {
                self.record_pong(id, now);
                FrameAction::Ignore
            },
            InboundFrame::Close => {
                self.disconnect(id);
                FrameAction::Close
            },
            InboundFrame::Other => {
                self.disconnect(id);
                FrameAction::Stop
            },
        }
    }

    /// The live subscribers, in order of arrival.
    pub fn subscribers(&self) -> (r: Vec<Subscriber>)
        ensures
            r@ == self@,
    {
        self.subscribers.clone()
    }
}

} // verus!
