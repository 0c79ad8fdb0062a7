use vstd::prelude::*;

use crate::lock::messages::{
    GetLockStatus, GetLockStatusResponse, Lock, LockMessage, LockMessageView, LockReply,
    LockReplyView, LockStatus, LockStatusView, Unlock, WsLockSound, WsUnlockSound,
};

verus! {

/// The status that follows `msg` from `s`. A lock from any status replaces
/// the holder (the last request wins); an unlock from any status leaves
/// nothing locked; a status request changes nothing.
pub open spec fn next_status(s: LockStatusView, msg: LockMessageView) -> LockStatusView {
    match msg {
        LockMessageView::Lock(sound) => LockStatusView::locked_by(sound),
        LockMessageView::Unlock => LockStatusView::unlocked(),
        LockMessageView::GetStatus => s,
    }
}

/// The reply to `msg` from `s`: one published change for a lock or an
/// unlock, the current status for a status request.
pub open spec fn reply_to(s: LockStatusView, msg: LockMessageView) -> LockReplyView {
    match msg {
        LockMessageView::Lock(_) => LockReplyView::Locked,
        LockMessageView::Unlock => LockReplyView::Unlocked,
        LockMessageView::GetStatus => LockReplyView::Status(s),
    }
}

/// The status after handling each message of `msgs` in turn from `s`.
pub open spec fn run_messages(s: LockStatusView, msgs: Seq<LockMessageView>) -> LockStatusView
    decreases msgs.len(),
{
    if msgs.len() == 0 {
        s
    } else {
        next_status(run_messages(s, msgs.drop_last()), msgs.last())
    }
}

/// The single owner of the lock status. Messages are handled one at a
/// time, so no two changes interleave. Concurrent locks follow the
/// overwrite policy: a lock while locked replaces the holder.
#[derive(Debug)]
pub struct SoundLockActor {
    status: LockStatus,
}

impl View for SoundLockActor {
    type V = LockStatusView;

    closed spec fn view(&self) -> LockStatusView {
        self.status@
    }
}

impl SoundLockActor {
    /// The held status is always well formed.
    #[verifier::type_invariant]
    spec fn status_well_formed(&self) -> bool {
        self.status@.wf()
    }

    /// An actor that starts unlocked.
    pub fn new() -> (r: SoundLockActor)
        ensures
            r@ == LockStatusView::unlocked(),
            r@.wf(),
    {
        SoundLockActor { status: LockStatus::new() }
    }

    /// Takes the lock for `msg.sound`, replacing any holder, and returns the
    /// change to publish.
    pub fn handle_lock(&mut self, msg: Lock) -> (r: WsLockSound)
        ensures
            final(self)@ == LockStatusView::locked_by(msg.sound@),
            final(self)@.wf(),
    {
        self.status = LockStatus { is_locked: true, sound: Some(msg.sound) };
        WsLockSound {}
    }

    /// Releases the lock, whatever held it, and returns the change to
    /// publish. Releasing an unlocked status is allowed and still publishes.
    pub fn handle_unlock(&mut self, msg: Unlock) -> (r: WsUnlockSound)
        ensures
            final(self)@ == LockStatusView::unlocked(),
            final(self)@.wf(),
    {
        self.status = LockStatus::new();
        WsUnlockSound {}
    }

    /// A snapshot of the current status; never changes it and never fails.
    pub fn handle_get_status(&self, msg: GetLockStatus) -> (r: Option<LockStatus>)
        ensures
            r is Some,
            r.unwrap()@ == self@,
            r.unwrap()@.wf(),
    {
        proof {
            use_type_invariant(self);
        }
        Some(self.status.duplicate())
    }

    /// Handles one message of any kind.
    pub fn handle(&mut self, msg: LockMessage) -> (r: LockReply)
        ensures
            final(self)@ == next_status(old(self)@, msg@),
            r@ == reply_to(old(self)@, msg@),
            final(self)@.wf(),
    {
        match msg {
            LockMessage::Lock(l) => LockReply::Locked(self.handle_lock(l)),
            LockMessage::Unlock(u) => LockReply::Unlocked(self.handle_unlock(u)),
            LockMessage::GetStatus(_) => {
                proof {
                    use_type_invariant(&*self);
                }
                let status = self.status.duplicate();
                LockReply::Status(GetLockStatusResponse { status })
            },
        }
    }
}

/// After any sequence of locks, unlocks and status requests from a well
/// formed status, the status after each message is well formed: locked
/// exactly when a sound holds it.
pub proof fn lemma_every_status_well_formed(s: LockStatusView, msgs: Seq<LockMessageView>)
    requires
        s.wf(),
    ensures
        forall|i: int| 0 <= i <= msgs.len() ==> #[trigger] run_messages(s, msgs.take(i)).wf(),
    decreases msgs.len(),
{
    if msgs.len() > 0 {
        lemma_every_status_well_formed(s, msgs.drop_last());
        let prefix = msgs.drop_last();
        assert(prefix.take(prefix.len() as int) =~= prefix);
        assert(run_messages(s, prefix).wf());
        assert forall|i: int| 0 <= i <= msgs.len() implies #[trigger] run_messages(
            s,
            msgs.take(i),
        ).wf() by {
            if i < msgs.len() {
                assert(msgs.take(i) =~= msgs.drop_last().take(i));
            } else {
                assert(msgs.take(i) =~= msgs);
            }
        }
    } else {
        assert forall|i: int| 0 <= i <= msgs.len() implies #[trigger] run_messages(
            s,
            msgs.take(i),
        ).wf() by {
            assert(msgs.take(i).len() == 0);
        }
    }
}

/// Unlocking twice in a row gives the same unlocked status both times, and
/// the second unlock still publishes an unlock change.
pub proof fn lemma_unlock_idempotent(s: LockStatusView)
    ensures
        next_status(s, LockMessageView::Unlock) == LockStatusView::unlocked(),
        next_status(next_status(s, LockMessageView::Unlock), LockMessageView::Unlock)
            == next_status(s, LockMessageView::Unlock),
        reply_to(s, LockMessageView::Unlock) == LockReplyView::Unlocked,
        reply_to(next_status(s, LockMessageView::Unlock), LockMessageView::Unlock)
            == LockReplyView::Unlocked,
{
}

/// `n` status requests in a row.
pub open spec fn status_requests(n: nat) -> Seq<LockMessageView> {
    Seq::new(n, |i: int| LockMessageView::GetStatus)
}

/// `n` status requests in a row leave the status as it was, and each of
/// them answers with the same snapshot.
pub proof fn lemma_get_status_never_mutates(s: LockStatusView, n: nat)
    ensures
        run_messages(s, status_requests(n)) == s,
        forall|i: int|
            0 <= i < n ==> reply_to(
                #[trigger] run_messages(s, status_requests(n).take(i)),
                LockMessageView::GetStatus,
            ) == LockReplyView::Status(s),
    decreases n,
{
    let msgs = status_requests(n);
    if n > 0 {
        let shorter = status_requests((n - 1) as nat);
        lemma_get_status_never_mutates(s, (n - 1) as nat);
        assert(msgs.drop_last() =~= shorter);
        assert forall|i: int| 0 <= i < n implies reply_to(
            #[trigger] run_messages(s, msgs.take(i)),
            LockMessageView::GetStatus,
        ) == LockReplyView::Status(s) by {
            if i < n - 1 {
                assert(msgs.take(i) =~= shorter.take(i));
            } else {
                assert(msgs.take(i) =~= shorter);
            }
        }
    }
}

} // verus!
