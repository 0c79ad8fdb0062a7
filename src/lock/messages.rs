use vstd::prelude::*;

use crate::models::{Sound, SoundView};

verus! {

/// Whether playback is busy, and with which sound.
///
/// The fields are open to callers; the status that the lock actor holds is
/// always well formed (its view's `wf`): locked exactly when it holds a sound.
#[derive(Clone, Debug)]
pub struct LockStatus {
    pub is_locked: bool,
    pub sound: Option<Sound>,
}

/// The model of a status: the flag and the text of the holding sound.
pub ghost struct LockStatusView {
    pub is_locked: bool,
    pub sound: Option<SoundView>,
}

impl LockStatusView {
    /// Locked exactly when a sound holds the lock.
    pub open spec fn wf(self) -> bool {
        self.is_locked == self.sound.is_some()
    }

    /// The status that holds no sound.
    pub open spec fn unlocked() -> LockStatusView {
        LockStatusView { is_locked: false, sound: None }
    }

    /// The status held by `sound`.
    pub open spec fn locked_by(sound: SoundView) -> LockStatusView {
        LockStatusView { is_locked: true, sound: Some(sound) }
    }
}

impl View for LockStatus {
    type V = LockStatusView;

    open spec fn view(&self) -> LockStatusView {
        LockStatusView {
            is_locked: self.is_locked,
            sound: match self.sound {
                Some(s) => Some(s@),
                None => None,
            },
        }
    }
}

impl LockStatus {
    /// The unlocked status, which every process starts from.
    pub fn new() -> (r: LockStatus)
        ensures
            r@ == LockStatusView::unlocked(),
    {
        LockStatus { is_locked: false, sound: None }
    }

    /// A copy with the same flag and the same text in the sound.
    pub fn duplicate(&self) -> (r: LockStatus)
        ensures
            r@ == self@,
    {
        let sound = match &self.sound {
            Some(s) => Some(s.duplicate()),
            None => None,
        };
        LockStatus { is_locked: self.is_locked, sound }
    }
}

/// Event published after the lock has been taken.
#[derive(Clone, Copy, Debug, PartialEq, Eq)]
pub struct WsLockSound {}

/// Event published after the lock has been released.
#[derive(Clone, Copy, Debug, PartialEq, Eq)]
pub struct WsUnlockSound {}

/// Request to take the lock for `sound`; it replaces any sound that holds it.
#[derive(Clone, Debug)]
pub struct Lock {
    pub sound: Sound,
}

/// Request to release the lock; harmless when nothing holds it.
#[derive(Clone, Copy, Debug, PartialEq, Eq)]
pub struct Unlock;

/// Request for a snapshot of the current status.
#[derive(Clone, Copy, Debug, PartialEq, Eq)]
pub struct GetLockStatus;

/// A snapshot of the status, as handed back to whoever asked.
#[derive(Clone, Debug)]
pub struct GetLockStatusResponse {
    pub status: LockStatus,
}

/// Every message the lock coordinator accepts.
#[derive(Clone, Debug)]
pub enum LockMessage {
    Lock(Lock),
    Unlock(Unlock),
    GetStatus(GetLockStatus),
}

/// What the lock coordinator answers to each message: the change it
/// publishes, or the snapshot asked for.
#[derive(Clone, Debug)]
pub enum LockReply {
    Locked(WsLockSound),
    Unlocked(WsUnlockSound),
    Status(GetLockStatusResponse),
}

/// The model of a reply: the change published, or the snapshot's model.
pub ghost enum LockReplyView {
    Locked,
    Unlocked,
    Status(LockStatusView),
}

impl View for LockReply {
    type V = LockReplyView;

    open spec fn view(&self) -> LockReplyView {
        match self {
            LockReply::Locked(_) => LockReplyView::Locked,
            LockReply::Unlocked(_) => LockReplyView::Unlocked,
            LockReply::Status(g) => LockReplyView::Status(g.status@),
        }
    }
}

/// The model of a message: what it asks of the lock.
pub ghost enum LockMessageView {
    Lock(SoundView),
    Unlock,
    GetStatus,
}

impl View for LockMessage {
    type V = LockMessageView;

    open spec fn view(&self) -> LockMessageView {
        match self {
            LockMessage::Lock(l) => LockMessageView::Lock(l.sound@),
            LockMessage::Unlock(_) => LockMessageView::Unlock,
            LockMessage::GetStatus(_) => LockMessageView::GetStatus,
        }
    }
}

} // verus!
