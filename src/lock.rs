//! The lock: whether the single voice output is claimed, and by which sound.
pub mod lock_actor;
pub mod messages;
