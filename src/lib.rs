//! Playback coordination core of a soundboard: the lock state machine that
//! says whether the shared voice output is claimed, the coordinator that
//! starts tracks and releases the lock when they end, and the registry of
//! real-time subscribers that receive every lock change.
pub mod broadcast;
pub mod coordinator;
pub mod lock;
pub mod models;
pub mod playback;
