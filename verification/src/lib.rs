//! Interactive audio auditioning core: the key-event state machine, the four
//! bookmark slots, the round-robin playback-channel allocator, and the status
//! line construction. All terminal, filesystem and audio-device work lives
//! outside this crate; the library decides, for every key event, what plays
//! next and what the status display shows.

pub mod digits;
pub mod keys;
pub mod laws;
pub mod session;
pub mod slots;
pub mod status;

pub use digits::make_idx;
pub use session::postincrement;
