//! An authority-gated oracle that records league-winner announcements.
//!
//! The one canonical record lives at an address derived from a fixed seed and
//! the program id. It is created once, read by anyone, and changed only by the
//! authority that created it; every change also yields an announcement event.

pub mod identity;
pub mod address;
pub mod oracle;
pub mod laws;
