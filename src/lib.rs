//! A two-player chess session: creation, move submission through a single
//! authority, and the status that follows from each accepted move.
pub mod identity;
pub mod oracle;
pub mod game;
pub mod laws;
