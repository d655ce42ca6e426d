//! A small read-only menu server library: it classifies filesystem entries,
//! renders directory listings as tab-separated menu lines, resolves
//! client-supplied selectors safely below a fixed root, and assembles the
//! framed response that one connection receives.
pub mod error;
pub mod resolve;
pub mod server;
pub mod text;
