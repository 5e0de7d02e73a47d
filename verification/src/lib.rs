//! Frame-gated behavior scripts for a fighting-game engine.
//!
//! A script author writes a flat sequence of "at frame N, do X" statements.
//! The host replays that sequence from the top on every simulation tick, so a
//! naive `elapsed >= N` comparison would re-fire every action on every later
//! tick. The timeline cursor ([`cursor`]) edge-triggers each declared frame
//! gate so that every action fires exactly once, on the first tick whose
//! elapsed-frame count reaches its threshold, and the executor ([`timeline`])
//! replays a whole action list under that guarantee. A status transition
//! table ([`status`]) dispatches per-status lifecycle handlers which may
//! redirect to another status's main loop, and entity persistent state
//! ([`entity`]) carries small named counters and flags across ticks.

pub mod action;
pub mod cursor;
pub mod entity;
pub mod ground;
pub mod opff;
pub mod status;
pub mod timeline;
