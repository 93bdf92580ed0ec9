//! Decision logic of a few Pumpkin server behaviours, with their contracts:
//! leaf decay (`leaves`), frog variants and interaction (`frog`), and the
//! bookkeeping of the terminal-state snapshot (`terminal`).
//!
//! The world, entity and terminal I/O stay with the caller: each function here
//! takes the values that were read and returns what should be done.

pub mod frog;
pub mod leaves;
pub mod terminal;
