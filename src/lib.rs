//! A turn-based combat engine: characters with stats, alignments and status effects trade
//! actions until one side runs out of health; the winner gains experience and levels up.

pub mod action;
pub mod battle;
pub mod common;
pub mod dice;
pub mod kaizo;
pub mod log;
pub mod onion;
pub mod text;
pub mod world;
