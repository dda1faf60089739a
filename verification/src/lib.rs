//! A fixed-size rectangular board that records where each kilobot stands and
//! which way it faces, with at most one bot per cell.

pub mod board;
pub mod grid;
pub mod kilobot;
pub mod lemmas;
pub mod text;
