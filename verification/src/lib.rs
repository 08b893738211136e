//! Drivers and configuration model for the brewery control system.
pub mod controllers;
pub mod seqs;
pub mod state;
pub mod str1;
pub mod text;
pub mod error;
pub mod model;
pub mod omega;
pub mod relays;
