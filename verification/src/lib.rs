//! Core of a Japanese vocabulary quiz: a leveled dictionary of entries,
//! filtered random sampling, multiple-choice question building with
//! kana-scramble distractors, per-round interaction state, and a session
//! manager that keeps at most one live quiz per key and routes interaction
//! events to it.

pub mod dictionary;
pub mod ids;
pub mod jlpt;
pub mod lexicon;
pub mod manager;
pub mod pos_filter;
pub mod question;
pub mod rng;
pub mod round;
pub mod scramble;
pub mod session;
