//! A board for translating one sentence together: candidate translations
//! gather votes, the shown language can be switched, and a user's own text
//! can be promoted into a candidate. The state machine and the projection of
//! its state onto what is shown are verified; rendering is left to the caller.

pub mod sentence;
pub mod board;
pub mod view;
pub mod laws;
