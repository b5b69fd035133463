//! Match sessions: a short public label, a roster of free players and two
//! team rosters, kept in four relational tables and read back as one view.
pub mod game_state;
pub mod errors;
pub mod label;
pub mod db;
pub mod matches;
pub mod players;
pub mod teams;
pub mod match_resource;
pub mod laws;
pub mod pages;
