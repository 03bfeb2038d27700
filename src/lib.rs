//! Client-side logic for a video device's session API: challenge-response
//! password derivation, the session state machine, and a history of the
//! users seen online.

mod digest;

pub mod credential;
pub mod online_user;
pub mod history;
pub mod session;
pub mod endpoint;
pub mod table;
pub mod monitor;
pub mod config;
