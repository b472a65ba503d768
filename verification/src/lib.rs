//! Supervision core for a fleet of game-server presence bots.
//!
//! Each configured game server gets one long-lived gateway session whose
//! displayed status tracks the server's live player count.  The modules here
//! hold the decision logic of that system — which workers to start, how a
//! worker reacts to session failures and cancellation, and how the activity
//! watchdog turns stage observations and probe results into pushes, sleeps
//! and session restarts.  The surrounding process (network clients, timers,
//! signal handling) drives these decisions from the outside.

pub mod config;
pub mod stage;
pub mod status;
pub mod supervisor;
pub mod watchdog;
pub mod worker;
