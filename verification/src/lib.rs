//! A budget-constrained English-auction draft. Captains nominate and bid
//! on players round by round under a reserve-aware budget rule, an
//! anti-snipe countdown, and settlement that conserves funds; the rules
//! are stated as contracts on the state machine and proved.

pub mod auction;
pub mod commands;
pub mod config;
pub mod draft;
pub mod registry;
pub mod search;
pub mod shuffle;
pub mod summary;
pub mod text;
