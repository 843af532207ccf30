//! Core logic of a reminder service for inactive messaging contacts:
//! inactivity-rule selection, credential/token lifecycle decisions,
//! dispatch planning for the three reminder transports, and the paging
//! state machine of the polling daemon.

pub mod client;
pub mod config;
pub mod cycle;
pub mod dispatch;
pub mod models;
pub mod rules;
pub mod text;
pub mod token;
