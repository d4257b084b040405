//! Lifecycle coordination for tickets that each own a channel at an external
//! messaging service: the channel is created before the ticket is stored and
//! removed before the ticket is deleted, with compensation on partial failure.

pub mod error;
pub mod gateway;
pub mod guard;
pub mod laws;
pub mod saga;
pub mod ticket;
