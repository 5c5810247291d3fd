//! A one-route greeting service: how many workers to start, and what to answer.

pub mod bootstrap;
pub mod decimal;
pub mod responder;
pub mod workers;
