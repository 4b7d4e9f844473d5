//! A transparent TCP router's core: connections are routed by the local
//! address they arrived on, dialed to the route's target with a bounded
//! timeout, and relayed both ways byte for byte.
//!
//! `routes` holds the route table, `session` the life of one routed
//! connection as a state machine, and `relay` one direction of the byte copy.
pub mod addr;
pub mod relay;
pub mod routes;
pub mod session;
