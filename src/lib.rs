//! A roster of teams and players: an entity store with referential rules, the
//! REST layer that turns store outcomes into HTTP responses, and the gateway
//! layer that turns upstream HTTP replies into GraphQL field results.

pub mod gateway;
pub mod ids;
pub mod laws;
pub mod models;
pub mod rest;
pub mod rows;
pub mod seeds;
pub mod store;
pub mod upstream;
