//! The login side of the gateway: what is done to a payload between the
//! socket and the account store.

pub mod crypt;
pub mod laws;
pub mod client;
pub mod models;
