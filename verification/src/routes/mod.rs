//! The decisions that the service's request handlers take, apart from the
//! database and the network.

pub mod auth;
pub mod form;
pub mod update_session;
