//! Account, password, session and login-throttling logic of a small web
//! authentication service, with its contracts proved by Verus.

pub mod domain;
pub mod errors;
pub mod routes;
pub mod string_map;
pub mod time;
