//! The service's domain: users, their e-mail addresses and passwords, the pool
//! of open sessions and the throttling of failed logins.

pub mod login_throttling;
pub mod session;
pub mod user;
pub mod user_email;
pub mod user_name;
pub mod user_password;
