//! The entities of the service.

pub mod user;
