//! The request handlers.

pub mod site;
pub mod user;
