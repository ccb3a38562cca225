//! The verified core of a small user-management service: username
//! validation, startup configuration, and the request handlers written as
//! step functions that a driver feeds with the outcomes of its storage calls.

pub mod db;
pub mod flow;
pub mod handlers;
pub mod models;
pub mod response;
pub mod store_model;
pub mod validation;
