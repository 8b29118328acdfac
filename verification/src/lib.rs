//! Core of the "honestly" profile-feedback service: the user records, the replies
//! the service sends, and the decisions each request makes between its calls to
//! the user store and the external profile service.
pub mod models;
pub mod utils;
pub mod hiker_client;
pub mod handlers;
pub mod database;
pub mod error;

