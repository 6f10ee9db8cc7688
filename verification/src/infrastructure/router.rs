//! The handlers, one for each operation of the service.
pub mod answer;
pub mod question;
