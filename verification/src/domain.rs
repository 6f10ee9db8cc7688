//! What the service stores: questions and the answers given to them.
pub mod answer;
pub mod question;
