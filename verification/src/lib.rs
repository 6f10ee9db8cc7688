//! A question and answer service without its transport: the failures that a
//! request can end in and what a client is told of each, the pages that a
//! request may ask for, the store of questions and answers, and one handler
//! for each operation.
//!
//! Every type that holds text has a view, a value of mathematics that
//! contracts speak of: a `String` is seen as its sequence of characters, a
//! `Store` as the lists it holds. What a function returns and what it does
//! to a store is said over these views.
pub mod decimal;
pub mod domain;
pub mod errors;
pub mod infrastructure;
pub mod status;
