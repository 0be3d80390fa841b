//! Data-access and error-translation layer of a question-and-answer service.
//!
//! The library validates identifiers, classifies storage failures, keeps an
//! in-memory store with referential integrity between questions and answers,
//! and maps store errors onto the two error classes shown at the HTTP boundary.

pub mod dao;
pub mod error;
pub mod handlers;
pub mod ident;
pub mod laws;
pub mod models;
pub mod state;
pub mod store;
