//! What holds of the calls taken together, in every state or over every history.

pub mod acceptance;
pub mod access;
pub mod answers;
pub mod effects;
pub mod lifecycle;
pub mod payments;
pub mod queries;
pub mod reports;
pub mod vocabulary;
