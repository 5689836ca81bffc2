//! Request handling for a small record service over a document store: each handler turns a
//! request into one store operation, and the store's report into a response.

pub mod document;
pub mod handlers;
pub mod laws;
pub mod records;
pub mod store;
