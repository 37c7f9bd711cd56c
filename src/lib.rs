//! A small movie catalog: an in-memory record store with its load and
//! append rules, request validation, and the normalisation of a movie
//! database's search responses into the catalog's own shape.

pub mod text;
pub mod error;
pub mod models;
pub mod validation;
pub mod search;
pub mod storage;
