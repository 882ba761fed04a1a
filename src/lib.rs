//! A request-to-write adapter for user records.
//!
//! `decode` turns a request body into a validated `UserRecord`, reading the JSON
//! document through `json`. `writer` assigns a fresh identifier (`ident`), lays out the
//! single insert, and classifies the store's failures. `handler` joins them into the two
//! steps of a request: the decision taken on the body, and the reply owed to the store's
//! answer.
pub mod decode;
pub mod handler;
pub mod ident;
pub mod json;
pub mod writer;
