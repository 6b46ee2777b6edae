//! A minimal client core for a cloud GraphQL API.
//!
//! The client authenticates with a fixed API key and knows two operations:
//! listing the accounts the signed-in user belongs to, and creating a graph
//! and fetching its API key. This crate holds everything the client decides:
//! how a request is framed, which outcomes count as failures, how a JSON
//! reply is decoded, and what each operation hands back to its caller.
//!
//! Moving bytes over the network is left to the caller. For each operation
//! the client first describes the POST to perform, as an
//! [`graphql::transport::HttpRequest`]; the caller performs it and reports
//! what happened as a [`graphql::transport::TransportOutcome`]; the client
//! then turns that report into the result of the operation. No failure of a
//! request ends the process: each one comes back as an error value.

pub mod graphql;
