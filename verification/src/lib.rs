//! The identity service: a request/response endpoint that creates, validates,
//! signs with, verifies against and compares cryptographic identities.
//!
//! The library holds the wire codec, the routing of requests, the comparison
//! of change histories and the decisions of the service. The cryptographic
//! work itself is done by the caller, between `service::on_request` and
//! `service::finish`.
//!
//! - `cbor`: the items of the wire format, read and written by `minicbor`
//! - `wire`: records, the shape of every structure of the protocol
//! - `model`, `envelope`: request, response and error, and their codec
//! - `payload`: the bodies of the operations, and their codec
//! - `route`: from method and path to the operation
//! - `history`: change histories and their comparison
//! - `service`: what the service decides and answers
//! - `round_trip`: what is written is read back
//! - `vault_cmd`: the decisions of the vault commands

pub mod cbor;
pub mod envelope;
pub mod history;
pub mod model;
pub mod payload;
pub mod round_trip;
pub mod route;
pub mod service;
pub mod vault_cmd;
pub mod wire;
