//! Transport and call-handling core of a gRPC-style RPC library: status codes
//! and their header form, compression negotiation, request building and
//! response checking, a timeout race and a server router.
pub mod hexcode;
pub mod metadata;
pub mod status;
pub mod compression;
pub mod address;
pub mod client;
pub mod timeout;
pub mod router;
pub mod service;
pub mod server;
pub mod conn;
