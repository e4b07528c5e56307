//! Core of a programmable network-request tool: the pure decisions of a
//! layered HTTP/1 runner stack, with machine-checked contracts.

pub mod buffer;
pub mod output;
pub mod header;
pub mod pause;
pub mod parse;
pub mod http1;
pub mod tee;
pub mod tls;
pub mod tcp;
pub mod http;
pub mod exec;

