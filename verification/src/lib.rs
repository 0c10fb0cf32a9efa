//! Request authentication and payload mapping for the Placetopay payment gateway.
//!
//! The crate turns gateway-agnostic payment and refund records into the gateway's
//! wire payloads, computes the single-use authentication token that every call
//! carries, and maps the gateway's status vocabulary back onto a small canonical
//! set.
//!
//! Every executable function carries a contract, and Verus proves each of them but
//! those of six small functions that call other crates and are believed as
//! written: hashing and encoding and the drawing of a nonce in [`auth`], the
//! reading of the clock in [`clock`], and the wrapping and unwrapping of a text as
//! JSON in [`metadata`]. What the token holds is therefore stated over two named
//! functions, the SHA-256 digest and the base64 text of a byte string, and what a
//! fresh token holds is stated for whatever nonce and moment came back.

pub mod auth;
pub mod clock;
pub mod digits;
pub mod domain;
pub mod errors;
pub mod follow_up;
pub mod metadata;
pub mod requests;
pub mod responses;
pub mod status;
pub mod text;
pub mod transaction_id;
