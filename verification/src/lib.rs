//! Client-side composition layer for a chat-platform messaging gateway.
//!
//! The library models outbound messages as a tagged union whose wire
//! discriminator is derived from the variant, gathers them into a bounded
//! batch, resolves target audiences through recursive boolean filter trees,
//! and maps every delivery operation onto the gateway's request and response
//! contract.  All serialization is performed here, with contracts that pin
//! the exact wire text; the HTTP transport itself is a collaborator outside
//! this crate.

pub mod batch;
pub mod delivery;
pub mod filter;
pub mod json;
pub mod message;
pub mod num;
