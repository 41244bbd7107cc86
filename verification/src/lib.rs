//! Resolves public identifiers on a video-sharing platform — a channel name,
//! a channel's latest uploads, a single video id — into structured records by
//! chaining calls to a remote metadata API.
//!
//! The crate is organised around a pluggable fetch capability
//! ([`http_client::HttpClientTrait`]): every resolution stage builds one
//! request URL, performs one GET through the capability, and validates the
//! decoded response. All validation and sequencing logic is verified; the
//! transport and the JSON decoding stand behind the capability.

pub mod http_client;
pub mod youtube;
