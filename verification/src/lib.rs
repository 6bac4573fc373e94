//! Admission pipeline and request dispatcher for a line-oriented tool server
//! that renders text into QR code images and extracts text from them.
//!
//! The library validates every untrusted input (size ceilings, base64
//! payloads, URL scheme/host/extension allow-listing) before any bytes reach
//! an image codec or are handed to a network collaborator. Network transfers
//! themselves are performed by the embedding program; the library decides
//! what may be fetched or uploaded and judges every outcome.

pub mod codec;
pub mod consts;
pub mod dispatch;
pub mod errors;
pub mod laws;
pub mod pipeline;
pub mod strings;
pub mod tools;
pub mod urlcheck;
