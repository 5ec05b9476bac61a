//! A small HTTP download engine: method dispatch, header splitting, output
//! path resolution from the declared content type, and the bookkeeping of a
//! streamed transfer with its textual progress bar.
//!
//! Everything here is pure: the caller performs the network and file I/O and
//! feeds the outcomes to [`transfer::Transfer`].

pub mod cli;
pub mod error;
pub mod extension;
pub mod header;
pub mod method;
pub mod output;
pub mod progress;
pub mod request;
pub mod text;
pub mod transfer;
