//! Client library for the score pages of webui.xepher.fun: score records,
//! song metadata, the merged song catalog and the construction of requests.

pub mod catalog;
pub mod client;
pub mod error;
pub mod score;
pub mod song;

pub use client::XepherClient;
pub use error::XepherError;
pub use score::IIDXScoreResult;
pub use song::{IIDXDiffLevel, IIDXSong, IIDXSongDiff};
