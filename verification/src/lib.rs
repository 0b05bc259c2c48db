//! The decisions behind the DeepSeek balance segment of a status line: which models get a
//! segment, which key is used, how long a fetched balance stays cached, and what is shown
//! and stored after a fetch.
pub mod cache;
pub mod clock;
pub mod response;
pub mod segment;
pub mod text;
