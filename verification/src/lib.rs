//! Live match tracking for a menu-bar companion: match summaries, team
//! slugs, score-feed decoding, market correlation and the polling state
//! machine, each with a verified contract.

pub mod facade;
pub mod feed;
pub mod json;
pub mod market;
pub mod poll;
pub mod segment;
pub mod slug;
pub mod summary;
pub mod text;
