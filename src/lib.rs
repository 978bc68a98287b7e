pub mod codec;
pub mod words;
pub mod session;
pub mod pattern;
pub mod sender;
pub mod verdict;
pub mod filter;
pub mod laws;
