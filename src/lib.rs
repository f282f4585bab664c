//! A backtracking scanning buffer: a cursor over text that supports lookahead,
//! literal and regular-expression matching, a single checkpoint with rollback,
//! and range extraction. Two addressing variants are offered: `CharScanner`
//! counts Unicode scalar values, `ByteScanner` counts UTF-8 bytes.

pub mod byte_scanner;
pub mod char_scanner;
pub mod error;
pub mod pattern;
pub mod state;
mod text;


pub use byte_scanner::ByteScanner;
pub use char_scanner::CharScanner;
pub use error::ScanError;
