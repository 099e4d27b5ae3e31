//! Decoder for the order-touching messages of an ITCH-style equities feed.

pub mod context;
pub mod cursor;
pub mod error;
pub mod field;
pub mod framing;
pub mod lifecycle;
pub mod message;
pub mod order;
pub mod version;
