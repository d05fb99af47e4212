pub mod crypto;
pub mod bytes;
pub mod merkle;
pub mod types;
pub mod header;
pub mod block;
pub mod builder;
pub mod rewards;
