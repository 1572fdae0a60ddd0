//! ib_async's model and names in Rust spelling, with its logic verified.

pub mod text;
pub mod error;
pub mod shared;
pub mod slots;
pub mod routing;
pub mod event;
pub mod live;
pub mod lanes;
pub mod objects;
pub mod ids;
pub mod contract;
pub mod client;
pub mod fetch;
pub mod carry;
pub mod waiting;
pub mod url;
pub mod xml;
pub mod flex;
pub mod sessions;

pub use error::{Error, Result};
