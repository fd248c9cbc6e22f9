//! Verified core of the semiflow C ABI: status codes, argument gates,
//! buffer layouts and engine-handle bookkeeping.

pub mod coupling;
pub mod engine;
pub mod gate;
pub mod handles;
pub mod layout;
pub mod select;
pub mod sizes;
pub mod status;
pub mod stepping;
pub mod validate;

pub use status::SemiflowStatus;
