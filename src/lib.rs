pub mod error;
pub mod gear;
pub mod inputs;
pub mod laws;
pub mod speech;
pub mod weather;

pub use error::Error;
