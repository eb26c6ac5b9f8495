pub mod error;
pub mod logging;
pub mod runtime;
pub mod serialize;
pub mod start;
pub mod strings;

pub use error::{TError, TResult};
pub use logging::init;
