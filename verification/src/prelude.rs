//! What most callers need, in one import.

pub use crate::extensions::append::{append, TeraAppendExt};
pub use crate::extensions::generate::{generate, TeraGenerateExt};
pub use crate::Earth;
