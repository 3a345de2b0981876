//! Settings, tags and the application's fixed values.
pub mod constants;
pub mod util;
