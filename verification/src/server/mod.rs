pub mod actions;
pub mod auth;
pub mod dates;
pub mod discovery;
pub mod errors;
pub mod loader;
pub mod query;
pub mod sessions;
pub mod snapshot;
pub mod state;
pub mod text;

pub use actions::TapoDeviceType;
pub use errors::{ApiError, ApiResult};
