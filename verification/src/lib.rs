pub mod duration;
pub mod error;
pub mod state;
pub mod store;
