//! What holds of the renderer as a whole.
pub mod balance;
pub mod count;
pub mod draw;
pub mod ending;
pub mod frame;
pub mod job;
pub mod life;
pub mod lifetime;
pub mod once;
pub mod paint;
pub mod setup;
pub mod swapchain;
pub mod transfer;
pub mod upload;
pub mod user;
