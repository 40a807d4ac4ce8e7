pub mod display;
pub mod error;
pub mod frame;
pub mod relay;
pub mod setup;
pub mod windows_screen_capture;
