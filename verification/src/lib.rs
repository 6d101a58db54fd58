//! Client-side logic for a board management controller's HTTP/JSON API:
//! command targets, the authenticated send protocol, chunked image upload
//! and the progress poller, each as plain state that a thin I/O shell drives.

pub mod board_info;
pub mod cli;
pub mod handler;
pub mod json;
pub mod printer;
pub mod progress;
pub mod prompt;
pub mod request;
pub mod session;
pub mod text;
pub mod upload;
pub mod usb_flash;
