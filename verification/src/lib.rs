//! Client-side logic for the JSON-RPC control protocol of Bravia displays.
//!
//! The crate decides what is sent to a device and what a reply means; it
//! performs no network exchange itself. A caller hands the prepared request to
//! a transport of its choice and gives the outcome back.

pub mod app_control;
pub mod audio;
pub mod av_content;
pub mod call;
pub mod capability;
pub mod client;
pub mod decode;
pub mod encode;
pub mod encryption;
pub mod error;
pub mod guide;
pub mod json;
pub mod order;
pub mod request;
pub mod response;
pub mod system;
pub mod text;
pub mod transport;
pub mod video;
pub mod video_screen;

pub use client::Bravia;
