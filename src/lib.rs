pub mod text;
pub mod fallback;
pub mod pattern;
pub mod address;
pub mod capture;
pub mod discovery;
pub mod adapter;
pub mod connection;
pub mod playback;
