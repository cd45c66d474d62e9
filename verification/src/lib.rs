//! Error values, log-line rendering and the webview message wire format of the
//! Mize explorer UI framework.
pub mod base64;
pub mod cli;
pub mod colors;
pub mod error;
pub mod implementors;
pub mod mme;
pub mod presenter;
pub mod slot;
pub mod space;
pub mod text;
pub mod widget;
