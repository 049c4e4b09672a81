//! Rendering of camera frames as colored terminal text, with the state
//! machines of the capture task and of the application loop around it.

pub mod app;
pub mod ascii;
pub mod camera;
pub mod capture;
pub mod cell;
pub mod channel;
pub mod color;
pub mod config;
pub mod event_handler;
pub mod frame;
pub mod mode;
pub mod render;
pub mod text;
