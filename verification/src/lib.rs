//! Input capture and combo synthesis for an on-screen keystroke display.

pub mod capture;
pub mod combo;
pub mod distributor;
pub mod events;
pub mod held;
pub mod host;
pub mod json;
pub mod keys;
pub mod lifecycle;
pub mod settings;
pub mod text;
pub mod wire;
