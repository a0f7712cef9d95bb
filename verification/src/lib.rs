//! Verified core of the Viber VN balance monitor: request building, response
//! checks, CSV export, tray decisions and the low-balance alert.

pub mod text;
pub mod api;
pub mod model;
pub mod commands;
pub mod tray;
pub mod refresh;
pub mod settings;
