//! Battery readout for the Razer Viper V4 Pro: the HID feature-report protocol,
//! the choice of safe device interfaces, the read and retry decisions, and the
//! tray and setup rules around them.
pub mod text;
pub mod report;
pub mod hid_path;
pub mod reader;
pub mod exchange;
pub mod probe;
pub mod tray;
pub mod setup;
pub mod uninstall;
