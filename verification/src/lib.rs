//! Parsing of Xbox Wireless Controller BLE input reports, together with the
//! decisions of the controller connection (discovery, pairing, idle
//! disconnection, keepalives) and of the desktop inspector (Linux input
//! mapping, device listing, GATT characteristic selection).

pub mod advertisement;
pub mod backend;
pub mod connection;
pub mod device_list;
pub mod devices;
pub mod error;
pub mod gamepads;
pub mod gatt;
pub mod idle;
pub mod linux_input;
pub mod panel;
pub mod report;
pub mod session;
pub mod state;
pub mod text;

pub use advertisement::ControllerSelector;
pub use error::ParseError;
pub use report::{parse_input_report, INPUT_REPORT_LEN};
pub use session::{ControllerConfig, ControllerEvent};
pub use state::{XboxButtonState, XboxControllerState, XboxSticks, XboxTriggers};
