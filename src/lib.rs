//! A registry of open serial ports with cancellable background readers.
//!
//! `state` holds the registry: one entry per open port identifier, with the
//! device handle and, while a reader streams from the port, the sender of its
//! stop channel. The operations of `command` mediate every access to it, each
//! with a contract over the registry's view; `lifecycle` states the laws that
//! relate successive operations. `reader` decides each iteration of a
//! background read loop, which the caller runs on a thread of its own.
//! Devices are reached through `device::SerialDevice`, which serialport5's
//! `SerialPort` implements.

pub mod cancel;
pub mod command;
pub mod config;
pub mod device;
pub mod error;
pub mod lifecycle;
pub mod ports;
pub mod reader;
pub mod state;

pub use cancel::CancelPoll;
pub use command::{
    add_opened, cancel_read, close, close_all, force_close, get_serialport, open, read,
    signal_summary, start_reader, write_binary, write_result,
};
pub use config::{get_data_bits, get_flow_control, get_parity, get_stop_bits, PortConfig};
pub use device::SerialDevice;
pub use error::{Error, InvokeResult};
pub use ports::{available_ports, sort_port_names};
pub use reader::{chunk_event, read_event_name, stop_requested, ReadStep, ReaderTask};
pub use state::{ReadData, SerialportInfo, SerialportState};
