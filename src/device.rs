use vstd::prelude::*;
use crate::config::PortConfig;
use serialport5::SerialPort;
use std::io::{Read, Write};
use std::time::Duration;

verus! {

/// A serial device handle: opened from an identifier and a configuration,
/// duplicable into an independent handle on the same device, and readable and
/// writable. Errors carry the device's reason as text.
pub trait SerialDevice: Sized {
    /// Opens the device named `path` with `config`.
    fn open_device(path: &String, config: &PortConfig) -> (r: Result<Self, String>);

    /// A second handle on the same device, owned independently of this one.
    fn try_clone_device(&self) -> (r: Result<Self, String>);

    /// Writes a prefix of `data`; returns its length.
    fn write_bytes(&mut self, data: &[u8]) -> (r: Result<usize, String>)
        ensures
            r matches Ok(n) ==> n <= data@.len(),
    ;

    /// Reads into the front of `buf`, waiting up to the handle's timeout;
    /// returns how many bytes were read.
    fn read_bytes(&mut self, buf: &mut Vec<u8>) -> (r: Result<usize, String>)
        ensures
            final(buf)@.len() == old(buf)@.len(),
            r matches Ok(n) ==> n <= old(buf)@.len(),
    ;
}

#[verifier::external_type_specification]
#[verifier::external_body]
pub struct ExSerialPort(serialport5::SerialPort);

/// Relies on serialport5's `SerialPortBuilder::open`: opens `path` with the
/// given settings, reads and writes both bounded by the configured timeout;
/// an error keeps its description.
#[verifier::external_body]
fn open_port(path: &String, config: &PortConfig) -> (r: Result<SerialPort, String>) {
    SerialPort::builder()
        .baud_rate(config.baud_rate)
        .data_bits(config.data_bits)
        .flow_control(config.flow_control)
        .parity(config.parity)
        .stop_bits(config.stop_bits)
        .read_timeout(Some(Duration::from_millis(config.timeout_ms)))
        .write_timeout(Some(Duration::from_millis(config.timeout_ms)))
        .open(path.as_str())
        .map_err(|e| e.description)
}

/// Relies on serialport5's `SerialPort::try_clone`: a handle on the same device.
#[verifier::external_body]
fn clone_port(port: &SerialPort) -> (r: Result<SerialPort, String>) {
    port.try_clone().map_err(|e| e.description)
}

/// Relies on `std::io::Write::write` of serialport5's `SerialPort`, which
/// std documents to report at most `data.len()` bytes written.
#[verifier::external_body]
fn write_port(port: &mut SerialPort, data: &[u8]) -> (r: Result<usize, String>)
    ensures
        r matches Ok(n) ==> n <= data@.len(),
{
    port.write(data).map_err(|e| e.to_string())
}

/// Relies on `std::io::Read::read` of serialport5's `SerialPort`, which std
/// documents to report at most `buf.len()` bytes read; a slice keeps its length.
#[verifier::external_body]
fn read_port(port: &mut SerialPort, buf: &mut Vec<u8>) -> (r: Result<usize, String>)
    ensures
        final(buf)@.len() == old(buf)@.len(),
        r matches Ok(n) ==> n <= old(buf)@.len(),
{
    port.read(buf.as_mut_slice()).map_err(|e| e.to_string())
}

impl SerialDevice for SerialPort {
    fn open_device(path: &String, config: &PortConfig) -> (r: Result<Self, String>) {
        open_port(path, config)
    }

    fn try_clone_device(&self) -> (r: Result<Self, String>) {
        clone_port(self)
    }

    fn write_bytes(&mut self, data: &[u8]) -> (r: Result<usize, String>) {
        write_port(self, data)
    }

    fn read_bytes(&mut self, buf: &mut Vec<u8>) -> (r: Result<usize, String>) {
        read_port(self, buf)
    }
}

} // verus!
