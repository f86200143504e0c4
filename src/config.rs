use vstd::prelude::*;
use serialport5::{DataBits, FlowControl, Parity, StopBits};

verus! {

#[verifier::external_type_specification]
pub struct ExDataBits(serialport5::DataBits);

#[verifier::external_type_specification]
pub struct ExFlowControl(serialport5::FlowControl);

#[verifier::external_type_specification]
pub struct ExParity(serialport5::Parity);

#[verifier::external_type_specification]
pub struct ExStopBits(serialport5::StopBits);

/// Read timeout of a device handle, and idle delay of a reader, when none is given.
pub const DEFAULT_TIMEOUT_MS: u64 = 200;

/// Size of a reader's buffer when none is given.
pub const DEFAULT_BUFFER_SIZE: usize = 1024;

/// The parameters a device handle is opened with.
#[derive(Debug, Clone, Copy, PartialEq, Eq)]
pub struct PortConfig {
    pub baud_rate: u32,
    pub data_bits: DataBits,
    pub flow_control: FlowControl,
    pub parity: Parity,
    pub stop_bits: StopBits,
    pub timeout_ms: u64,
}

pub open spec fn data_bits_of(value: Option<usize>) -> DataBits {
    match value {
        Some(5) => DataBits::Five,
        Some(6) => DataBits::Six,
        Some(7) => DataBits::Seven,
        _ => DataBits::Eight,
    }
}

pub open spec fn flow_control_of(value: Option<String>) -> FlowControl {
    match value {
        Some(s) => if s@ == "Software"@ {
            FlowControl::Software
        } else if s@ == "Hardware"@ {
            FlowControl::Hardware
        } else {
            FlowControl::None
        },
        None => FlowControl::None,
    }
}

pub open spec fn parity_of(value: Option<String>) -> Parity {
    match value {
        Some(s) => if s@ == "Odd"@ {
            Parity::Odd
        } else if s@ == "Even"@ {
            Parity::Even
        } else {
            Parity::None
        },
        None => Parity::None,
    }
}

pub open spec fn stop_bits_of(value: Option<usize>) -> StopBits {
    match value {
        Some(1) => StopBits::One,
        _ => StopBits::Two,
    }
}

/// The configuration that the optional parameters of `open` denote.
pub open spec fn config_of(
    baud_rate: u32,
    data_bits: Option<usize>,
    flow_control: Option<String>,
    parity: Option<String>,
    stop_bits: Option<usize>,
    timeout: Option<u64>,
) -> PortConfig {
    PortConfig {
        baud_rate,
        data_bits: data_bits_of(data_bits),
        flow_control: flow_control_of(flow_control),
        parity: parity_of(parity),
        stop_bits: stop_bits_of(stop_bits),
        timeout_ms: match timeout {
            Some(t) => t,
            None => DEFAULT_TIMEOUT_MS,
        },
    }
}

/// Data bits per character: 5 to 8 as given, 8 for any other value or none.
pub fn get_data_bits(value: Option<usize>) -> (r: DataBits)
    ensures
        r == data_bits_of(value),
{
    match value {
        Some(value) => match value {
            5 => DataBits::Five,
            6 => DataBits::Six,
            7 => DataBits::Seven,
            _ => DataBits::Eight,
        },
        None => DataBits::Eight,
    }
}

/// Flow control: "Software" or "Hardware" as given, none for any other value.
pub fn get_flow_control(value: Option<String>) -> (r: FlowControl)
    ensures
        r == flow_control_of(value),
{
    match value {
        Some(value) => {
            if value == "Software".to_owned() {
                FlowControl::Software
            } else if value == "Hardware".to_owned() {
                FlowControl::Hardware
            } else {
                FlowControl::None
            }
        },
        None => FlowControl::None,
    }
}

/// Parity: "Odd" or "Even" as given, none for any other value.
pub fn get_parity(value: Option<String>) -> (r: Parity)
    ensures
        r == parity_of(value),
{
    match value {
        Some(value) => {
            if value == "Odd".to_owned() {
                Parity::Odd
            } else if value == "Even".to_owned() {
                Parity::Even
            } else {
                Parity::None
            }
        },
        None => Parity::None,
    }
}

/// Stop bits: one when 1 is given, two otherwise.
pub fn get_stop_bits(value: Option<usize>) -> (r: StopBits)
    ensures
        r == stop_bits_of(value),
{
    match value {
        Some(value) => match value {
            1 => StopBits::One,
            _ => StopBits::Two,
        },
        None => StopBits::Two,
    }
}

impl PortConfig {
    /// Resolves the optional parameters of `open` to a full configuration.
    pub fn from_options(
        baud_rate: u32,
        data_bits: Option<usize>,
        flow_control: Option<String>,
        parity: Option<String>,
        stop_bits: Option<usize>,
        timeout: Option<u64>,
    ) -> (r: PortConfig)
        ensures
            r == config_of(baud_rate, data_bits, flow_control, parity, stop_bits, timeout),
    {
        PortConfig {
            baud_rate,
            data_bits: get_data_bits(data_bits),
            flow_control: get_flow_control(flow_control),
            parity: get_parity(parity),
            stop_bits: get_stop_bits(stop_bits),
            timeout_ms: match timeout {
                Some(t) => t,
                None => DEFAULT_TIMEOUT_MS,
            },
        }
    }
}

} // verus!
