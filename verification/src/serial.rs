//! Serial-port support: the line settings and the builder that gathers
//! them. Opening and driving the port is the caller's part.

use vstd::prelude::*;

verus! {

/// Default read timeout in milliseconds.
pub const DEFAULT_TIMEOUT_MS: u64 = 1000;

/// Default read buffer size in bytes.
pub const DEFAULT_BUFFER_SIZE: usize = 1024;

/// Relies on `core::time::Duration::from_millis`; the value is opaque here.
pub assume_specification [ core::time::Duration::from_millis ](ms: u64) -> core::time::Duration;

/// Data bits per character.
#[derive(Debug, Clone, Copy, PartialEq, Eq, Structural)]
pub enum DataBits {
    /// Five data bits.
    Five,
    /// Six data bits.
    Six,
    /// Seven data bits.
    Seven,
    /// Eight data bits.
    Eight,
}

/// Stop bits per character.
#[derive(Debug, Clone, Copy, PartialEq, Eq, Structural)]
pub enum StopBits {
    /// One stop bit.
    One,
    /// Two stop bits.
    Two,
}

/// Parity checking.
#[derive(Debug, Clone, Copy, PartialEq, Eq, Structural)]
pub enum Parity {
    /// No parity bit.
    Off,
    /// Odd parity.
    Odd,
    /// Even parity.
    Even,
}

/// One serial port's name, as the system lists it.
#[derive(Debug, Clone)]
pub struct PortInfo {
    /// The port name.
    pub name: String,
}

/// Serial-port settings under construction.
#[derive(Debug)]
pub struct SerialPortBuilder {
    /// The port name, when one is set.
    pub port: Option<String>,
    /// Bits per second.
    pub baud_rate: u32,
    /// Data bits per character.
    pub data_bits: DataBits,
    /// Stop bits per character.
    pub stop_bits: StopBits,
    /// Parity checking.
    pub parity: Parity,
    /// Read timeout.
    pub timeout: core::time::Duration,
}

impl SerialPortBuilder {
    /// The usual defaults: no port yet, 115200 baud, eight data bits, one
    /// stop bit, no parity, and the default timeout.
    pub fn new() -> (r: Self)
        ensures
            r.port is None,
            r.baud_rate == 115200,
            r.data_bits == DataBits::Eight,
            r.stop_bits == StopBits::One,
            r.parity == Parity::Off,
    {
        Self {
            port: None,
            baud_rate: 115200,
            data_bits: DataBits::Eight,
            stop_bits: StopBits::One,
            parity: Parity::Off,
            timeout: core::time::Duration::from_millis(DEFAULT_TIMEOUT_MS),
        }
    }

    /// Sets the port name.
    pub fn port(self, port: &str) -> (r: Self)
        ensures
            r.port matches Some(p) && p@ == port@,
            r.baud_rate == self.baud_rate,
            r.data_bits == self.data_bits,
            r.stop_bits == self.stop_bits,
            r.parity == self.parity,
            r.timeout == self.timeout,
    {
        Self { port: Some(port.to_owned()), ..self }
    }

    /// Sets the baud rate.
    pub fn baud_rate(self, baud_rate: u32) -> (r: Self)
        ensures
            r.baud_rate == baud_rate,
            r.port == self.port,
            r.data_bits == self.data_bits,
            r.stop_bits == self.stop_bits,
            r.parity == self.parity,
            r.timeout == self.timeout,
    {
        Self { baud_rate, ..self }
    }

    /// Sets the data bits.
    pub fn data_bits(self, data_bits: DataBits) -> (r: Self)
        ensures
            r.data_bits == data_bits,
            r.port == self.port,
            r.baud_rate == self.baud_rate,
            r.stop_bits == self.stop_bits,
            r.parity == self.parity,
            r.timeout == self.timeout,
    {
        Self { data_bits, ..self }
    }

    /// Sets the stop bits.
    pub fn stop_bits(self, stop_bits: StopBits) -> (r: Self)
        ensures
            r.stop_bits == stop_bits,
            r.port == self.port,
            r.baud_rate == self.baud_rate,
            r.data_bits == self.data_bits,
            r.parity == self.parity,
            r.timeout == self.timeout,
    {
        Self { stop_bits, ..self }
    }

    /// Sets the parity.
    pub fn parity(self, parity: Parity) -> (r: Self)
        ensures
            r.parity == parity,
            r.port == self.port,
            r.baud_rate == self.baud_rate,
            r.data_bits == self.data_bits,
            r.stop_bits == self.stop_bits,
            r.timeout == self.timeout,
    {
        Self { parity, ..self }
    }

    /// Sets the read timeout.
    pub fn timeout(self, timeout: core::time::Duration) -> (r: Self)
        ensures
            r.timeout == timeout,
            r.port == self.port,
            r.baud_rate == self.baud_rate,
            r.data_bits == self.data_bits,
            r.stop_bits == self.stop_bits,
            r.parity == self.parity,
    {
        Self { timeout, ..self }
    }
}

} // verus!
