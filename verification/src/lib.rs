//! Reads air quality data from SEN0177 / Plantower-family particulate-matter
//! sensors.
//!
//! The sensor emits fixed 32-byte frames: a two-byte magic marker, big-endian
//! 16-bit measurement fields, and a 16-bit additive checksum trailer. This
//! crate locates a frame inside an untrusted byte source, validates the
//! checksum, and extracts the fields into a typed [`Reading`].
//!
//! The transport (a serial UART read byte by byte, or a bus that returns a
//! whole block) is supplied by the caller through the [`stream::ByteSource`]
//! and [`block::BlockSource`] capabilities.

use vstd::prelude::*;

pub mod block;
pub mod read;
pub mod stream;
pub mod sync;

verus! {

/// Trait representing a bus-agnostic air quality sensor
pub trait AirQualitySensor<E> {
    /// Reads a single sensor measurement
    ///
    /// This function will block until sufficient data is available.
    fn read(&mut self) -> Result<Reading, SensorError<E>>;
}

/// A single air quality sensor reading
///
/// Three standard and three environmental PM concentrations in µg/m³, and
/// six particle-count bins.
#[derive(Clone, Copy, Debug, PartialEq, Eq, Structural)]
pub struct Reading {
    pub pm1: u16,
    pub pm2_5: u16,
    pub pm10: u16,
    pub env_pm1: u16,
    pub env_pm2_5: u16,
    pub env_pm10: u16,
    pub particles_0_3: u16,
    pub particles_0_5: u16,
    pub particles_1: u16,
    pub particles_2_5: u16,
    pub particles_5: u16,
    pub particles_10: u16,
}

impl Reading {
    /// Returns the standard PM1 concentration in µg/m³
    pub fn pm1(&self) -> (v: u16)
        ensures
            v == self.pm1,
    {
        self.pm1
    }

    /// Returns the standard PM2.5 concentration in µg/m³
    pub fn pm2_5(&self) -> (v: u16)
        ensures
            v == self.pm2_5,
    {
        self.pm2_5
    }

    /// Returns the standard PM10 concentration in µg/m³
    pub fn pm10(&self) -> (v: u16)
        ensures
            v == self.pm10,
    {
        self.pm10
    }

    /// Returns the environmental PM1 concentration in µg/m³
    ///
    /// Note that some devices do not support this reading and will
    /// return garbage data for this value.
    pub fn env_pm1(&self) -> (v: u16)
        ensures
            v == self.env_pm1,
    {
        self.env_pm1
    }

    /// Returns the environmental PM2.5 concentration in µg/m³
    ///
    /// Note that some devices do not support this reading and will
    /// return garbage data for this value.
    pub fn env_pm2_5(&self) -> (v: u16)
        ensures
            v == self.env_pm2_5,
    {
        self.env_pm2_5
    }

    /// Returns the environmental PM10 concentration in µg/m³
    ///
    /// Note that some devices do not support this reading and will
    /// return garbage data for this value.
    pub fn env_pm10(&self) -> (v: u16)
        ensures
            v == self.env_pm10,
    {
        self.env_pm10
    }

    /// Returns count of particles smaller than 0.3µm
    pub fn particles_0_3(&self) -> (v: u16)
        ensures
            v == self.particles_0_3,
    {
        self.particles_0_3
    }

    /// Returns count of particles smaller than 0.5µm
    pub fn particles_0_5(&self) -> (v: u16)
        ensures
            v == self.particles_0_5,
    {
        self.particles_0_5
    }

    /// Returns count of particles smaller than 1µm
    pub fn particles_1(&self) -> (v: u16)
        ensures
            v == self.particles_1,
    {
        self.particles_1
    }

    /// Returns count of particles smaller than 2.5µm
    pub fn particles_2_5(&self) -> (v: u16)
        ensures
            v == self.particles_2_5,
    {
        self.particles_2_5
    }

    /// Returns count of particles smaller than 5µm
    pub fn particles_5(&self) -> (v: u16)
        ensures
            v == self.particles_5,
    {
        self.particles_5
    }

    /// Returns count of particles smaller than 10µm
    pub fn particles_10(&self) -> (v: u16)
        ensures
            v == self.particles_10,
    {
        self.particles_10
    }
}

/// Describes errors returned by the air quality sensor
#[derive(Debug)]
pub enum SensorError<E> {
    /// Couldn't find the "magic" bytes that indicate the start of a data frame
    ///
    /// This likely means that you've set an incorrect baud rate, or there is
    /// something noisy about your connection to the device.
    BadMagic,
    /// The checksum provided in the sensor data did not match the checksum of
    /// the data itself
    ///
    /// Retrying the read will usually clear up the problem.
    ChecksumMismatch,
    /// Read error from the serial device or bus
    ///
    /// The underlying cause is carried opaquely and never interpreted.
    TransportError(E),
}

impl<E> From<E> for SensorError<E> {
    fn from(error: E) -> Self {
        SensorError::TransportError(error)
    }
}

impl<E> vstd::std_specs::convert::FromSpecImpl<E> for SensorError<E> {
    open spec fn obeys_from_spec() -> bool {
        true
    }

    open spec fn from_spec(error: E) -> Self {
        SensorError::TransportError(error)
    }
}

} // verus!
