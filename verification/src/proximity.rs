//! What the scan engine asks of a proximity sensor.

use core::time::Duration;
use vstd::prelude::*;

verus! {

/// A sensor that measures the distance to whatever is in front of it.
pub trait Proximity {
    /// What the sensor fails with.
    type Error;

    /// Sets the expected interval between two measurements.
    fn set_interval(&mut self, interval: Duration) -> Result<(), Self::Error>;

    /// Takes a measurement, in millimeters.
    fn get_proximity(&mut self) -> Result<u16, Self::Error>;

    /// Subscribes the calling task to a notification whenever a measurement
    /// is ready.
    fn subscribe(&mut self);
}

} // verus!
