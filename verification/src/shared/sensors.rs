//! One value for each sensor.

use crate::shared::packets::SensorId;
use vstd::prelude::*;

verus! {

/// One value for each sensor.
#[derive(Debug, Clone, Copy)]
pub struct PerSensor<T> {
    pub thermal: T,
    pub power: T,
    pub imu: T,
}

impl<T> PerSensor<T> {
    /// The value for a sensor.
    pub open spec fn at(self, sensor: SensorId) -> T {
        match sensor {
            SensorId::Thermal => self.thermal,
            SensorId::Power => self.power,
            SensorId::Imu => self.imu,
        }
    }

    /// The values after the one for `sensor` was replaced.
    pub open spec fn with(self, sensor: SensorId, value: T) -> PerSensor<T> {
        match sensor {
            SensorId::Thermal => PerSensor { thermal: value, power: self.power, imu: self.imu },
            SensorId::Power => PerSensor { thermal: self.thermal, power: value, imu: self.imu },
            SensorId::Imu => PerSensor { thermal: self.thermal, power: self.power, imu: value },
        }
    }

    /// The value for a sensor.
    pub fn get(&self, sensor: SensorId) -> (r: &T)
        ensures
            *r == self.at(sensor),
    {
        match sensor {
            SensorId::Thermal => &self.thermal,
            SensorId::Power => &self.power,
            SensorId::Imu => &self.imu,
        }
    }

    /// The value for a sensor, to be changed in place.
    pub fn get_mut(&mut self, sensor: SensorId) -> (r: &mut T)
        ensures
            *r == old(self).at(sensor),
            *final(self) == old(self).with(sensor, *final(r)),
    {
        match sensor {
            SensorId::Thermal => &mut self.thermal,
            SensorId::Power => &mut self.power,
            SensorId::Imu => &mut self.imu,
        }
    }

    /// Replaces the value for a sensor.
    pub fn set(&mut self, sensor: SensorId, value: T)
        ensures
            *final(self) == old(self).with(sensor, value),
    {
        match sensor {
            SensorId::Thermal => {
                self.thermal = value;
            },
            SensorId::Power => {
                self.power = value;
            },
            SensorId::Imu => {
                self.imu = value;
            },
        }
    }
}

} // verus!
