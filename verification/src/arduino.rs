//! Arduino integration: configuration, commands and status.
//!
//! The serial session and the simulated sensor readings are caller-side
//! adapters; the library owns the configuration surface, the command
//! vocabulary and the status record.

use vstd::prelude::*;

verus! {

/// Arduino robot configuration.
#[derive(Clone, Debug)]
pub struct ArduinoConfig {
    /// Serial port path.
    pub serial_port: String,
    /// Baud rate.
    pub baud_rate: u32,
    /// Connection timeout in seconds.
    pub timeout_seconds: u64,
    /// Enable auto-reconnection.
    pub auto_reconnect: bool,
    /// Retry attempts.
    pub retry_attempts: u32,
}

impl Default for ArduinoConfig {
    /// First USB serial port, 9600 baud, 5 s timeout, auto-reconnect with 3
    /// retries.
    fn default() -> (r: ArduinoConfig)
        ensures
            r.serial_port@ == "/dev/ttyUSB0"@,
            r.baud_rate == 9600,
            r.timeout_seconds == 5,
            r.auto_reconnect,
            r.retry_attempts == 3,
    {
        ArduinoConfig {
            serial_port: ("/dev/ttyUSB0").to_owned(),
            baud_rate: 9600,
            timeout_seconds: 5,
            auto_reconnect: true,
            retry_attempts: 3,
        }
    }
}

/// Arduino sensor types.
#[derive(Clone, Copy, Debug, Hash, PartialEq, Eq, Structural)]
pub enum ArduinoSensorType {
    /// Digital sensor.
    Digital,
    /// Analog sensor.
    Analog,
    /// I2C sensor.
    I2C,
    /// SPI sensor.
    SPI,
    /// PWM sensor.
    PWM,
}

/// Pin mode of an Arduino pin.
#[derive(Clone, Copy, Debug, Hash, PartialEq, Eq, Structural)]
pub enum PinMode {
    /// Input mode.
    Input,
    /// Output mode.
    Output,
    /// Input with the internal pullup.
    InputPullup,
}

/// A command sent to the Arduino.
#[derive(Clone, Debug)]
pub enum ArduinoCommand {
    /// Read a sensor value.
    ReadSensor {
        /// The sensor to read.
        sensor_id: String,
    },
    /// Write a digital pin.
    WriteDigital {
        /// The pin to write.
        pin: u8,
        /// The level to set.
        value: bool,
    },
    /// Write an analog pin.
    WriteAnalog {
        /// The pin to write.
        pin: u8,
        /// The value to set.
        value: u16,
    },
    /// Set a pin's mode.
    SetPinMode {
        /// The pin to configure.
        pin: u8,
        /// The mode to set.
        mode: PinMode,
    },
    /// Ask for the sensor list.
    GetSensorList,
    /// Ping the board.
    Ping,
}

/// Status of an Arduino robot.
#[derive(Clone, Debug)]
pub struct ArduinoStatus {
    /// Identifier of the robot.
    pub id: String,
    /// Whether the serial session is up.
    pub connected: bool,
    /// Number of attached sensors.
    pub sensor_count: usize,
    /// Number of enabled sensors.
    pub enabled_sensors: usize,
    /// Seconds since the robot came up.
    pub uptime: i64,
}

} // verus!
