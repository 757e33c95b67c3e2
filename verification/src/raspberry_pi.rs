//! Raspberry Pi integration: pin, bus and sensor configuration.
//!
//! GPIO, I2C, SPI and camera sessions are caller-side adapters; the library
//! owns the configuration surface.

use vstd::prelude::*;

verus! {

/// Configuration of one GPIO pin.
#[derive(Clone, Copy, Debug, PartialEq, Eq, Structural)]
pub struct PinConfig {
    /// The pin's mode.
    pub mode: PinMode,
    /// Pull resistor setting, if any.
    pub pull_up_down: Option<PullUpDown>,
    /// Initial output level, if any.
    pub initial_value: Option<bool>,
}

/// Mode of a GPIO pin.
#[derive(Clone, Copy, Debug, Hash, PartialEq, Eq, Structural)]
pub enum PinMode {
    /// Input mode.
    Input,
    /// Output mode.
    Output,
    /// PWM mode.
    PWM,
    /// I2C mode.
    I2C,
    /// SPI mode.
    SPI,
}

/// Pull resistor setting of an input pin.
#[derive(Clone, Copy, Debug, Hash, PartialEq, Eq, Structural)]
pub enum PullUpDown {
    /// Pull up.
    PullUp,
    /// Pull down.
    PullDown,
    /// No pull resistor.
    NoPull,
}

/// I2C bus configuration.
#[derive(Clone, Debug)]
pub struct I2CConfig {
    /// Whether the bus is enabled.
    pub enabled: bool,
    /// Bus number.
    pub bus: u8,
    /// Clock speed in hertz.
    pub clock_speed: u32,
    /// The devices on the bus.
    pub devices: Vec<I2CDevice>,
}

/// One device on an I2C bus.
#[derive(Clone, Debug)]
pub struct I2CDevice {
    /// Device address on the bus.
    pub address: u8,
    /// Device name.
    pub name: String,
    /// Kind of device.
    pub device_type: String,
}

/// SPI bus configuration.
#[derive(Clone, Copy, Debug, PartialEq, Eq, Structural)]
pub struct SPIConfig {
    /// Whether the bus is enabled.
    pub enabled: bool,
    /// Bus number.
    pub bus: u8,
    /// Device number on the bus.
    pub device: u8,
    /// Clock speed in hertz.
    pub clock_speed: u32,
    /// SPI mode (0-3).
    pub mode: u8,
}

/// Sensor kinds a Raspberry Pi robot can carry.
#[derive(Clone, Copy, Debug, Hash, PartialEq, Eq, Structural)]
pub enum PiSensorType {
    /// Temperature sensor.
    Temperature,
    /// Humidity sensor.
    Humidity,
    /// Pressure sensor.
    Pressure,
    /// Light sensor.
    Light,
    /// Motion sensor.
    Motion,
    /// Ultrasonic sensor.
    Ultrasonic,
    /// Camera.
    Camera,
}

/// Camera configuration of a Raspberry Pi robot.
#[derive(Debug)]
pub struct CameraConfig {
    /// Whether the camera is enabled.
    pub enabled: bool,
    /// Frame resolution, width by height.
    pub resolution: (u32, u32),
    /// Frames per second.
    pub frame_rate: u32,
    /// Pixel format.
    pub format: String,
}

/// Raspberry Pi robot configuration.
#[derive(Debug)]
pub struct RaspberryPiConfig {
    /// GPIO pin configuration, by pin number.
    pub gpio_pins: std::collections::HashMap<u8, PinConfig>,
    /// I2C configuration.
    pub i2c_config: I2CConfig,
    /// SPI configuration.
    pub spi_config: SPIConfig,
    /// Camera configuration.
    pub camera_config: CameraConfig,
    /// Enable hardware PWM.
    pub enable_hardware_pwm: bool,
    /// System monitoring enabled.
    pub enable_system_monitoring: bool,
}

impl Default for RaspberryPiConfig {
    /// Hardware PWM on pin 18 and I2C on pin 19; I2C bus 1 at 100 kHz, SPI
    /// bus 0 at 1 MHz, the camera at 640 by 480 and 30 frames per second.
    fn default() -> (r: RaspberryPiConfig)
        ensures
            r.gpio_pins@ == Map::<u8, PinConfig>::empty().insert(
                18u8,
                PinConfig { mode: PinMode::PWM, pull_up_down: None, initial_value: None },
            ).insert(
                19u8,
                PinConfig { mode: PinMode::I2C, pull_up_down: None, initial_value: None },
            ),
            r.i2c_config.enabled && r.i2c_config.bus == 1 && r.i2c_config.clock_speed == 100000
                && r.i2c_config.devices@.len() == 0,
            r.spi_config == (SPIConfig {
                enabled: true,
                bus: 0u8,
                device: 0u8,
                clock_speed: 1000000u32,
                mode: 0u8,
            }),
            r.camera_config.enabled && r.camera_config.resolution == (640u32, 480u32)
                && r.camera_config.frame_rate == 30 && r.camera_config.format@ == "RGB"@,
            r.enable_hardware_pwm,
            r.enable_system_monitoring,
    {
        broadcast use vstd::std_specs::hash::group_hash_axioms;

        let mut gpio_pins: std::collections::HashMap<u8, PinConfig> =
            std::collections::HashMap::new();
        gpio_pins.insert(
            18,
            PinConfig { mode: PinMode::PWM, pull_up_down: None, initial_value: None },
        );
        gpio_pins.insert(
            19,
            PinConfig { mode: PinMode::I2C, pull_up_down: None, initial_value: None },
        );
        RaspberryPiConfig {
            gpio_pins,
            i2c_config: I2CConfig { enabled: true, bus: 1, clock_speed: 100000, devices: Vec::new() },
            spi_config: SPIConfig { enabled: true, bus: 0, device: 0, clock_speed: 1000000, mode: 0 },
            camera_config: CameraConfig {
                enabled: true,
                resolution: (640, 480),
                frame_rate: 30,
                format: ("RGB").to_owned(),
            },
            enable_hardware_pwm: true,
            enable_system_monitoring: true,
        }
    }
}

} // verus!
