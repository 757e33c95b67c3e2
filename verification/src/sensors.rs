//! Common sensor vocabulary.
//!
//! The simulated sensor signal generators (camera, LiDAR, IMU, GPS, thermal)
//! are caller-side collaborators; the library owns the shared enumerations
//! they speak in.

use vstd::prelude::*;

verus! {

/// Common sensor types.
#[derive(Clone, Copy, Debug, Hash, PartialEq, Eq, Structural)]
pub enum SensorType {
    /// Camera sensor.
    Camera,
    /// LiDAR sensor.
    LiDAR,
    /// IMU sensor.
    IMU,
    /// GPS sensor.
    GPS,
    /// Thermal sensor.
    Thermal,
}

/// Image format of a camera frame.
#[derive(Clone, Copy, Debug, Hash, PartialEq, Eq, Structural)]
pub enum ImageFormat {
    /// RGB format.
    RGB,
    /// RGBA format.
    RGBA,
    /// Grayscale format.
    Grayscale,
    /// YUV format.
    YUV,
    /// JPEG format.
    JPEG,
    /// PNG format.
    PNG,
}

/// Focus mode of a camera.
#[derive(Clone, Copy, Debug, Hash, PartialEq, Eq, Structural)]
pub enum FocusMode {
    /// Auto focus.
    Auto,
    /// Manual focus.
    Manual,
    /// Continuous focus.
    Continuous,
    /// Fixed focus.
    Fixed,
}

/// White balance mode of a camera.
#[derive(Clone, Copy, Debug, Hash, PartialEq, Eq, Structural)]
pub enum WhiteBalanceMode {
    /// Auto white balance.
    Auto,
    /// Daylight.
    Daylight,
    /// Cloudy.
    Cloudy,
    /// Tungsten.
    Tungsten,
    /// Fluorescent.
    Fluorescent,
    /// Manual.
    Manual,
}

/// Coordinate system of a GPS reading.
#[derive(Clone, Copy, Debug, Hash, PartialEq, Eq, Structural)]
pub enum CoordinateSystem {
    /// WGS84.
    WGS84,
    /// NAD83.
    NAD83,
    /// ETRS89.
    ETRS89,
    /// Custom system.
    Custom,
}

/// GPS fix quality.
#[derive(Clone, Copy, Debug, Hash, PartialEq, Eq, Structural)]
pub enum FixQuality {
    /// No fix.
    NoFix,
    /// GPS fix.
    GPSFix,
    /// DGPS fix.
    DGPSFix,
    /// RTK fix.
    RTKFix,
    /// RTK float.
    RTKFloat,
}

/// Point cloud layout of a LiDAR frame.
#[derive(Clone, Copy, Debug, Hash, PartialEq, Eq, Structural)]
pub enum PointCloudFormat {
    /// x, y, z.
    XYZ,
    /// x, y, z, intensity.
    XYZI,
    /// x, y, z, r, g, b.
    XYZRGB,
    /// x, y, z, intensity, ring.
    XYZIR,
}

/// One sensor record as the core consumes it from a sensor collaborator.
#[derive(Debug)]
pub struct SensorData {
    /// Identifier of the originating sensor.
    pub sensor_id: String,
    /// Kind of sensor.
    pub sensor_type: SensorType,
    /// When the record was captured.
    pub timestamp: crate::timestamp::Timestamp,
    /// The raw payload.
    pub data: Vec<u8>,
    /// Free-form metadata.
    pub metadata: std::collections::HashMap<String, String>,
}

} // verus!
