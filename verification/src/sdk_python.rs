//! Python SDK: emitted client code for sensor pipelines.
//!
//! The generators are pure: each emits a fixed source text for one sensor
//! kind, and the dispatcher accepts exactly the five known kinds.

use vstd::prelude::*;

use crate::error::Error;

verus! {

/// Python SDK client.
pub struct PythonSDK {
    config: PythonSDKConfig,
}

/// Python SDK configuration.
#[derive(Clone, Debug)]
pub struct PythonSDKConfig {
    /// API endpoint.
    pub api_endpoint: String,
    /// Timeout in seconds.
    pub timeout_seconds: u64,
    /// API key.
    pub api_key: Option<String>,
    /// Enable async support.
    pub enable_async: bool,
    /// Enable type hints.
    pub enable_type_hints: bool,
}

impl Default for PythonSDKConfig {
    /// Local endpoint, 30 s timeout, async and type hints on.
    fn default() -> (r: PythonSDKConfig)
        ensures
            r.api_endpoint@ == "http://localhost:8080"@,
            r.timeout_seconds == 30,
            r.api_key is None,
            r.enable_async,
            r.enable_type_hints,
    {
        PythonSDKConfig {
            api_endpoint: ("http://localhost:8080").to_owned(),
            timeout_seconds: 30,
            api_key: None,
            enable_async: true,
            enable_type_hints: true,
        }
    }
}

impl PythonSDK {
    /// The configuration the client was built with.
    pub closed spec fn config(self) -> PythonSDKConfig {
        self.config
    }

    /// Create a new Python SDK client.
    pub fn new(config: PythonSDKConfig) -> (r: Result<PythonSDK, Error>)
        ensures
            r matches Ok(sdk) && sdk.config() == config,
    {
        Ok(PythonSDK { config })
    }

    /// Emit the Python processing code for one sensor kind. Exactly the five
    /// known kinds are accepted.
    pub fn generate_sensor_code(&self, sensor_type: &str) -> (r: Result<String, Error>)
        ensures
            sensor_type@ == "camera"@ ==> (r matches Ok(code) && code@ == py_camera_template()),
            sensor_type@ == "lidar"@ ==> (r matches Ok(code) && code@ == py_lidar_template()),
            sensor_type@ == "imu"@ ==> (r matches Ok(code) && code@ == py_imu_template()),
            sensor_type@ == "gps"@ ==> (r matches Ok(code) && code@ == py_gps_template()),
            sensor_type@ == "thermal"@ ==> (r matches Ok(code) && code@ == py_thermal_template()),
            !(sensor_type@ == "camera"@ || sensor_type@ == "lidar"@ || sensor_type@ == "imu"@
                || sensor_type@ == "gps"@ || sensor_type@ == "thermal"@) ==> (r matches Err(e)
                && (e matches Error::Sensor(m) && m@ == "Unknown sensor type"@)),
    {
        proof {
            reveal_strlit("camera");
            reveal_strlit("lidar");
            reveal_strlit("imu");
            reveal_strlit("gps");
            reveal_strlit("thermal");
            assert(("camera")@.len() == 6 && ("lidar")@.len() == 5 && ("imu")@.len() == 3
                && ("gps")@.len() == 3 && ("thermal")@.len() == 7);
            assert(("imu")@[0] != ("gps")@[0]);
        }
        let key = sensor_type.to_owned();
        if key.eq(&("camera").to_owned()) {
            return Ok(self.generate_camera_code());
        }
        if key.eq(&("lidar").to_owned()) {
            return Ok(self.generate_lidar_code());
        }
        if key.eq(&("imu").to_owned()) {
            return Ok(self.generate_imu_code());
        }
        if key.eq(&("gps").to_owned()) {
            return Ok(self.generate_gps_code());
        }
        if key.eq(&("thermal").to_owned()) {
            return Ok(self.generate_thermal_code());
        }
        Err(Error::sensor("Unknown sensor type"))
    }

    /// Emit the camera handler.
    fn generate_camera_code(&self) -> (r: String)
        ensures
            r@ == py_camera_template(),
    {
        (r#"
import asyncio
from typing import Optional, Dict, Any
from kova_sdk import KovaClient, CameraProcessor

class CameraHandler:
    def __init__(self, client: KovaClient):
        self.client = client
        self.processor = CameraProcessor()
    
    async def process_image(self, image_data: bytes) -> Optional[Dict[str, Any]]:
        try:
            # Process image
            processed = await self.processor.enhance(image_data)
            
            # Validate data
            validation = await self.client.validate_data(processed)
            
            if validation.is_valid:
                # Submit to network
                result = await self.client.submit_sensor_data(processed)
                return result
            else:
                print(f"Image validation failed: {validation.error}")
                return None
                
        except Exception as e:
            print(f"Error processing image: {e}")
            return None

async def main():
    client = KovaClient()
    handler = CameraHandler(client)
    
    # Process image
    with open("image.jpg", "rb") as f:
        image_data = f.read()
    
    result = await handler.process_image(image_data)
    if result:
        print(f"Image processed successfully: {result['hash']}")

if __name__ == "__main__":
    asyncio.run(main())
"#).to_owned()
    }

    /// Emit the LiDAR handler.
    fn generate_lidar_code(&self) -> (r: String)
        ensures
            r@ == py_lidar_template(),
    {
        (r#"
import asyncio
from typing import Optional, Dict, Any, List
from kova_sdk import KovaClient, LiDARProcessor

class LiDARHandler:
    def __init__(self, client: KovaClient):
        self.client = client
        self.processor = LiDARProcessor()
    
    async def process_pointcloud(self, pointcloud_data: bytes) -> Optional[Dict[str, Any]]:
        try:
            # Process point cloud
            processed = await self.processor.filter_outliers(pointcloud_data)
            
            # Validate data
            validation = await self.client.validate_data(processed)
            
            if validation.is_valid:
                # Submit to network
                result = await self.client.submit_sensor_data(processed)
                return result
            else:
                print(f"Point cloud validation failed: {validation.error}")
                return None
                
        except Exception as e:
            print(f"Error processing point cloud: {e}")
            return None

async def main():
    client = KovaClient()
    handler = LiDARHandler(client)
    
    # Process point cloud
    with open("pointcloud.pcd", "rb") as f:
        pointcloud_data = f.read()
    
    result = await handler.process_pointcloud(pointcloud_data)
    if result:
        print(f"Point cloud processed successfully: {result['hash']}")

if __name__ == "__main__":
    asyncio.run(main())
"#).to_owned()
    }

    /// Emit the IMU handler.
    fn generate_imu_code(&self) -> (r: String)
        ensures
            r@ == py_imu_template(),
    {
        (r#"
import asyncio
from typing import Optional, Dict, Any
from kova_sdk import KovaClient, IMUProcessor

class IMUHandler:
    def __init__(self, client: KovaClient):
        self.client = client
        self.processor = IMUProcessor()
    
    async def process_imu_data(self, imu_data: bytes) -> Optional[Dict[str, Any]]:
        try:
            # Process IMU data
            processed = await self.processor.calibrate(imu_data)
            
            # Validate data
            validation = await self.client.validate_data(processed)
            
            if validation.is_valid:
                # Submit to network
                result = await self.client.submit_sensor_data(processed)
                return result
            else:
                print(f"IMU validation failed: {validation.error}")
                return None
                
        except Exception as e:
            print(f"Error processing IMU data: {e}")
            return None

async def main():
    client = KovaClient()
    handler = IMUHandler(client)
    
    # Process IMU data
    with open("imu_data.csv", "rb") as f:
        imu_data = f.read()
    
    result = await handler.process_imu_data(imu_data)
    if result:
        print(f"IMU data processed successfully: {result['hash']}")

if __name__ == "__main__":
    asyncio.run(main())
"#).to_owned()
    }

    /// Emit the GPS handler.
    fn generate_gps_code(&self) -> (r: String)
        ensures
            r@ == py_gps_template(),
    {
        (r#"
import asyncio
from typing import Optional, Dict, Any, Tuple
from kova_sdk import KovaClient, GPSProcessor

class GPSHandler:
    def __init__(self, client: KovaClient):
        self.client = client
        self.processor = GPSProcessor()
    
    async def process_gps_data(self, gps_data: bytes) -> Optional[Dict[str, Any]]:
        try:
            # Process GPS data
            processed = await self.processor.validate_coordinates(gps_data)
            
            # Validate data
            validation = await self.client.validate_data(processed)
            
            if validation.is_valid:
                # Submit to network
                result = await self.client.submit_sensor_data(processed)
                return result
            else:
                print(f"GPS validation failed: {validation.error}")
                return None
                
        except Exception as e:
            print(f"Error processing GPS data: {e}")
            return None

async def main():
    client = KovaClient()
    handler = GPSHandler(client)
    
    # Process GPS data
    with open("gps_data.csv", "rb") as f:
        gps_data = f.read()
    
    result = await handler.process_gps_data(gps_data)
    if result:
        print(f"GPS data processed successfully: {result['hash']}")

if __name__ == "__main__":
    asyncio.run(main())
"#).to_owned()
    }

    /// Emit the thermal handler.
    fn generate_thermal_code(&self) -> (r: String)
        ensures
            r@ == py_thermal_template(),
    {
        (r#"
import asyncio
from typing import Optional, Dict, Any
from kova_sdk import KovaClient, ThermalProcessor

class ThermalHandler:
    def __init__(self, client: KovaClient):
        self.client = client
        self.processor = ThermalProcessor()
    
    async def process_thermal_data(self, thermal_data: bytes) -> Optional[Dict[str, Any]]:
        try:
            # Process thermal data
            processed = await self.processor.extract_temperature(thermal_data)
            
            # Validate data
            validation = await self.client.validate_data(processed)
            
            if validation.is_valid:
                # Submit to network
                result = await self.client.submit_sensor_data(processed)
                return result
            else:
                print(f"Thermal validation failed: {validation.error}")
                return None
                
        except Exception as e:
            print(f"Error processing thermal data: {e}")
            return None

async def main():
    client = KovaClient()
    handler = ThermalHandler(client)
    
    # Process thermal data
    with open("thermal.raw", "rb") as f:
        thermal_data = f.read()
    
    result = await handler.process_thermal_data(thermal_data)
    if result:
        print(f"Thermal data processed successfully: {result['hash']}")

if __name__ == "__main__":
    asyncio.run(main())
"#).to_owned()
    }

    /// Emit the Python wrapper around the SDK surface.
    pub fn generate_sdk_wrapper(&self) -> (r: String)
        ensures
            r@ == py_wrapper_template(),
    {
        (r#"
"""
Kova Python SDK Wrapper
"""

import asyncio
import json
from typing import Optional, Dict, Any, List
from dataclasses import dataclass
from datetime import datetime

@dataclass
class SensorData:
    sensor_id: str
    sensor_type: str
    data: bytes
    timestamp: datetime
    metadata: Dict[str, str]

@dataclass
class ValidationResult:
    quality_score: float
    is_valid: bool
    error: Optional[str] = None

class KovaClient:
    def __init__(self, api_endpoint: str = "http://localhost:8080"):
        self.api_endpoint = api_endpoint
        self.session = None
    
    async def __aenter__(self):
        self.session = aiohttp.ClientSession()
        return self
    
    async def __aexit__(self, exc_type, exc_val, exc_tb):
        if self.session:
            await self.session.close()
    
    async def validate_data(self, data: bytes) -> ValidationResult:
        # Implementation would go here
        return ValidationResult(quality_score=0.85, is_valid=True)
    
    async def submit_sensor_data(self, data: bytes) -> Dict[str, Any]:
        # Implementation would go here
        return {"hash": "mock_hash", "status": "submitted"}

# Sensor processors
class CameraProcessor:
    async def enhance(self, data: bytes) -> bytes:
        # Implementation would go here
        return data

class LiDARProcessor:
    async def filter_outliers(self, data: bytes) -> bytes:
        # Implementation would go here
        return data

class IMUProcessor:
    async def calibrate(self, data: bytes) -> bytes:
        # Implementation would go here
        return data

class GPSProcessor:
    async def validate_coordinates(self, data: bytes) -> bytes:
        # Implementation would go here
        return data

class ThermalProcessor:
    async def extract_temperature(self, data: bytes) -> bytes:
        # Implementation would go here
        return data
"#).to_owned()
    }
}

/// The text of the camera handler.
pub open spec fn py_camera_template() -> Seq<char> {
    (r#"
import asyncio
from typing import Optional, Dict, Any
from kova_sdk import KovaClient, CameraProcessor

class CameraHandler:
    def __init__(self, client: KovaClient):
        self.client = client
        self.processor = CameraProcessor()
    
    async def process_image(self, image_data: bytes) -> Optional[Dict[str, Any]]:
        try:
            # Process image
            processed = await self.processor.enhance(image_data)
            
            # Validate data
            validation = await self.client.validate_data(processed)
            
            if validation.is_valid:
                # Submit to network
                result = await self.client.submit_sensor_data(processed)
                return result
            else:
                print(f"Image validation failed: {validation.error}")
                return None
                
        except Exception as e:
            print(f"Error processing image: {e}")
            return None

async def main():
    client = KovaClient()
    handler = CameraHandler(client)
    
    # Process image
    with open("image.jpg", "rb") as f:
        image_data = f.read()
    
    result = await handler.process_image(image_data)
    if result:
        print(f"Image processed successfully: {result['hash']}")

if __name__ == "__main__":
    asyncio.run(main())
"#)@
}

/// The text of the LiDAR handler.
pub open spec fn py_lidar_template() -> Seq<char> {
    (r#"
import asyncio
from typing import Optional, Dict, Any, List
from kova_sdk import KovaClient, LiDARProcessor

class LiDARHandler:
    def __init__(self, client: KovaClient):
        self.client = client
        self.processor = LiDARProcessor()
    
    async def process_pointcloud(self, pointcloud_data: bytes) -> Optional[Dict[str, Any]]:
        try:
            # Process point cloud
            processed = await self.processor.filter_outliers(pointcloud_data)
            
            # Validate data
            validation = await self.client.validate_data(processed)
            
            if validation.is_valid:
                # Submit to network
                result = await self.client.submit_sensor_data(processed)
                return result
            else:
                print(f"Point cloud validation failed: {validation.error}")
                return None
                
        except Exception as e:
            print(f"Error processing point cloud: {e}")
            return None

async def main():
    client = KovaClient()
    handler = LiDARHandler(client)
    
    # Process point cloud
    with open("pointcloud.pcd", "rb") as f:
        pointcloud_data = f.read()
    
    result = await handler.process_pointcloud(pointcloud_data)
    if result:
        print(f"Point cloud processed successfully: {result['hash']}")

if __name__ == "__main__":
    asyncio.run(main())
"#)@
}

/// The text of the IMU handler.
pub open spec fn py_imu_template() -> Seq<char> {
    (r#"
import asyncio
from typing import Optional, Dict, Any
from kova_sdk import KovaClient, IMUProcessor

class IMUHandler:
    def __init__(self, client: KovaClient):
        self.client = client
        self.processor = IMUProcessor()
    
    async def process_imu_data(self, imu_data: bytes) -> Optional[Dict[str, Any]]:
        try:
            # Process IMU data
            processed = await self.processor.calibrate(imu_data)
            
            # Validate data
            validation = await self.client.validate_data(processed)
            
            if validation.is_valid:
                # Submit to network
                result = await self.client.submit_sensor_data(processed)
                return result
            else:
                print(f"IMU validation failed: {validation.error}")
                return None
                
        except Exception as e:
            print(f"Error processing IMU data: {e}")
            return None

async def main():
    client = KovaClient()
    handler = IMUHandler(client)
    
    # Process IMU data
    with open("imu_data.csv", "rb") as f:
        imu_data = f.read()
    
    result = await handler.process_imu_data(imu_data)
    if result:
        print(f"IMU data processed successfully: {result['hash']}")

if __name__ == "__main__":
    asyncio.run(main())
"#)@
}

/// The text of the GPS handler.
pub open spec fn py_gps_template() -> Seq<char> {
    (r#"
import asyncio
from typing import Optional, Dict, Any, Tuple
from kova_sdk import KovaClient, GPSProcessor

class GPSHandler:
    def __init__(self, client: KovaClient):
        self.client = client
        self.processor = GPSProcessor()
    
    async def process_gps_data(self, gps_data: bytes) -> Optional[Dict[str, Any]]:
        try:
            # Process GPS data
            processed = await self.processor.validate_coordinates(gps_data)
            
            # Validate data
            validation = await self.client.validate_data(processed)
            
            if validation.is_valid:
                # Submit to network
                result = await self.client.submit_sensor_data(processed)
                return result
            else:
                print(f"GPS validation failed: {validation.error}")
                return None
                
        except Exception as e:
            print(f"Error processing GPS data: {e}")
            return None

async def main():
    client = KovaClient()
    handler = GPSHandler(client)
    
    # Process GPS data
    with open("gps_data.csv", "rb") as f:
        gps_data = f.read()
    
    result = await handler.process_gps_data(gps_data)
    if result:
        print(f"GPS data processed successfully: {result['hash']}")

if __name__ == "__main__":
    asyncio.run(main())
"#)@
}

/// The text of the thermal handler.
pub open spec fn py_thermal_template() -> Seq<char> {
    (r#"
import asyncio
from typing import Optional, Dict, Any
from kova_sdk import KovaClient, ThermalProcessor

class ThermalHandler:
    def __init__(self, client: KovaClient):
        self.client = client
        self.processor = ThermalProcessor()
    
    async def process_thermal_data(self, thermal_data: bytes) -> Optional[Dict[str, Any]]:
        try:
            # Process thermal data
            processed = await self.processor.extract_temperature(thermal_data)
            
            # Validate data
            validation = await self.client.validate_data(processed)
            
            if validation.is_valid:
                # Submit to network
                result = await self.client.submit_sensor_data(processed)
                return result
            else:
                print(f"Thermal validation failed: {validation.error}")
                return None
                
        except Exception as e:
            print(f"Error processing thermal data: {e}")
            return None

async def main():
    client = KovaClient()
    handler = ThermalHandler(client)
    
    # Process thermal data
    with open("thermal.raw", "rb") as f:
        thermal_data = f.read()
    
    result = await handler.process_thermal_data(thermal_data)
    if result:
        print(f"Thermal data processed successfully: {result['hash']}")

if __name__ == "__main__":
    asyncio.run(main())
"#)@
}

/// The text of the Python wrapper.
pub open spec fn py_wrapper_template() -> Seq<char> {
    (r#"
"""
Kova Python SDK Wrapper
"""

import asyncio
import json
from typing import Optional, Dict, Any, List
from dataclasses import dataclass
from datetime import datetime

@dataclass
class SensorData:
    sensor_id: str
    sensor_type: str
    data: bytes
    timestamp: datetime
    metadata: Dict[str, str]

@dataclass
class ValidationResult:
    quality_score: float
    is_valid: bool
    error: Optional[str] = None

class KovaClient:
    def __init__(self, api_endpoint: str = "http://localhost:8080"):
        self.api_endpoint = api_endpoint
        self.session = None
    
    async def __aenter__(self):
        self.session = aiohttp.ClientSession()
        return self
    
    async def __aexit__(self, exc_type, exc_val, exc_tb):
        if self.session:
            await self.session.close()
    
    async def validate_data(self, data: bytes) -> ValidationResult:
        # Implementation would go here
        return ValidationResult(quality_score=0.85, is_valid=True)
    
    async def submit_sensor_data(self, data: bytes) -> Dict[str, Any]:
        # Implementation would go here
        return {"hash": "mock_hash", "status": "submitted"}

# Sensor processors
class CameraProcessor:
    async def enhance(self, data: bytes) -> bytes:
        # Implementation would go here
        return data

class LiDARProcessor:
    async def filter_outliers(self, data: bytes) -> bytes:
        # Implementation would go here
        return data

class IMUProcessor:
    async def calibrate(self, data: bytes) -> bytes:
        # Implementation would go here
        return data

class GPSProcessor:
    async def validate_coordinates(self, data: bytes) -> bytes:
        # Implementation would go here
        return data

class ThermalProcessor:
    async def extract_temperature(self, data: bytes) -> bytes:
        # Implementation would go here
        return data
"#)@
}

} // verus!
