//! JavaScript SDK: emitted client code for sensor pipelines.
//!
//! The generators are pure: each emits a fixed source text for one sensor
//! kind, and the dispatcher accepts exactly the five known kinds.

use vstd::prelude::*;

use crate::error::Error;

verus! {

/// JavaScript SDK client.
pub struct JavaScriptSDK {
    config: JavaScriptSDKConfig,
}

/// JavaScript SDK configuration.
#[derive(Clone, Debug)]
pub struct JavaScriptSDKConfig {
    /// API endpoint.
    pub api_endpoint: String,
    /// Timeout in seconds.
    pub timeout_seconds: u64,
    /// API key.
    pub api_key: Option<String>,
    /// Enable WebSocket support.
    pub enable_websocket: bool,
    /// Enable TypeScript support.
    pub enable_typescript: bool,
}

impl Default for JavaScriptSDKConfig {
    /// Local endpoint, 30 s timeout, WebSocket and TypeScript on.
    fn default() -> (r: JavaScriptSDKConfig)
        ensures
            r.api_endpoint@ == "http://localhost:8080"@,
            r.timeout_seconds == 30,
            r.api_key is None,
            r.enable_websocket,
            r.enable_typescript,
    {
        JavaScriptSDKConfig {
            api_endpoint: ("http://localhost:8080").to_owned(),
            timeout_seconds: 30,
            api_key: None,
            enable_websocket: true,
            enable_typescript: true,
        }
    }
}

impl JavaScriptSDK {
    /// The configuration the client was built with.
    pub closed spec fn config(self) -> JavaScriptSDKConfig {
        self.config
    }

    /// Create a new JavaScript SDK client.
    pub fn new(config: JavaScriptSDKConfig) -> (r: Result<JavaScriptSDK, Error>)
        ensures
            r matches Ok(sdk) && sdk.config() == config,
    {
        Ok(JavaScriptSDK { config })
    }

    /// Emit the JavaScript processing code for one sensor kind. Exactly the
    /// five known kinds are accepted.
    pub fn generate_sensor_code(&self, sensor_type: &str) -> (r: Result<String, Error>)
        ensures
            sensor_type@ == "camera"@ ==> (r matches Ok(code) && code@ == js_camera_template()),
            sensor_type@ == "lidar"@ ==> (r matches Ok(code) && code@ == js_lidar_template()),
            sensor_type@ == "imu"@ ==> (r matches Ok(code) && code@ == js_imu_template()),
            sensor_type@ == "gps"@ ==> (r matches Ok(code) && code@ == js_gps_template()),
            sensor_type@ == "thermal"@ ==> (r matches Ok(code) && code@ == js_thermal_template()),
            !(sensor_type@ == "camera"@ || sensor_type@ == "lidar"@ || sensor_type@ == "imu"@
                || sensor_type@ == "gps"@ || sensor_type@ == "thermal"@) ==> (r matches Err(e)
                && (e matches Error::Sensor(m) && m@ == "Unknown sensor type"@)),
    {
        proof {
            reveal_strlit("camera");
            reveal_strlit("lidar");
            reveal_strlit("imu");
            reveal_strlit("gps");
            reveal_strlit("thermal");
            assert(("camera")@.len() == 6 && ("lidar")@.len() == 5 && ("imu")@.len() == 3
                && ("gps")@.len() == 3 && ("thermal")@.len() == 7);
            assert(("imu")@[0] != ("gps")@[0]);
        }
        let key = sensor_type.to_owned();
        if key.eq(&("camera").to_owned()) {
            return Ok(self.generate_camera_code());
        }
        if key.eq(&("lidar").to_owned()) {
            return Ok(self.generate_lidar_code());
        }
        if key.eq(&("imu").to_owned()) {
            return Ok(self.generate_imu_code());
        }
        if key.eq(&("gps").to_owned()) {
            return Ok(self.generate_gps_code());
        }
        if key.eq(&("thermal").to_owned()) {
            return Ok(self.generate_thermal_code());
        }
        Err(Error::sensor("Unknown sensor type"))
    }

    /// Emit the camera handler.
    fn generate_camera_code(&self) -> (r: String)
        ensures
            r@ == js_camera_template(),
    {
        (r#"
const { KovaClient, CameraProcessor } = require('kova-sdk');

class CameraHandler {
    constructor(client) {
        this.client = client;
        this.processor = new CameraProcessor();
    }
    
    async processImage(imageData) {
        try {
            // Process image
            const processed = await this.processor.enhance(imageData);
            
            // Validate data
            const validation = await this.client.validateData(processed);
            
            if (validation.isValid) {
                // Submit to network
                const result = await this.client.submitSensorData(processed);
                return result;
            } else {
                console.error(`Image validation failed: ${validation.error}`);
                return null;
            }
            
        } catch (error) {
            console.error(`Error processing image: ${error.message}`);
            return null;
        }
    }
}

async function main() {
    const client = new KovaClient();
    const handler = new CameraHandler(client);
    
    // Process image
    const fs = require('fs');
    const imageData = fs.readFileSync('image.jpg');
    
    const result = await handler.processImage(imageData);
    if (result) {
        console.log(`Image processed successfully: ${result.hash}`);
    }
}

if (require.main === module) {
    main().catch(console.error);
}
"#).to_owned()
    }

    /// Emit the LiDAR handler.
    fn generate_lidar_code(&self) -> (r: String)
        ensures
            r@ == js_lidar_template(),
    {
        (r#"
const { KovaClient, LiDARProcessor } = require('kova-sdk');

class LiDARHandler {
    constructor(client) {
        this.client = client;
        this.processor = new LiDARProcessor();
    }
    
    async processPointCloud(pointCloudData) {
        try {
            // Process point cloud
            const processed = await this.processor.filterOutliers(pointCloudData);
            
            // Validate data
            const validation = await this.client.validateData(processed);
            
            if (validation.isValid) {
                // Submit to network
                const result = await this.client.submitSensorData(processed);
                return result;
            } else {
                console.error(`Point cloud validation failed: ${validation.error}`);
                return null;
            }
            
        } catch (error) {
            console.error(`Error processing point cloud: ${error.message}`);
            return null;
        }
    }
}

async function main() {
    const client = new KovaClient();
    const handler = new LiDARHandler(client);
    
    // Process point cloud
    const fs = require('fs');
    const pointCloudData = fs.readFileSync('pointcloud.pcd');
    
    const result = await handler.processPointCloud(pointCloudData);
    if (result) {
        console.log(`Point cloud processed successfully: ${result.hash}`);
    }
}

if (require.main === module) {
    main().catch(console.error);
}
"#).to_owned()
    }

    /// Emit the IMU handler.
    fn generate_imu_code(&self) -> (r: String)
        ensures
            r@ == js_imu_template(),
    {
        (r#"
const { KovaClient, IMUProcessor } = require('kova-sdk');

class IMUHandler {
    constructor(client) {
        this.client = client;
        this.processor = new IMUProcessor();
    }
    
    async processIMUData(imuData) {
        try {
            // Process IMU data
            const processed = await this.processor.calibrate(imuData);
            
            // Validate data
            const validation = await this.client.validateData(processed);
            
            if (validation.isValid) {
                // Submit to network
                const result = await this.client.submitSensorData(processed);
                return result;
            } else {
                console.error(`IMU validation failed: ${validation.error}`);
                return null;
            }
            
        } catch (error) {
            console.error(`Error processing IMU data: ${error.message}`);
            return null;
        }
    }
}

async function main() {
    const client = new KovaClient();
    const handler = new IMUHandler(client);
    
    // Process IMU data
    const fs = require('fs');
    const imuData = fs.readFileSync('imu_data.csv');
    
    const result = await handler.processIMUData(imuData);
    if (result) {
        console.log(`IMU data processed successfully: ${result.hash}`);
    }
}

if (require.main === module) {
    main().catch(console.error);
}
"#).to_owned()
    }

    /// Emit the GPS handler.
    fn generate_gps_code(&self) -> (r: String)
        ensures
            r@ == js_gps_template(),
    {
        (r#"
const { KovaClient, GPSProcessor } = require('kova-sdk');

class GPSHandler {
    constructor(client) {
        this.client = client;
        this.processor = new GPSProcessor();
    }
    
    async processGPSData(gpsData) {
        try {
            // Process GPS data
            const processed = await this.processor.validateCoordinates(gpsData);
            
            // Validate data
            const validation = await this.client.validateData(processed);
            
            if (validation.isValid) {
                // Submit to network
                const result = await this.client.submitSensorData(processed);
                return result;
            } else {
                console.error(`GPS validation failed: ${validation.error}`);
                return null;
            }
            
        } catch (error) {
            console.error(`Error processing GPS data: ${error.message}`);
            return null;
        }
    }
}

async function main() {
    const client = new KovaClient();
    const handler = new GPSHandler(client);
    
    // Process GPS data
    const fs = require('fs');
    const gpsData = fs.readFileSync('gps_data.csv');
    
    const result = await handler.processGPSData(gpsData);
    if (result) {
        console.log(`GPS data processed successfully: ${result.hash}`);
    }
}

if (require.main === module) {
    main().catch(console.error);
}
"#).to_owned()
    }

    /// Emit the thermal handler.
    fn generate_thermal_code(&self) -> (r: String)
        ensures
            r@ == js_thermal_template(),
    {
        (r#"
const { KovaClient, ThermalProcessor } = require('kova-sdk');

class ThermalHandler {
    constructor(client) {
        this.client = client;
        this.processor = new ThermalProcessor();
    }
    
    async processThermalData(thermalData) {
        try {
            // Process thermal data
            const processed = await this.processor.extractTemperature(thermalData);
            
            // Validate data
            const validation = await this.client.validateData(processed);
            
            if (validation.isValid) {
                // Submit to network
                const result = await this.client.submitSensorData(processed);
                return result;
            } else {
                console.error(`Thermal validation failed: ${validation.error}`);
                return null;
            }
            
        } catch (error) {
            console.error(`Error processing thermal data: ${error.message}`);
            return null;
        }
    }
}

async function main() {
    const client = new KovaClient();
    const handler = new ThermalHandler(client);
    
    // Process thermal data
    const fs = require('fs');
    const thermalData = fs.readFileSync('thermal.raw');
    
    const result = await handler.processThermalData(thermalData);
    if (result) {
        console.log(`Thermal data processed successfully: ${result.hash}`);
    }
}

if (require.main === module) {
    main().catch(console.error);
}
"#).to_owned()
    }

    /// Emit the TypeScript definitions of the SDK surface.
    pub fn generate_typescript_definitions(&self) -> (r: String)
        ensures
            r@ == ts_definitions_template(),
    {
        (r#"
/**
 * Kova JavaScript SDK TypeScript Definitions
 */

export interface SensorData {
    sensorId: string;
    sensorType: string;
    data: Buffer;
    timestamp: Date;
    metadata: Record<string, string>;
}

export interface ValidationResult {
    qualityScore: number;
    isValid: boolean;
    error?: string;
}

export interface SDKResponse<T> {
    success: boolean;
    data?: T;
    error?: string;
    timestamp: Date;
}

export class KovaClient {
    constructor(apiEndpoint?: string);
    
    async validateData(data: Buffer): Promise<ValidationResult>;
    async submitSensorData(data: Buffer): Promise<SDKResponse<{ hash: string; status: string }>>;
    async getValidationResult(id: string): Promise<SDKResponse<ValidationResult>>;
    async submitContribution(contribution: Contribution): Promise<SDKResponse<string>>;
}

export class CameraProcessor {
    async enhance(data: Buffer): Promise<Buffer>;
    async resize(data: Buffer, width: number, height: number): Promise<Buffer>;
    async denoise(data: Buffer): Promise<Buffer>;
}

export class LiDARProcessor {
    async filterOutliers(data: Buffer): Promise<Buffer>;
    async downsample(data: Buffer, voxelSize: number): Promise<Buffer>;
    async crop(data: Buffer, bounds: BoundingBox): Promise<Buffer>;
}

export class IMUProcessor {
    async calibrate(data: Buffer): Promise<Buffer>;
    async correctBias(data: Buffer): Promise<Buffer>;
    async calculateOrientation(data: Buffer): Promise<Orientation>;
}

export class GPSProcessor {
    async validateCoordinates(data: Buffer): Promise<Buffer>;
    async toUTM(data: Buffer): Promise<UTMCoordinates>;
    async toLocal(data: Buffer, reference: Coordinates): Promise<LocalCoordinates>;
}

export class ThermalProcessor {
    async extractTemperature(data: Buffer): Promise<Buffer>;
    async detectHotSpots(data: Buffer, threshold: number): Promise<HotSpot[]>;
    async getTemperatureProfile(data: Buffer): Promise<TemperatureProfile>;
}

export interface Contribution {
    sensorDataHash: string;
    validatorSignature: string;
    qualityScore: number;
    timestamp: Date;
}

export interface BoundingBox {
    min: [number, number, number];
    max: [number, number, number];
}

export interface Orientation {
    roll: number;
    pitch: number;
    yaw: number;
}

export interface UTMCoordinates {
    x: number;
    y: number;
    z: number;
    zone: number;
    hemisphere: 'N' | 'S';
}

export interface Coordinates {
    latitude: number;
    longitude: number;
    altitude: number;
}

export interface LocalCoordinates {
    x: number;
    y: number;
    z: number;
}

export interface HotSpot {
    x: number;
    y: number;
    temperature: number;
}

export interface TemperatureProfile {
    min: number;
    max: number;
    average: number;
    distribution: number[];
}
"#).to_owned()
    }

    /// Emit the package manifest of the emitted SDK.
    pub fn generate_package_json(&self) -> (r: String)
        ensures
            r@ == package_json_template(),
    {
        (r#"
{
  "name": "kova-sdk",
  "version": "1.0.0",
  "description": "JavaScript SDK for Kova decentralized robotics network",
  "main": "dist/index.js",
  "types": "dist/index.d.ts",
  "scripts": {
    "build": "tsc",
    "dev": "tsc --watch",
    "test": "jest",
    "lint": "eslint src/**/*.ts",
    "format": "prettier --write src/**/*.ts"
  },
  "keywords": [
    "robotics",
    "sensors",
    "blockchain",
    "decentralized",
    "kova"
  ],
  "author": "Kova Systems",
  "license": "MIT",
  "dependencies": {
    "axios": "^1.6.0",
    "ws": "^8.14.0",
    "buffer": "^6.0.3"
  },
  "devDependencies": {
    "@types/node": "^20.0.0",
    "@types/ws": "^8.5.0",
    "@typescript-eslint/eslint-plugin": "^6.0.0",
    "@typescript-eslint/parser": "^6.0.0",
    "eslint": "^8.0.0",
    "jest": "^29.0.0",
    "prettier": "^3.0.0",
    "typescript": "^5.0.0"
  },
  "engines": {
    "node": ">=16.0.0"
  }
}
"#).to_owned()
    }
}

/// The text of the camera handler.
pub open spec fn js_camera_template() -> Seq<char> {
    (r#"
const { KovaClient, CameraProcessor } = require('kova-sdk');

class CameraHandler {
    constructor(client) {
        this.client = client;
        this.processor = new CameraProcessor();
    }
    
    async processImage(imageData) {
        try {
            // Process image
            const processed = await this.processor.enhance(imageData);
            
            // Validate data
            const validation = await this.client.validateData(processed);
            
            if (validation.isValid) {
                // Submit to network
                const result = await this.client.submitSensorData(processed);
                return result;
            } else {
                console.error(`Image validation failed: ${validation.error}`);
                return null;
            }
            
        } catch (error) {
            console.error(`Error processing image: ${error.message}`);
            return null;
        }
    }
}

async function main() {
    const client = new KovaClient();
    const handler = new CameraHandler(client);
    
    // Process image
    const fs = require('fs');
    const imageData = fs.readFileSync('image.jpg');
    
    const result = await handler.processImage(imageData);
    if (result) {
        console.log(`Image processed successfully: ${result.hash}`);
    }
}

if (require.main === module) {
    main().catch(console.error);
}
"#)@
}

/// The text of the LiDAR handler.
pub open spec fn js_lidar_template() -> Seq<char> {
    (r#"
const { KovaClient, LiDARProcessor } = require('kova-sdk');

class LiDARHandler {
    constructor(client) {
        this.client = client;
        this.processor = new LiDARProcessor();
    }
    
    async processPointCloud(pointCloudData) {
        try {
            // Process point cloud
            const processed = await this.processor.filterOutliers(pointCloudData);
            
            // Validate data
            const validation = await this.client.validateData(processed);
            
            if (validation.isValid) {
                // Submit to network
                const result = await this.client.submitSensorData(processed);
                return result;
            } else {
                console.error(`Point cloud validation failed: ${validation.error}`);
                return null;
            }
            
        } catch (error) {
            console.error(`Error processing point cloud: ${error.message}`);
            return null;
        }
    }
}

async function main() {
    const client = new KovaClient();
    const handler = new LiDARHandler(client);
    
    // Process point cloud
    const fs = require('fs');
    const pointCloudData = fs.readFileSync('pointcloud.pcd');
    
    const result = await handler.processPointCloud(pointCloudData);
    if (result) {
        console.log(`Point cloud processed successfully: ${result.hash}`);
    }
}

if (require.main === module) {
    main().catch(console.error);
}
"#)@
}

/// The text of the IMU handler.
pub open spec fn js_imu_template() -> Seq<char> {
    (r#"
const { KovaClient, IMUProcessor } = require('kova-sdk');

class IMUHandler {
    constructor(client) {
        this.client = client;
        this.processor = new IMUProcessor();
    }
    
    async processIMUData(imuData) {
        try {
            // Process IMU data
            const processed = await this.processor.calibrate(imuData);
            
            // Validate data
            const validation = await this.client.validateData(processed);
            
            if (validation.isValid) {
                // Submit to network
                const result = await this.client.submitSensorData(processed);
                return result;
            } else {
                console.error(`IMU validation failed: ${validation.error}`);
                return null;
            }
            
        } catch (error) {
            console.error(`Error processing IMU data: ${error.message}`);
            return null;
        }
    }
}

async function main() {
    const client = new KovaClient();
    const handler = new IMUHandler(client);
    
    // Process IMU data
    const fs = require('fs');
    const imuData = fs.readFileSync('imu_data.csv');
    
    const result = await handler.processIMUData(imuData);
    if (result) {
        console.log(`IMU data processed successfully: ${result.hash}`);
    }
}

if (require.main === module) {
    main().catch(console.error);
}
"#)@
}

/// The text of the GPS handler.
pub open spec fn js_gps_template() -> Seq<char> {
    (r#"
const { KovaClient, GPSProcessor } = require('kova-sdk');

class GPSHandler {
    constructor(client) {
        this.client = client;
        this.processor = new GPSProcessor();
    }
    
    async processGPSData(gpsData) {
        try {
            // Process GPS data
            const processed = await this.processor.validateCoordinates(gpsData);
            
            // Validate data
            const validation = await this.client.validateData(processed);
            
            if (validation.isValid) {
                // Submit to network
                const result = await this.client.submitSensorData(processed);
                return result;
            } else {
                console.error(`GPS validation failed: ${validation.error}`);
                return null;
            }
            
        } catch (error) {
            console.error(`Error processing GPS data: ${error.message}`);
            return null;
        }
    }
}

async function main() {
    const client = new KovaClient();
    const handler = new GPSHandler(client);
    
    // Process GPS data
    const fs = require('fs');
    const gpsData = fs.readFileSync('gps_data.csv');
    
    const result = await handler.processGPSData(gpsData);
    if (result) {
        console.log(`GPS data processed successfully: ${result.hash}`);
    }
}

if (require.main === module) {
    main().catch(console.error);
}
"#)@
}

/// The text of the thermal handler.
pub open spec fn js_thermal_template() -> Seq<char> {
    (r#"
const { KovaClient, ThermalProcessor } = require('kova-sdk');

class ThermalHandler {
    constructor(client) {
        this.client = client;
        this.processor = new ThermalProcessor();
    }
    
    async processThermalData(thermalData) {
        try {
            // Process thermal data
            const processed = await this.processor.extractTemperature(thermalData);
            
            // Validate data
            const validation = await this.client.validateData(processed);
            
            if (validation.isValid) {
                // Submit to network
                const result = await this.client.submitSensorData(processed);
                return result;
            } else {
                console.error(`Thermal validation failed: ${validation.error}`);
                return null;
            }
            
        } catch (error) {
            console.error(`Error processing thermal data: ${error.message}`);
            return null;
        }
    }
}

async function main() {
    const client = new KovaClient();
    const handler = new ThermalHandler(client);
    
    // Process thermal data
    const fs = require('fs');
    const thermalData = fs.readFileSync('thermal.raw');
    
    const result = await handler.processThermalData(thermalData);
    if (result) {
        console.log(`Thermal data processed successfully: ${result.hash}`);
    }
}

if (require.main === module) {
    main().catch(console.error);
}
"#)@
}

/// The text of the TypeScript definitions.
pub open spec fn ts_definitions_template() -> Seq<char> {
    (r#"
/**
 * Kova JavaScript SDK TypeScript Definitions
 */

export interface SensorData {
    sensorId: string;
    sensorType: string;
    data: Buffer;
    timestamp: Date;
    metadata: Record<string, string>;
}

export interface ValidationResult {
    qualityScore: number;
    isValid: boolean;
    error?: string;
}

export interface SDKResponse<T> {
    success: boolean;
    data?: T;
    error?: string;
    timestamp: Date;
}

export class KovaClient {
    constructor(apiEndpoint?: string);
    
    async validateData(data: Buffer): Promise<ValidationResult>;
    async submitSensorData(data: Buffer): Promise<SDKResponse<{ hash: string; status: string }>>;
    async getValidationResult(id: string): Promise<SDKResponse<ValidationResult>>;
    async submitContribution(contribution: Contribution): Promise<SDKResponse<string>>;
}

export class CameraProcessor {
    async enhance(data: Buffer): Promise<Buffer>;
    async resize(data: Buffer, width: number, height: number): Promise<Buffer>;
    async denoise(data: Buffer): Promise<Buffer>;
}

export class LiDARProcessor {
    async filterOutliers(data: Buffer): Promise<Buffer>;
    async downsample(data: Buffer, voxelSize: number): Promise<Buffer>;
    async crop(data: Buffer, bounds: BoundingBox): Promise<Buffer>;
}

export class IMUProcessor {
    async calibrate(data: Buffer): Promise<Buffer>;
    async correctBias(data: Buffer): Promise<Buffer>;
    async calculateOrientation(data: Buffer): Promise<Orientation>;
}

export class GPSProcessor {
    async validateCoordinates(data: Buffer): Promise<Buffer>;
    async toUTM(data: Buffer): Promise<UTMCoordinates>;
    async toLocal(data: Buffer, reference: Coordinates): Promise<LocalCoordinates>;
}

export class ThermalProcessor {
    async extractTemperature(data: Buffer): Promise<Buffer>;
    async detectHotSpots(data: Buffer, threshold: number): Promise<HotSpot[]>;
    async getTemperatureProfile(data: Buffer): Promise<TemperatureProfile>;
}

export interface Contribution {
    sensorDataHash: string;
    validatorSignature: string;
    qualityScore: number;
    timestamp: Date;
}

export interface BoundingBox {
    min: [number, number, number];
    max: [number, number, number];
}

export interface Orientation {
    roll: number;
    pitch: number;
    yaw: number;
}

export interface UTMCoordinates {
    x: number;
    y: number;
    z: number;
    zone: number;
    hemisphere: 'N' | 'S';
}

export interface Coordinates {
    latitude: number;
    longitude: number;
    altitude: number;
}

export interface LocalCoordinates {
    x: number;
    y: number;
    z: number;
}

export interface HotSpot {
    x: number;
    y: number;
    temperature: number;
}

export interface TemperatureProfile {
    min: number;
    max: number;
    average: number;
    distribution: number[];
}
"#)@
}

/// The text of the package manifest.
pub open spec fn package_json_template() -> Seq<char> {
    (r#"
{
  "name": "kova-sdk",
  "version": "1.0.0",
  "description": "JavaScript SDK for Kova decentralized robotics network",
  "main": "dist/index.js",
  "types": "dist/index.d.ts",
  "scripts": {
    "build": "tsc",
    "dev": "tsc --watch",
    "test": "jest",
    "lint": "eslint src/**/*.ts",
    "format": "prettier --write src/**/*.ts"
  },
  "keywords": [
    "robotics",
    "sensors",
    "blockchain",
    "decentralized",
    "kova"
  ],
  "author": "Kova Systems",
  "license": "MIT",
  "dependencies": {
    "axios": "^1.6.0",
    "ws": "^8.14.0",
    "buffer": "^6.0.3"
  },
  "devDependencies": {
    "@types/node": "^20.0.0",
    "@types/ws": "^8.5.0",
    "@typescript-eslint/eslint-plugin": "^6.0.0",
    "@typescript-eslint/parser": "^6.0.0",
    "eslint": "^8.0.0",
    "jest": "^29.0.0",
    "prettier": "^3.0.0",
    "typescript": "^5.0.0"
  },
  "engines": {
    "node": ">=16.0.0"
  }
}
"#)@
}

} // verus!
