//! The logic of a system monitor with a motion-sensor pipeline: report
//! decoding, device discovery, the acquisition state machine, and the
//! settings, commands and wordings around them.
//!
//! The library touches no device, file or terminal. Its caller opens the
//! sensor, reads reports on a timer and hands every outcome in; what comes
//! back is a reading, a decision, or a text to show.

pub mod channel;
pub mod config;
pub mod decoder;
pub mod discovery;
pub mod display;
pub mod error;
pub mod installer;
pub mod manager;
pub mod reading;
pub mod text;

pub use channel::Update;
pub use config::{
    CommandError, ConfigManager, HerculesConfig, Property, PropertyError, SensorConfig,
};
pub use decoder::{
    decode_report, parse_count, parse_float, read_sensor_data, ACCEL_COUNTS_PER_UNIT,
    GYRO_COUNTS_PER_UNIT, REPORT_CAPACITY,
};
pub use discovery::{
    discovery_candidates, find_supported_sensor, looks_like_motion_sensor, supported_sensors,
    DeviceId, HidDeviceInfo, KnownSensor,
};
pub use display::format_uptime;
pub use error::SensorError;
pub use installer::{action_for_choice, choose_action, InstallerAction};
pub use manager::{
    initialize_sensors, AcquisitionState, LoopControl, SensorManager, READ_TIMEOUT_MS,
    UPDATE_CHANNEL_CAPACITY,
};
pub use reading::{Quantity, SensorData};
