//! Verified core of a Bluetooth Low Energy plugin: device and scanner state
//! machines, error reporting, device records and pairing decisions.
pub mod text;
pub mod address;
pub mod error;
pub mod dictionary;
pub mod characteristic;
pub mod types;
pub mod string_set;
pub mod device;
pub mod device_laws;
pub mod scanner;
pub mod scanner_laws;
pub mod pairing;
