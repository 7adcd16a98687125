//! Well-known services of a device, each with index group and index offsets.

pub mod system_services;
