//! Filo: device identities, mDNS service records and the command protocol of the
//! peer-to-peer network layer, with their behaviour stated and proved.

pub mod connection;
pub mod device;
pub mod encoding;
pub mod error;
pub mod identify;
pub mod keys;
pub mod network;
pub mod text;
