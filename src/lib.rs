//! Verified core of a real-time voice capture pipeline: device ids, sample
//! decoding, sample-rate bookkeeping, a sliding-window sample buffer and the
//! capture lifecycle.
pub mod capture;
pub mod cli;
pub mod decode;
pub mod device;
pub mod error;
pub mod resample;
pub mod ring;
