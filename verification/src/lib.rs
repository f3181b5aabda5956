//! Register decoding for Finder 7M.24 series energy meters.
//!
//! The meter exposes its readings as 16-bit field-bus registers in a
//! vendor-specific family of binary encodings.  This crate decodes raw
//! register words into typed numeric values: plain unsigned and signed
//! words, 32-bit signed longs, decade-scaled measurements, power factors
//! and IEEE-754 single-precision bit patterns.

pub mod measurement;
pub mod modbus_datatypes;
