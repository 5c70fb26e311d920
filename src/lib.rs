//! Monitoring library for a battery management system (BMS) that speaks the
//! BMS-PCS protocol over an extended-identifier CAN bus.
//!
//! The library covers the wire format (identifier layout, payload decoders,
//! alarm interpretation, checksummed serial framing), the aggregate device
//! state that decoded frames are folded into, a simulated adapter, and the
//! decisions that drive polling and the vendor device API.

pub mod bms_parser;
pub mod bms_types;
pub mod can_handler;
pub mod commands;
pub mod itekon_handler;
mod clock;
