//! Verified core of a gateway that bridges an electric-vehicle battery pack's
//! CAN telemetry to a stationary inverter's CAN protocol.
//!
//! Every decision the gateway takes is a function of this library: frame
//! classification, multi-frame reassembly, block decoding, the canonical
//! battery state and its update discipline, the inverter frame set, the
//! safety verdict and the contactor sequence. Each function carries a
//! contract over a mathematical model of its data.

pub mod blocks;
pub mod buffer;
pub mod contactor;
pub mod diag;
pub mod encoder;
pub mod frame;
pub mod gateway;
pub mod keepalive;
pub mod leaf;
pub mod link;
pub mod rapid;
pub mod router;
pub mod state;
pub mod supervisor;
pub mod telemetry;
pub mod tesla;
