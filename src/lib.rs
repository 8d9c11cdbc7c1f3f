//! Client library for the local HTTP API of a go-eCharger wallbox: decoding of the
//! status document into typed values, and encoding of the control writes.
pub mod connection;
pub mod energy;
pub mod field;
pub mod status;
pub mod text;

pub use connection::http::DirectHttpChargerConnection;
pub use connection::write::KeyWrite;
pub use energy::EnergySensorReading;
pub use field::{
    AccessState, AwattarPriceZone, CableCoding, CarStatus, GoEStatusError, PhaseStatus, StopState,
};
pub use status::{GoEStatus, StatusJson};
