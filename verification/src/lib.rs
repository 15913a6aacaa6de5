//! Schema-mapping core for a flat key-value telemetry source.
//!
//! The library turns raw string-typed readings (`IoBrokerValue` entries in a
//! `RawMapping`) into strongly typed domain records: a fixed, ordered list of
//! `FieldSpec`s drives a fail-fast mapping into a `LambdaData` record, an
//! independent projection extracts temperature readings, and a bounded-retry
//! state machine governs how a fetch loop schedules its attempts.
//!
//! Numeric readings are carried as validated numeric text — the accept-set
//! of the float parse — and the unverified edges convert them to machine
//! floats when writing to a sink.

pub mod client;
pub mod mapper;
pub mod model_iobroker;
pub mod model_lambda;
pub mod model_temperature;
pub mod numeric;
