//! Telemetry and event-fusion core of a driving-safety appliance: sensor
//! history, diagnostics scheduling, validation and filtering, incident
//! fusion, alert gating and the bounded snapshot store.

pub mod alerts;
pub mod batcher;
pub mod camera;
pub mod can;
pub mod client;
pub mod cloud;
pub mod driver_state;
pub mod filter;
pub mod fusion;
pub mod inference;
pub mod pid;
pub mod protocol;
pub mod rate_limit;
pub mod repository;
pub mod ring_buffer;
pub mod road_scene;
pub mod routes;
pub mod scheduler;
pub mod sensor;
pub mod validator;
