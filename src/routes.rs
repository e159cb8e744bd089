pub mod alerts;
pub mod health;
pub mod predictions;
pub mod sensors;
