//! IP neighbourhood discovery.
pub mod beacon;
pub mod services;
