//! The daemon's interfaces: convergence layer modules, routing agents,
//! WebSocket application agents and the guard of its web interface.
pub mod ecla;
pub mod erouting;
pub mod httpd;
pub mod rest;
pub mod ws;
