//! Edge agent library: reverse-tunnel session multiplexing, mesh-proxy
//! routing and tenant authorization, node identity and registration
//! decisions, and the crypto primitives they share.

pub mod caddy;
pub mod config;
pub mod crypto;
pub mod deploy;
pub mod errors;
pub mod firewall;
pub mod frame;
pub mod hexcode;
pub mod mesh;
pub mod registration;
pub mod resolver;
pub mod services;
pub mod session;
pub mod stats;
pub mod storage;
pub mod text;
pub mod tunnel;
pub mod tunnel_mgr;
