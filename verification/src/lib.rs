//! Kill switch planning and VPN.ht API session logic, with the I/O left to the caller.

pub mod text;
pub mod command;
pub mod firewall;
pub mod killswitch;
pub mod killswitch_laws;
pub mod api;
pub mod api_laws;
