//! Host-side protocol stack for driving an Apple mobile device over usbmuxd:
//! mux and lockdown framing, the CoreDeviceProxy tunnel handshake and packet
//! rules, the RemoteXPC port locator and DTX framing for location simulation.
//!
//! Every function here is pure computation on bytes and values; sockets, TLS,
//! the TUN adapter and the task runtime stay with the caller.

pub mod bytes;
pub mod property_list;
pub mod json;
pub mod usbmux;
pub mod cdp;
pub mod tunnel;
pub mod xpc;
pub mod dtservice;
pub mod device;
