//! Device-side logic of a serial-to-host bridge: the device identity and its serial
//! number, the sequenced ingest of serial chunks, the command-server reconnect loop,
//! the heartbeat and the USB descriptor.

pub mod heartbeat;
pub mod identity;
pub mod ingest;
pub mod server;
pub mod usb;
