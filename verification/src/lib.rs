//! A verified smart-home device library: the wire protocol shared by
//! simulated device servers and their clients, the server-side request
//! dispatch, the client-side device mirrors with staleness-based cache
//! refresh, and the home/room registry that reads device status.

pub mod devices;
pub mod home;
pub mod numeral;
pub mod proto;
pub mod room;
pub mod server;
pub mod strutil;
