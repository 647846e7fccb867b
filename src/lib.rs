//! Serial-port session management, device inventory and build/flash process
//! planning for a microcontroller development helper.

pub mod inventory;
pub mod outside;
pub mod process;
pub mod session;
