//! Register files of the CPU and the PPU. Each register stores its raw
//! bits and exposes flag-level accessors with exact bit contracts.

pub mod cpu_status;
pub mod controller;
pub mod mask;
pub mod status;
pub mod oamaddress;
pub mod oamdata;
pub mod data;
pub mod scroll;
pub mod address;
pub mod vram;
