//! Preset management, command-line parsing, GUI session decisions and
//! system-proxy planning for the Aether WARP client, with their contracts
//! proved by Verus.

pub mod text;
pub mod preset;
pub mod cli;
pub mod gui;
pub mod system_proxy;
