//! Verified decision logic of the AegisPanel wall-panel daemon.

pub mod config;
pub mod face_id;
pub mod gpio_manager;
pub mod ha_client;
pub mod ipc_server;
pub mod ota;
pub mod panel;
pub mod power_manager;
pub mod recovery;
pub mod state_machine;
pub mod text;
