//! Arcane Bridge: the hub that connects Monitor, Caster and Guilds over a
//! line-delimited JSON protocol, with its connection registry, shared state
//! and the status log shown in the Bridge Console.
pub mod text;
pub mod json;
pub mod status;
pub mod registry;
pub mod hub_state;
pub mod pending;
pub mod protocol;
pub mod handlers;
pub mod activity;
pub mod console;
pub mod zones;
pub mod laws;
pub mod tray;
pub mod launch;
