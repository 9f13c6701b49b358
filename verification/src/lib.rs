//! Verified decision logic of a build tool's client and cancellation machinery.
pub mod slabs;
pub mod cancellation;
pub mod task_critical;
pub mod associated;
pub mod console;
pub mod memory;
pub mod commands;
pub mod server_commands;
pub mod attrs;
