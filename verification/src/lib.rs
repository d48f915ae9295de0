//! Install-plan construction and execution for a disk installer: partition
//! layouts, the staged commands that realise them, and the engine that runs a
//! plan command by command.

pub mod command;
pub mod config;
pub mod disk;
pub mod engine;
pub mod error;
pub mod filesystem;
pub mod layout_laws;
pub mod packages;
pub mod partition;
pub mod plan_laws;
pub mod scripted;
pub mod state;
pub mod tasks;
pub mod text;
