//! The typed IPC surface: wire data shapes (`dto`) and the decisions the
//! commands make over them.

pub mod commands;
pub mod dto;
pub mod publication;
pub mod guidance;
pub mod recovery;
pub mod wrong_root;
pub mod catalog_repair;
