//! An interactive data-exploration shell's verified core: source descriptors,
//! the command model, the session catalog, the command router's decisions and
//! the statistics planner.

pub mod conn;
pub mod command;
pub mod session;
pub mod router;
pub mod describe;
