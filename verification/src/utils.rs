//! The virtual interface's bookkeeping and the system's routing table.

pub mod device;
pub mod sys_route;
pub mod text;
