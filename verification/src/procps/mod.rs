//! Applets that report on processes.

pub mod lsof;
