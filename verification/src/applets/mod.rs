//! Applet descriptors, the registry that holds them, and the steps from an
//! invocation to the call of an applet.

pub mod applet_tables;
pub mod builtin_order;
pub mod dispatch;
pub mod invocation;
pub mod name_order;
pub mod privilege;
pub mod registry;
