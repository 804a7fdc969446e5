//! The applet registry and dispatch core of a multi-call binary: one
//! executable that acts as many command-line utilities, chosen by the name
//! it is invoked under.
//!
//! - `applets::applet_tables`: what is recorded of an applet, and the
//!   built-in table.
//! - `applets::name_order`: the order of applet names.
//! - `applets::builtin_order`: the proof that the built-in table is sorted.
//! - `applets::registry`: tables with strictly ascending names, and lookup
//!   by binary search.
//! - `applets::invocation`: which applet an invocation means, and the
//!   argument vector it is called with.
//! - `applets::privilege`: what an applet's policy asks for under given
//!   credentials.
//! - `applets::dispatch`: the course of an invocation from its start to the
//!   exit status.
//! - `librb`: plain records shared by the applets.
//! - `procps::lsof`: what the `lsof` applet computes.
//!
//! Nothing here touches the process or the file system. The caller reads
//! credentials, changes them and calls applet code; what to do and in which
//! order is decided here.

pub mod applets;
pub mod librb;
pub mod procps;
