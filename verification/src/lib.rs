//! Locates the Pkl language-server executable on a workspace's search path
//! and wraps the found path into the launch command the host editor expects.

pub mod command;
pub mod host;
pub mod locator;
