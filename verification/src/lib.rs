//! Verified core of the NSPopover plugin: the popover state that the plugin
//! keeps, the decisions it takes on commands and tray clicks, the command
//! table it exposes, and the plain data that the Objective-C glue needs.
pub mod action;
pub mod commands;
pub mod delegate;
pub mod laws;
pub mod popover;
pub mod tray;
