//! In-guest half of a host/guest bridge for virtualized application
//! execution: the decision core of a resident agent that services
//! privileged requests from a trusted host controller (mounting shared
//! directories, launching sandboxed applications, changing the keyboard
//! layout) and relays local events (clipboard changes, desktop
//! notifications, display hotplug) back to the host.
//!
//! The modules here hold the verified logic: data model, request
//! translation, target-path resolution, command construction, the
//! notification id allocator, clipboard echo suppression, and the
//! dispatcher's routing and acknowledgement rules. The surrounding
//! binary owns the threads, sockets and process execution and consults
//! these functions for every decision.

pub mod clipboard;
pub mod commands;
pub mod devices;
pub mod dispatch;
pub mod host;
pub mod message;
pub mod notifications;
pub mod paths;
pub mod supervisor;
