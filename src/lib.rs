//! Start-up logic of a desktop application shell.
//!
//! The application is assembled from a default builder, to which two
//! capability plugins are attached (host shell access, then HTTP networking),
//! after which the framework's blocking run loop takes over. A failure of the
//! run loop ends the process with a fatal diagnostic.
//!
//! The decisions of that sequence are a small state machine, [`Bootstrap`]:
//! it is fed the events that the host reports and answers with the next
//! action to perform. The host itself (windows, web view, plugins) stays with
//! the caller.

pub mod bootstrap;
pub mod capability;
pub mod diagnostic;
pub mod laws;

pub use bootstrap::{Action, BootView, Bootstrap, Event, Stage};
pub use capability::{required_plugin, Capability, PLUGIN_COUNT};
pub use diagnostic::fatal_diagnostic;
