//! A modal informational popup for a terminal UI, with its visibility
//! state machine, event-consumption rules and command-bar contribution
//! stated and proved.

pub mod component;
pub mod input;
pub mod layout;
pub mod pull_request;
