//! A verified core for driving a television over HDMI-CEC through a
//! line-oriented control utility.
//!
//! The crate performs no input or output. It decides which lines are written
//! to the utility, reads the utility's power-status lines, and says which
//! state is handed to the attached state manager. The host carries those
//! decisions out.

pub mod text;
pub mod power;
pub mod command;
pub mod model;
pub mod action;
pub mod adapter;
pub mod laws;
pub mod launch;

pub use action::Action;
pub use adapter::HdmiCecProcess;
pub use launch::LaunchConfig;
pub use model::StateManagerHandle;
pub use power::PowerState;
