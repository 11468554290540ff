//! A reusable command-line scaffold: a fixed pair of built-in commands
//! (build and install) that a host program composes with its own command
//! enumeration.
//!
//! The library holds the decision logic: command dispatch, octal
//! permission-mode parsing, installation-path composition, and the ordered
//! step sequence of the install operation. Filesystem and subprocess work is
//! described by [`executor::Action`] values that the host performs, feeding
//! each outcome back as an [`executor::Event`].

pub mod commands;
pub mod errors;
pub mod mode;
pub mod executor;
pub mod paths;
