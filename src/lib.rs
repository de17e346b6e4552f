//! Supervision of the backend sidecar process and persistence of the main
//! window's geometry for a desktop shell.
//!
//! The modules decide; the host performs. `supervisor` keeps the one child
//! handle, `health` classifies a probe of the backend, `startup` sequences
//! launch, start and polling, and `window_state` decides what is saved and
//! what is restored.

pub mod health;
pub mod startup;
pub mod supervisor;
pub mod window_state;
