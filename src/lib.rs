//! Start-up logic of a desktop shell: which capability plugins are
//! registered and in what order, and how the one-shot setup callback treats
//! the main window, decided by a verified state machine. The host drives the
//! machine: it performs each action and reports what happened as an event.

pub mod bootstrap;
pub mod capability;
pub mod window;
