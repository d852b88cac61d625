//! Core logic of a small launcher for a local encrypted password store.
//!
//! The library holds everything that can be stated and proved: how the
//! store's directory walk is filtered into entry names, how the decrypt
//! tool's output is turned into a secret, how the automation commands'
//! arguments are composed, and the state machine that wires a confirm
//! action to the fixed decrypt-refocus-type pipeline. The window, the
//! external processes and the event loop live outside the library and hand
//! it plain values.

pub mod scanner;
pub mod choices;
pub mod retrieve;
pub mod automation;
pub mod session;
