//! Verified decision logic of a C interface to a thermodynamic
//! equation-of-state engine: choosing the model that a configuration names,
//! matching binary parameter records to pure ones, checking state requests,
//! the dispatch table of residual Helmholtz-energy derivatives, and the
//! status-and-message channel through which failures are reported.

pub mod derivative;
pub mod document;
pub mod identifier;
pub mod matching;
pub mod message;
pub mod model;
pub mod selectors;
pub mod state;
pub mod text;
