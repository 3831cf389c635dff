//! A component lifecycle state machine in the style of the ESSOR/SCA interface.
//!
//! A component moves through `Inactive`, `Loaded`, `Ready` and `Running`,
//! driven by `config`, `start`, `stop` and `reset`; `test` runs a self-test
//! and `query` reports the status. A failed self-test puts the component in
//! the `Error` state, which only `reset` leaves.
//!
//! `model` holds the mathematical model that the contracts are written in,
//! `text` the verified rendering of numbers, `component` the executable
//! types and `laws` the properties that span several operations.

pub mod model;
pub mod text;
pub mod component;
pub mod laws;

pub use component::{
    Component, ComponentError, ComponentInterface, ComponentState, ComponentStatus, ConfigParams,
    TestResult,
};
