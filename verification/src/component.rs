//! The component, its interface and the values that its operations exchange.

use vstd::prelude::*;

use crate::model::{
    config_step, describe, error_message, initial, reset_step, start_step,
    state_label, stop_step, test_step, with_state, ComponentView, ErrorView, ReportView,
    StateView,
};
use crate::text::push_decimal;

verus! {

/// Possible states of a component.
#[derive(Debug, PartialEq, Eq)]
pub enum ComponentState {
    /// Component exists but has not been loaded or configured.
    Inactive,
    /// Component has been loaded with initial configuration.
    Loaded,
    /// Component is fully configured and ready to be started.
    Ready,
    /// Component is actively running.
    Running,
    /// Component encountered an error; must be reset before reuse.
    Error(String),
}

impl View for ComponentState {
    type V = StateView;

    open spec fn view(&self) -> StateView {
        match self {
            ComponentState::Inactive => StateView::Inactive,
            ComponentState::Loaded => StateView::Loaded,
            ComponentState::Ready => StateView::Ready,
            ComponentState::Running => StateView::Running,
            ComponentState::Error(msg) => StateView::Error(msg@),
        }
    }
}

impl Clone for ComponentState {
    fn clone(&self) -> (r: Self)
        ensures
            r == *self,
    {
        match self {
            ComponentState::Inactive => ComponentState::Inactive,
            ComponentState::Loaded => ComponentState::Loaded,
            ComponentState::Ready => ComponentState::Ready,
            ComponentState::Running => ComponentState::Running,
            ComponentState::Error(msg) => ComponentState::Error(msg.clone()),
        }
    }
}

impl ComponentState {
    /// The label of the state: `INACTIVE`, `LOADED`, `READY`, `RUNNING`, or
    /// `ERROR(message)`.
    pub fn to_string(&self) -> (r: String)
        ensures
            r@ == state_label(self@),
    {
        match self {
            ComponentState::Inactive => String::from_str("INACTIVE"),
            ComponentState::Loaded => String::from_str("LOADED"),
            ComponentState::Ready => String::from_str("READY"),
            ComponentState::Running => String::from_str("RUNNING"),
            ComponentState::Error(msg) => {
                let mut out = String::from_str("ERROR(");
                out.append(msg.as_str());
                out.append(")");
                out
            },
        }
    }
}

/// Errors returned by component operations.
#[derive(Debug, Clone, PartialEq, Eq)]
pub enum ComponentError {
    /// The requested method is not valid in the current state.
    InvalidTransition { current: ComponentState, operation: &'static str },
    /// An internal error occurred during the operation.
    InternalError(String),
}

impl View for ComponentError {
    type V = ErrorView;

    open spec fn view(&self) -> ErrorView {
        match self {
            ComponentError::InvalidTransition { current, operation } => ErrorView::InvalidTransition {
                current: current@,
                operation: operation@,
            },
            ComponentError::InternalError(msg) => ErrorView::InternalError(msg@),
        }
    }
}

impl ComponentError {
    /// The message of the error: which call was refused in which state, or
    /// the internal error's message.
    pub fn to_string(&self) -> (r: String)
        ensures
            r@ == error_message(self@),
    {
        match self {
            ComponentError::InvalidTransition { current, operation } => {
                let label = current.to_string();
                let mut out = String::from_str("Cannot call '");
                out.append(operation);
                out.append("' while in state '");
                out.append(label.as_str());
                out.append("'");
                out
            },
            ComponentError::InternalError(msg) => {
                let mut out = String::from_str("Internal error: ");
                out.append(msg.as_str());
                out
            },
        }
    }
}

/// Configuration parameters passed to `config()`.
#[derive(Debug, Clone)]
pub struct ConfigParams {
    /// Arbitrary key–value pairs for component configuration.
    pub entries: Vec<(String, String)>,
}

impl View for ConfigParams {
    type V = Seq<(Seq<char>, Seq<char>)>;

    open spec fn view(&self) -> Seq<(Seq<char>, Seq<char>)> {
        self.entries.deep_view()
    }
}

impl Default for ConfigParams {
    fn default() -> (r: Self)
        ensures
            r@ == Seq::<(Seq<char>, Seq<char>)>::empty(),
    {
        ConfigParams { entries: Vec::new() }
    }
}

impl ConfigParams {
    /// Create a new, empty `ConfigParams`.
    pub fn new() -> (r: Self)
        ensures
            r@ == Seq::<(Seq<char>, Seq<char>)>::empty(),
    {
        ConfigParams { entries: Vec::new() }
    }

    /// Add a configuration entry after those already there.
    pub fn with(self, key: &str, value: &str) -> (r: Self)
        ensures
            r@ == self@.push((key@, value@)),
    {
        let mut entries = self.entries;
        entries.push((String::from_str(key), String::from_str(value)));
        assert(entries.deep_view() =~= self@.push((key@, value@)));
        ConfigParams { entries }
    }
}

/// Status snapshot returned by `query()`.
#[derive(Debug, Clone)]
pub struct ComponentStatus {
    pub state: ComponentState,
    pub description: String,
}

/// Result returned by `test()`.
#[derive(Debug, Clone)]
pub struct TestResult {
    pub passed: bool,
    pub details: String,
}

impl View for TestResult {
    type V = ReportView;

    open spec fn view(&self) -> ReportView {
        ReportView { passed: self.passed, details: self.details@ }
    }
}

/// The abstract outcome of an operation that returns nothing on success.
pub open spec fn outcome(r: Result<(), ComponentError>) -> Result<(), ErrorView> {
    match r {
        Ok(()) => Ok(()),
        Err(e) => Err(e@),
    }
}

/// The abstract outcome of a self-test.
pub open spec fn test_outcome(r: Result<TestResult, ComponentError>) -> Result<
    ReportView,
    ErrorView,
> {
    match r {
        Ok(t) => Ok(t@),
        Err(e) => Err(e@),
    }
}

/// Interface that every component implements.
///
/// Each method drives the internal state machine. Calling a method that is
/// not valid in the current state returns `ComponentError::InvalidTransition`.
pub trait ComponentInterface {
    /// Start the component (Ready → Running).
    fn start(&mut self) -> Result<(), ComponentError>;

    /// Stop the component (Running → Ready).
    fn stop(&mut self) -> Result<(), ComponentError>;

    /// Reset the component to its initial state (any → Inactive).
    fn reset(&mut self) -> Result<(), ComponentError>;

    /// Query the current status of the component (read-only).
    fn query(&self) -> ComponentStatus;

    /// Apply configuration parameters (Inactive → Loaded, or Loaded → Ready).
    fn config(&mut self, params: ConfigParams) -> Result<(), ComponentError>;

    /// Run the built-in self-test (valid in Loaded or Ready states).
    fn test(&mut self) -> Result<TestResult, ComponentError>;
}

/// A concrete component that implements the lifecycle.
pub struct Component {
    name: String,
    state: ComponentState,
    config: Vec<(String, String)>,
}

impl View for Component {
    type V = ComponentView;

    closed spec fn view(&self) -> ComponentView {
        ComponentView { name: self.name@, state: self.state@, config: self.config.deep_view() }
    }
}

impl Component {
    /// Create a new component in the `Inactive` state.
    pub fn new(name: &str) -> (c: Self)
        ensures
            c@ == initial(name@),
    {
        let c = Component {
            name: String::from_str(name),
            state: ComponentState::Inactive,
            config: Vec::new(),
        };
        assert(c@.config =~= Seq::<(Seq<char>, Seq<char>)>::empty());
        c
    }

    /// Return a reference to the current state.
    pub fn state(&self) -> (r: &ComponentState)
        ensures
            r@ == self@.state,
    {
        &self.state
    }

    /// Return the component name.
    pub fn name(&self) -> (r: &str)
        ensures
            r@ == self@.name,
    {
        self.name.as_str()
    }

    /// Move to the error state with `msg`, and give the matching error.
    fn fail(&mut self, msg: &str) -> (e: ComponentError)
        ensures
            final(self)@ == with_state(old(self)@, StateView::Error(msg@)),
            e@ == ErrorView::InternalError(msg@),
    {
        let msg = String::from_str(msg);
        self.state = ComponentState::Error(msg.clone());
        ComponentError::InternalError(msg)
    }

    /// The error for operation `op` refused in the current state.
    fn refuse(&self, op: &'static str) -> (e: ComponentError)
        ensures
            e@ == (ErrorView::InvalidTransition { current: self@.state, operation: op@ }),
    {
        ComponentError::InvalidTransition { current: self.state.clone(), operation: op }
    }
}

impl ComponentInterface for Component {
    /// Start the component: valid only in `Ready`, which becomes `Running`.
    fn start(&mut self) -> (r: Result<(), ComponentError>)
        ensures
            final(self)@ == start_step(old(self)@).0,
            outcome(r) == start_step(old(self)@).1,
    {
        match &self.state {
            ComponentState::Ready => {
                self.state = ComponentState::Running;
                Ok(())
            },
            _ => Err(self.refuse("start")),
        }
    }

    /// Stop the component: valid only in `Running`, which becomes `Ready`.
    fn stop(&mut self) -> (r: Result<(), ComponentError>)
        ensures
            final(self)@ == stop_step(old(self)@).0,
            outcome(r) == stop_step(old(self)@).1,
    {
        match &self.state {
            ComponentState::Running => {
                self.state = ComponentState::Ready;
                Ok(())
            },
            _ => Err(self.refuse("stop")),
        }
    }

    /// Reset the component from any state (`Error` included): the
    /// configuration is dropped and the state becomes `Inactive`.
    fn reset(&mut self) -> (r: Result<(), ComponentError>)
        ensures
            final(self)@ == reset_step(old(self)@).0,
            outcome(r) == reset_step(old(self)@).1,
    {
        self.config = Vec::new();
        self.state = ComponentState::Inactive;
        assert(self@.config =~= Seq::<(Seq<char>, Seq<char>)>::empty());
        Ok(())
    }

    /// Query the component's current status; the component is not modified.
    fn query(&self) -> (s: ComponentStatus)
        ensures
            s.state@ == self@.state,
            s.description@ == describe(self@),
    {
        let mut description = String::from_str("Component '");
        description.append(self.name.as_str());
        match &self.state {
            ComponentState::Inactive => {
                description.append("' is inactive.");
            },
            ComponentState::Loaded => {
                description.append("' is loaded with ");
                push_decimal(&mut description, self.config.len());
                description.append(" configuration entries.");
            },
            ComponentState::Ready => {
                description.append("' is fully configured and ready to start.");
            },
            ComponentState::Running => {
                description.append("' is running.");
            },
            ComponentState::Error(msg) => {
                description.append("' is in error state: ");
                description.append(msg.as_str());
            },
        }
        ComponentStatus { state: self.state.clone(), description }
    }

    /// Configure the component: `Inactive` takes the entries and becomes
    /// `Loaded`; `Loaded` appends them and becomes `Ready`. Any other state
    /// is an invalid transition.
    fn config(&mut self, params: ConfigParams) -> (r: Result<(), ComponentError>)
        ensures
            final(self)@ == config_step(old(self)@, params@).0,
            outcome(r) == config_step(old(self)@, params@).1,
    {
        match &self.state {
            ComponentState::Inactive => {
                self.config = params.entries;
                self.state = ComponentState::Loaded;
                Ok(())
            },
            ComponentState::Loaded => {
                let ghost before = self.config.deep_view();
                let mut entries = params.entries;
                self.config.append(&mut entries);
                assert(self.config.deep_view() =~= before + params@);
                self.state = ComponentState::Ready;
                Ok(())
            },
            _ => Err(self.refuse("config")),
        }
    }

    /// Run the self-test: valid only in `Loaded` or `Ready`. It passes when
    /// there is configuration, leaving the component unchanged; otherwise the
    /// component moves to the `Error` state.
    fn test(&mut self) -> (r: Result<TestResult, ComponentError>)
        ensures
            final(self)@ == test_step(old(self)@).0,
            test_outcome(r) == test_step(old(self)@).1,
    {
        match &self.state {
            ComponentState::Loaded | ComponentState::Ready => {
                if self.config.len() == 0 {
                    let err = self.fail("self-test failed: no configuration entries found");
                    return Err(err);
                }
                let mut details = String::from_str("Self-test passed: ");
                push_decimal(&mut details, self.config.len());
                details.append(" configuration entries verified.");
                Ok(TestResult { passed: true, details })
            },
            _ => Err(self.refuse("test")),
        }
    }
}

} // verus!
