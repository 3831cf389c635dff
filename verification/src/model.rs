//! The mathematical model of a component: its abstract state, the effect of
//! each operation on it, and the texts that the operations produce.

use vstd::prelude::*;

verus! {

/// Abstract lifecycle state. An error state carries its message.
pub enum StateView {
    Inactive,
    Loaded,
    Ready,
    Running,
    Error(Seq<char>),
}

/// Abstract error returned by an operation.
pub enum ErrorView {
    /// The operation named `operation` is not valid in state `current`.
    InvalidTransition { current: StateView, operation: Seq<char> },
    /// The operation failed inside the component.
    InternalError(Seq<char>),
}

/// Abstract outcome of a successful self-test.
pub struct ReportView {
    pub passed: bool,
    pub details: Seq<char>,
}

/// Abstract component: its name, its state and its configuration entries
/// (key, value), in the order they were given.
pub struct ComponentView {
    pub name: Seq<char>,
    pub state: StateView,
    pub config: Seq<(Seq<char>, Seq<char>)>,
}

/// A fresh component: inactive, with no configuration.
pub open spec fn initial(name: Seq<char>) -> ComponentView {
    ComponentView { name, state: StateView::Inactive, config: Seq::empty() }
}

/// The same component in another state.
pub open spec fn with_state(c: ComponentView, s: StateView) -> ComponentView {
    ComponentView { name: c.name, state: s, config: c.config }
}

/// The error for operation `op` called in the current state of `c`.
pub open spec fn rejected(c: ComponentView, op: Seq<char>) -> ErrorView {
    ErrorView::InvalidTransition { current: c.state, operation: op }
}

/// The message of the error that a failed self-test produces.
pub open spec fn self_test_failure() -> Seq<char> {
    "self-test failed: no configuration entries found"@
}

/// `start`: Ready becomes Running; any other state is rejected.
pub open spec fn start_step(c: ComponentView) -> (ComponentView, Result<(), ErrorView>) {
    if c.state is Ready {
        (with_state(c, StateView::Running), Ok(()))
    } else {
        (c, Err(rejected(c, "start"@)))
    }
}

/// `stop`: Running becomes Ready; any other state is rejected.
pub open spec fn stop_step(c: ComponentView) -> (ComponentView, Result<(), ErrorView>) {
    if c.state is Running {
        (with_state(c, StateView::Ready), Ok(()))
    } else {
        (c, Err(rejected(c, "stop"@)))
    }
}

/// `reset`: from any state, back to a fresh component of the same name.
pub open spec fn reset_step(c: ComponentView) -> (ComponentView, Result<(), ErrorView>) {
    (initial(c.name), Ok(()))
}

/// `config`: Inactive takes the entries and becomes Loaded; Loaded appends
/// the entries and becomes Ready; any other state is rejected.
pub open spec fn config_step(c: ComponentView, entries: Seq<(Seq<char>, Seq<char>)>) -> (
    ComponentView,
    Result<(), ErrorView>,
) {
    match c.state {
        StateView::Inactive => (
            ComponentView { name: c.name, state: StateView::Loaded, config: entries },
            Ok(()),
        ),
        StateView::Loaded => (
            ComponentView { name: c.name, state: StateView::Ready, config: c.config + entries },
            Ok(()),
        ),
        _ => (c, Err(rejected(c, "config"@))),
    }
}

/// `test`: in Loaded or Ready, passes when there is configuration and
/// leaves the component as it is, and otherwise moves it to the error
/// state; any other state is rejected.
pub open spec fn test_step(c: ComponentView) -> (ComponentView, Result<ReportView, ErrorView>) {
    if c.state is Loaded || c.state is Ready {
        if c.config.len() == 0 {
            (
                with_state(c, StateView::Error(self_test_failure())),
                Err(ErrorView::InternalError(self_test_failure())),
            )
        } else {
            (c, Ok(ReportView { passed: true, details: self_test_details(c.config.len()) }))
        }
    } else {
        (c, Err(rejected(c, "test"@)))
    }
}

/// What every component that the operations can produce satisfies: an
/// inactive component holds no configuration, and an error state comes
/// only from a failed self-test, which found no configuration.
pub open spec fn well_formed(c: ComponentView) -> bool {
    &&& c.state is Inactive ==> c.config.len() == 0
    &&& c.state is Error ==> c.config.len() == 0 && c.state->Error_0 == self_test_failure()
}

/// The decimal digit for `d < 10`.
pub open spec fn digit_char(d: nat) -> char {
    if d == 0 {
        '0'
    } else if d == 1 {
        '1'
    } else if d == 2 {
        '2'
    } else if d == 3 {
        '3'
    } else if d == 4 {
        '4'
    } else if d == 5 {
        '5'
    } else if d == 6 {
        '6'
    } else if d == 7 {
        '7'
    } else if d == 8 {
        '8'
    } else {
        '9'
    }
}

/// The decimal notation of `n`, without leading zeros.
pub open spec fn decimal(n: nat) -> Seq<char>
    decreases n,
{
    if n < 10 {
        seq![digit_char(n)]
    } else {
        decimal(n / 10).push(digit_char(n % 10))
    }
}

/// The details of a passed self-test over `n` configuration entries.
pub open spec fn self_test_details(n: nat) -> Seq<char> {
    "Self-test passed: "@ + decimal(n) + " configuration entries verified."@
}

/// The label of a state, as the component prints it.
pub open spec fn state_label(s: StateView) -> Seq<char> {
    match s {
        StateView::Inactive => "INACTIVE"@,
        StateView::Loaded => "LOADED"@,
        StateView::Ready => "READY"@,
        StateView::Running => "RUNNING"@,
        StateView::Error(msg) => "ERROR("@ + msg + ")"@,
    }
}

/// The message of an error, as the component prints it.
pub open spec fn error_message(e: ErrorView) -> Seq<char> {
    match e {
        ErrorView::InvalidTransition { current, operation } => "Cannot call '"@ + operation
            + "' while in state '"@ + state_label(current) + "'"@,
        ErrorView::InternalError(msg) => "Internal error: "@ + msg,
    }
}

/// The status description that `query` gives of a component.
pub open spec fn describe(c: ComponentView) -> Seq<char> {
    match c.state {
        StateView::Inactive => "Component '"@ + c.name + "' is inactive."@,
        StateView::Loaded => "Component '"@ + c.name + "' is loaded with "@ + decimal(
            c.config.len(),
        ) + " configuration entries."@,
        StateView::Ready => "Component '"@ + c.name
            + "' is fully configured and ready to start."@,
        StateView::Running => "Component '"@ + c.name + "' is running."@,
        StateView::Error(msg) => "Component '"@ + c.name + "' is in error state: "@ + msg,
    }
}

} // verus!
