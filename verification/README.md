# state_tutorial

A component lifecycle state machine in the style of the ESSOR/SCA interface,
written in Verus. A component is configured twice (`Inactive` → `Loaded` →
`Ready`), started and stopped (`Ready` ⇄ `Running`), self-tested in `Loaded`
or `Ready`, and reset from any state; a self-test without configuration puts
it in the `Error` state, which only `reset` leaves.

- `src/model.rs`: the abstract component and the effect of each operation, as
  spec functions; the texts that the component produces.
- `src/component.rs`: the executable types; each operation's contract says that
  it does what its step in the model does.
- `src/text.rs`: decimal rendering of counts, proved against the model.
- `src/laws.rs`: properties over several operations (the well-formedness
  invariant, `stop` undoing `start`, `reset` giving a fresh component, the
  error state needing `reset`, and more).
- `tests/`: the behaviour on concrete values.
- `app/main.rs`: a demo that walks one component through its lifecycle.
