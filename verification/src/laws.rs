//! Properties of the lifecycle that span several operations, stated over the
//! model that the operations' contracts use.

use vstd::prelude::*;

use crate::model::{
    decimal, describe, digit_char, config_step, initial, rejected, reset_step, start_step, stop_step, test_step, well_formed,
    ComponentView, ErrorView, ReportView, StateView,
};

verus! {

/// A fresh component is well formed, and every operation, in every state,
/// takes a well-formed component to a well-formed one.
pub proof fn lemma_operations_preserve_well_formed(
    c: ComponentView,
    entries: Seq<(Seq<char>, Seq<char>)>,
)
    requires
        well_formed(c),
    ensures
        well_formed(initial(c.name)),
        well_formed(start_step(c).0),
        well_formed(stop_step(c).0),
        well_formed(reset_step(c).0),
        well_formed(config_step(c, entries).0),
        well_formed(test_step(c).0),
{
}

/// No operation changes the component's name.
pub proof fn lemma_name_is_kept(c: ComponentView, entries: Seq<(Seq<char>, Seq<char>)>)
    ensures
        start_step(c).0.name == c.name,
        stop_step(c).0.name == c.name,
        reset_step(c).0.name == c.name,
        config_step(c, entries).0.name == c.name,
        test_step(c).0.name == c.name,
{
}

/// `reset` succeeds in every state, the error state included, and leaves the
/// component as a freshly created one with the same name; a second `reset`
/// changes nothing more.
pub proof fn lemma_reset_restores_initial(c: ComponentView)
    ensures
        reset_step(c) == (initial(c.name), Ok::<(), ErrorView>(())),
        reset_step(reset_step(c).0) == reset_step(c),
{
}

/// `stop` undoes `start`, and `start` undoes `stop`.
pub proof fn lemma_stop_undoes_start(c: ComponentView)
    ensures
        c.state is Ready ==> start_step(c).1 is Ok && stop_step(start_step(c).0) == (
            c,
            Ok::<(), ErrorView>(()),
        ),
        c.state is Running ==> stop_step(c).1 is Ok && start_step(stop_step(c).0) == (
            c,
            Ok::<(), ErrorView>(()),
        ),
{
}

/// An operation refused as an invalid transition reports the current state
/// and its own name, and leaves the component unchanged.
pub proof fn lemma_refused_operations_change_nothing(
    c: ComponentView,
    entries: Seq<(Seq<char>, Seq<char>)>,
)
    ensures
        start_step(c).1 is Err ==> start_step(c) == (c, Err::<(), ErrorView>(rejected(c, "start"@))),
        stop_step(c).1 is Err ==> stop_step(c) == (c, Err::<(), ErrorView>(rejected(c, "stop"@))),
        config_step(c, entries).1 is Err ==> config_step(c, entries) == (
            c,
            Err::<(), ErrorView>(rejected(c, "config"@)),
        ),
        test_step(c).1 matches Err(ErrorView::InvalidTransition { .. }) ==> test_step(c).0 == c
            && test_step(c).1 == Err::<ReportView, ErrorView>(rejected(c, "test"@)),
{
}

/// The error state is left only by `reset`: every other operation is refused
/// there and changes nothing.
pub proof fn lemma_error_state_needs_reset(c: ComponentView, entries: Seq<(Seq<char>, Seq<char>)>)
    requires
        c.state is Error,
    ensures
        start_step(c) == (c, Err::<(), ErrorView>(rejected(c, "start"@))),
        stop_step(c) == (c, Err::<(), ErrorView>(rejected(c, "stop"@))),
        config_step(c, entries) == (c, Err::<(), ErrorView>(rejected(c, "config"@))),
        test_step(c) == (c, Err::<ReportView, ErrorView>(rejected(c, "test"@))),
        reset_step(c).0.state is Inactive,
{
}

/// Only a failed self-test enters the error state: no other operation
/// moves a component there, and the self-test does so exactly when it runs
/// on a component without configuration.
pub proof fn lemma_error_only_from_failed_test(
    c: ComponentView,
    entries: Seq<(Seq<char>, Seq<char>)>,
)
    requires
        !(c.state is Error),
    ensures
        !(start_step(c).0.state is Error),
        !(stop_step(c).0.state is Error),
        !(reset_step(c).0.state is Error),
        !(config_step(c, entries).0.state is Error),
        test_step(c).0.state is Error <==> ((c.state is Loaded || c.state is Ready)
            && c.config.len() == 0),
        test_step(c).0.state is Error ==> test_step(c).1 is Err,
{
}

/// The self-test passes exactly in `Loaded` or `Ready` with configuration;
/// a passed self-test reports success and leaves the component unchanged.
pub proof fn lemma_passed_test_changes_nothing(c: ComponentView)
    ensures
        test_step(c).1 is Ok <==> ((c.state is Loaded || c.state is Ready) && c.config.len() > 0),
        test_step(c).1 matches Ok(report) ==> report.passed && test_step(c).0 == c,
{
}

/// Two `config` calls on an inactive component make it ready, holding the
/// first call's entries followed by the second's.
pub proof fn lemma_two_configs_make_ready(
    c: ComponentView,
    first: Seq<(Seq<char>, Seq<char>)>,
    second: Seq<(Seq<char>, Seq<char>)>,
)
    requires
        c.state is Inactive,
    ensures
        config_step(c, first).1 is Ok,
        config_step(c, first).0.state is Loaded,
        config_step(config_step(c, first).0, second).1 is Ok,
        config_step(config_step(c, first).0, second).0 == (ComponentView {
            name: c.name,
            state: StateView::Ready,
            config: first + second,
        }),
{
}

/// Whether `ch` is one of the decimal digits `0`..`9`.
pub open spec fn is_digit(ch: char) -> bool {
    '0' <= ch && ch <= '9'
}

/// The number that the digits `s` denote, read in base ten from the left.
pub open spec fn digits_value(s: Seq<char>) -> int
    decreases s.len(),
{
    if s.len() == 0 {
        0
    } else {
        digits_value(s.drop_last()) * 10 + (s.last() as int - '0' as int)
    }
}

/// `s` is a decimal numeral in ordinary notation: one or more digits, with
/// no leading zero unless the numeral is `0` itself.
pub open spec fn is_plain_numeral(s: Seq<char>) -> bool {
    &&& s.len() > 0
    &&& forall|i: int| 0 <= i < s.len() ==> is_digit(#[trigger] s[i])
    &&& (s[0] == '0' ==> s.len() == 1)
}

proof fn lemma_digit_char(d: nat)
    requires
        d < 10,
    ensures
        is_digit(digit_char(d)),
        digit_char(d) as int - '0' as int == d,
        digit_char(d) == '0' <==> d == 0,
{
}

/// `decimal(n)` is the ordinary decimal notation of `n`: a plain numeral
/// that reads back as `n`.
pub proof fn lemma_decimal_reads_back(n: nat)
    ensures
        is_plain_numeral(decimal(n)),
        digits_value(decimal(n)) == n,
    decreases n,
{
    if n < 10 {
        lemma_digit_char(n);
        let s = decimal(n);
        assert(s.drop_last() =~= Seq::<char>::empty());
        assert(digits_value(s.drop_last()) == 0);
        assert(digits_value(s) == n);
        assert(is_digit(s[0]));
    } else {
        lemma_decimal_reads_back(n / 10);
        lemma_digit_char(n % 10);
        let s = decimal(n);
        let t = decimal(n / 10);
        assert(s.drop_last() =~= t);
        assert(s[0] == t[0]);
        assert forall|i: int| 0 <= i < s.len() implies is_digit(#[trigger] s[i]) by {
            if i < t.len() {
                assert(s[i] == t[i]);
            }
        }
        assert(s.last() == digit_char(n % 10));
        assert(digits_value(s) == digits_value(t) * 10 + (s.last() as int - '0' as int));
        assert((n / 10) * 10 + n % 10 == n) by (nonlinear_arith);
        assert(s.len() > 0);
        if t[0] == '0' {
            // A numeral "0" denotes zero, but t denotes n / 10 >= 1.
            assert(t.drop_last() =~= Seq::<char>::empty());
            assert(digits_value(t.drop_last()) == 0);
            assert(false);
        }
    }
}

/// A passed self-test reports, in decimal, the number of configuration
/// entries that the component holds: its details are
/// `Self-test passed: <count> configuration entries verified.`, and the
/// count there reads back as the length of the configuration.
pub proof fn lemma_passed_test_reports_entry_count(c: ComponentView)
    requires
        (c.state is Loaded || c.state is Ready),
        c.config.len() > 0,
    ensures
        test_step(c).0 == c,
        test_step(c).1 matches Ok(report) && report.passed && report.details == "Self-test passed: "@
            + decimal(c.config.len()) + " configuration entries verified."@,
        is_plain_numeral(decimal(c.config.len())),
        digits_value(decimal(c.config.len())) == c.config.len(),
{
    lemma_decimal_reads_back(c.config.len());
}

/// The description of a component starts with `Component '`, the
/// component's whole name and a closing quote, whatever the state.
pub proof fn lemma_description_names_component(c: ComponentView)
    ensures
        ({
            let head = "Component '"@ + c.name + "'"@;
            &&& describe(c).len() > head.len()
            &&& describe(c).subrange(0, head.len() as int) == head
        }),
{
    reveal_strlit("'");
    reveal_strlit("' is inactive.");
    reveal_strlit("' is loaded with ");
    reveal_strlit("' is fully configured and ready to start.");
    reveal_strlit("' is running.");
    reveal_strlit("' is in error state: ");
    let head = "Component '"@ + c.name + "'"@;
    let d = describe(c);
    assert(d.subrange(0, head.len() as int) =~= head);
}

/// The description of a component in each state, with its whole name and,
/// when loaded, the number of configuration entries it holds (zero
/// included) in decimal.
pub proof fn lemma_description_by_state(c: ComponentView)
    ensures
        c.state is Inactive ==> describe(c) == "Component '"@ + c.name + "' is inactive."@,
        c.state is Loaded ==> describe(c) == "Component '"@ + c.name + "' is loaded with "@
            + decimal(c.config.len()) + " configuration entries."@,
        c.state is Ready ==> describe(c) == "Component '"@ + c.name
            + "' is fully configured and ready to start."@,
        c.state is Running ==> describe(c) == "Component '"@ + c.name + "' is running."@,
        c.state is Error ==> describe(c) == "Component '"@ + c.name + "' is in error state: "@
            + c.state->Error_0,
        is_plain_numeral(decimal(c.config.len())),
        digits_value(decimal(c.config.len())) == c.config.len(),
{
    lemma_decimal_reads_back(c.config.len());
}

/// A number for each kind of state, the error message aside.
pub open spec fn state_kind(s: StateView) -> int {
    match s {
        StateView::Inactive => 0,
        StateView::Loaded => 1,
        StateView::Ready => 2,
        StateView::Running => 3,
        StateView::Error(_) => 4,
    }
}

/// Two components of the same name in different kinds of state have
/// different descriptions: the description tells the state.
pub proof fn lemma_descriptions_tell_states_apart(c1: ComponentView, c2: ComponentView)
    requires
        c1.name == c2.name,
        state_kind(c1.state) != state_kind(c2.state),
    ensures
        describe(c1) != describe(c2),
{
    reveal_strlit("Component '");
    reveal_strlit("' is inactive.");
    reveal_strlit("' is loaded with ");
    reveal_strlit("' is fully configured and ready to start.");
    reveal_strlit("' is running.");
    reveal_strlit("' is in error state: ");
    let p: int = 11 + c1.name.len() as int;
    let d1 = describe(c1);
    let d2 = describe(c2);
    assert(d1[p + 5] != d2[p + 5] || d1[p + 7] != d2[p + 7]);
}

} // verus!
