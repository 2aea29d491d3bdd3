//! A model of the emitted script's run-time control flow.
//!
//! The rendering component never runs a check itself: all branching described
//! here happens later, when a version-control hook runner executes the
//! emitted text. This module states that control flow over the checks' views
//! — which checks' blocks are reached, what the failed-checks accumulator
//! holds, and with which status the script exits — and proves the aggregate
//! abort/continue laws of the three error modes.

use vstd::prelude::*;

use crate::check::CheckView;
use crate::check::ErrorMode;
use crate::render::display_name;
use crate::render::script_epilogue;
use crate::render::script_preamble;
use crate::render::script_text;

verus! {

/// What the executing host determines for one check: whether the probe
/// target resolves, and whether the invoked command exits zero. The second
/// is meaningful only when the first holds.
pub ghost struct CheckFacts {
    /// The run-time existence probe of the probe target succeeds.
    pub probe_found: bool,
    /// The invoked command exits with status zero.
    pub command_succeeds: bool,
}

/// The script's state between check blocks.
pub ghost enum RunState {
    /// The script has terminated with a non-zero status; no further block
    /// runs.
    Halted,
    /// The script is still running; the sequence holds the display names in
    /// the failed-checks accumulator, in the order they were recorded.
    Running(Seq<Seq<char>>),
}

/// The display names recorded as failed, or nothing once the script halted
/// (a halted script never reaches the epilogue that prints them).
pub open spec fn failed_names(state: RunState) -> Seq<Seq<char>> {
    match state {
        RunState::Halted => Seq::empty(),
        RunState::Running(names) => names,
    }
}

/// One check block's effect at run time, from the accumulator before it.
///
/// A missing probe target aborts when the command is required and is skipped
/// otherwise; a command that exits zero changes nothing; a failing command
/// acts by error mode: `Warn` changes nothing, `AbortImmediate` halts the
/// script, `Abort` records the check's display name and continues.
pub open spec fn check_step(c: CheckView, f: CheckFacts, failed: Seq<Seq<char>>) -> RunState {
    if !f.probe_found {
        if c.command_required {
            RunState::Halted
        } else {
            RunState::Running(failed)
        }
    } else if f.command_succeeds {
        RunState::Running(failed)
    } else {
        match c.error_mode {
            ErrorMode::Warn => RunState::Running(failed),
            ErrorMode::AbortImmediate => RunState::Halted,
            ErrorMode::Abort => RunState::Running(failed.push(display_name(c))),
        }
    }
}

/// Run the remaining checks in order, starting from an accumulator.
pub open spec fn run_checks_from(
    checks: Seq<CheckView>,
    facts: Seq<CheckFacts>,
    failed: Seq<Seq<char>>,
) -> RunState
    decreases checks.len(),
{
    if checks.len() == 0 {
        RunState::Running(failed)
    } else {
        match check_step(checks[0], facts[0], failed) {
            RunState::Halted => RunState::Halted,
            RunState::Running(now_failed) => run_checks_from(
                checks.drop_first(),
                facts.drop_first(),
                now_failed,
            ),
        }
    }
}

/// Run a whole guard's checks from the empty accumulator.
pub open spec fn run_checks(checks: Seq<CheckView>, facts: Seq<CheckFacts>) -> RunState {
    run_checks_from(checks, facts, Seq::empty())
}

/// Whether the block of check `i` is reached at run time: no earlier block
/// halted the script. At `i == checks.len()` this is whether the epilogue is
/// reached.
pub open spec fn reaches_block(checks: Seq<CheckView>, facts: Seq<CheckFacts>, i: int) -> bool {
    run_checks(checks.take(i), facts.take(i)) is Running
}

/// Whether the whole script exits non-zero: it halted early, or its epilogue
/// found a non-empty failed-checks accumulator.
pub open spec fn exits_nonzero(checks: Seq<CheckView>, facts: Seq<CheckFacts>) -> bool {
    match run_checks(checks, facts) {
        RunState::Halted => true,
        RunState::Running(names) => names.len() > 0,
    }
}

/// Whether one check's block halts the whole script: a required command is
/// missing, or a present command fails under `AbortImmediate`.
pub open spec fn halts(c: CheckView, f: CheckFacts) -> bool {
    if !f.probe_found {
        c.command_required
    } else if f.command_succeeds {
        false
    } else {
        c.error_mode is AbortImmediate
    }
}

/// Whether one check's block leaves the accumulator alone and continues: the
/// command runs and exits zero, an optional command is missing, or a present
/// command fails under `Warn` only.
pub open spec fn passes_or_skips(c: CheckView, f: CheckFacts) -> bool {
    if !f.probe_found {
        !c.command_required
    } else {
        f.command_succeeds || c.error_mode is Warn
    }
}

/// A run splits at any position: first the prefix runs, and if it did not
/// halt, the suffix runs from the accumulator the prefix left behind.
proof fn lemma_run_split(
    checks: Seq<CheckView>,
    facts: Seq<CheckFacts>,
    failed: Seq<Seq<char>>,
    i: int,
)
    requires
        checks.len() == facts.len(),
        0 <= i <= checks.len(),
    ensures
        run_checks_from(checks, facts, failed) == (match run_checks_from(
            checks.take(i),
            facts.take(i),
            failed,
        ) {
            RunState::Halted => RunState::Halted,
            RunState::Running(mid) => run_checks_from(checks.skip(i), facts.skip(i), mid),
        }),
    decreases i,
{
    if i == 0 {
        assert(checks.take(0) =~= Seq::<CheckView>::empty());
        assert(facts.take(0) =~= Seq::<CheckFacts>::empty());
        assert(checks.skip(0) =~= checks);
        assert(facts.skip(0) =~= facts);
    } else {
        assert(checks.take(i)[0] == checks[0]);
        assert(facts.take(i)[0] == facts[0]);
        match check_step(checks[0], facts[0], failed) {
            RunState::Halted => {
            },
            RunState::Running(now_failed) => {
                lemma_run_split(checks.drop_first(), facts.drop_first(), now_failed, i - 1);
                assert(checks.take(i).drop_first() =~= checks.drop_first().take(i - 1));
                assert(facts.take(i).drop_first() =~= facts.drop_first().take(i - 1));
                assert(checks.drop_first().skip(i - 1) =~= checks.skip(i));
                assert(facts.drop_first().skip(i - 1) =~= facts.skip(i));
            },
        }
    }
}

/// When no block halts, the run is still going at the end.
proof fn lemma_no_halt_running(checks: Seq<CheckView>, facts: Seq<CheckFacts>, failed: Seq<Seq<char>>)
    requires
        checks.len() == facts.len(),
        forall|j: int| 0 <= j < checks.len() ==> !(#[trigger] halts(checks[j], facts[j])),
    ensures
        run_checks_from(checks, facts, failed) is Running,
    decreases checks.len(),
{
    if checks.len() > 0 {
        assert(!halts(checks[0], facts[0]));
        assert(!(check_step(checks[0], facts[0], failed) is Halted));
        assert forall|j: int|
            0 <= j < checks.drop_first().len() implies !(#[trigger] halts(
            checks.drop_first()[j],
            facts.drop_first()[j],
        )) by {
            assert(checks.drop_first()[j] == checks[j + 1]);
            assert(facts.drop_first()[j] == facts[j + 1]);
        }
        match check_step(checks[0], facts[0], failed) {
            RunState::Halted => {
            },
            RunState::Running(now_failed) => {
                lemma_no_halt_running(checks.drop_first(), facts.drop_first(), now_failed);
            },
        }
    }
}

/// When every block passes or is skipped, the run ends still going, with the
/// accumulator it started from.
proof fn lemma_benign_running(
    checks: Seq<CheckView>,
    facts: Seq<CheckFacts>,
    failed: Seq<Seq<char>>,
)
    requires
        checks.len() == facts.len(),
        forall|j: int| 0 <= j < checks.len() ==> #[trigger] passes_or_skips(checks[j], facts[j]),
    ensures
        run_checks_from(checks, facts, failed) == RunState::Running(failed),
    decreases checks.len(),
{
    if checks.len() > 0 {
        assert(passes_or_skips(checks[0], facts[0]));
        assert(check_step(checks[0], facts[0], failed) == RunState::Running(failed));
        assert forall|j: int|
            0 <= j < checks.drop_first().len() implies #[trigger] passes_or_skips(
            checks.drop_first()[j],
            facts.drop_first()[j],
        ) by {
            assert(checks.drop_first()[j] == checks[j + 1]);
            assert(facts.drop_first()[j] == facts[j + 1]);
        }
        lemma_benign_running(checks.drop_first(), facts.drop_first(), failed);
    }
}

/// A block that halts regardless of the accumulator cuts every later block
/// off and makes the whole script exit non-zero.
proof fn lemma_halting_step_blocks(
    checks: Seq<CheckView>,
    facts: Seq<CheckFacts>,
    i: int,
    j: int,
)
    requires
        checks.len() == facts.len(),
        0 <= i < checks.len(),
        halts(checks[i], facts[i]),
        i < j <= checks.len(),
    ensures
        !reaches_block(checks, facts, j),
        exits_nonzero(checks, facts),
{
    assert forall|acc: Seq<Seq<char>>|
        (#[trigger] check_step(checks[i], facts[i], acc)) is Halted by {
    }
    lemma_run_split(checks.take(j), facts.take(j), Seq::empty(), i);
    assert(checks.take(j).take(i) =~= checks.take(i));
    assert(facts.take(j).take(i) =~= facts.take(i));
    match run_checks_from(checks.take(i), facts.take(i), Seq::empty()) {
        RunState::Halted => {
        },
        RunState::Running(mid) => {
            assert(checks.take(j).skip(i)[0] == checks[i]);
            assert(facts.take(j).skip(i)[0] == facts[i]);
        },
    }
    lemma_run_split(checks, facts, Seq::empty(), i);
    match run_checks_from(checks.take(i), facts.take(i), Seq::empty()) {
        RunState::Halted => {
        },
        RunState::Running(mid) => {
            assert(checks.skip(i)[0] == checks[i]);
            assert(facts.skip(i)[0] == facts[i]);
        },
    }
}

/// An empty guard renders the preamble followed at once by the epilogue —
/// no check block — and its run reaches the epilogue with nothing recorded,
/// so the script exits zero.
pub proof fn empty_guard_renders_bare_script()
    ensures
        script_text(Seq::empty()) == script_preamble() + script_epilogue(),
        run_checks(Seq::empty(), Seq::empty()) == RunState::Running(Seq::<Seq<char>>::empty()),
        !exits_nonzero(Seq::empty(), Seq::empty()),
{
    assert(script_text(Seq::empty()) =~= script_preamble() + script_epilogue());
}

/// A check whose command is required and whose probe target does not
/// resolve makes the script exit non-zero without any later check's block
/// being reached.
pub proof fn missing_required_command_halts(
    checks: Seq<CheckView>,
    facts: Seq<CheckFacts>,
    i: int,
    j: int,
)
    requires
        checks.len() == facts.len(),
        0 <= i < checks.len(),
        checks[i].command_required,
        !facts[i].probe_found,
        i < j <= checks.len(),
    ensures
        !reaches_block(checks, facts, j),
        exits_nonzero(checks, facts),
{
    lemma_halting_step_blocks(checks, facts, i, j);
}

/// A check whose command is optional and whose probe target does not
/// resolve is skipped: every block and the epilogue are still reached, and
/// when no other check fails — each passes, is skipped as optional and
/// missing, or fails under `Warn` only — the script exits zero.
pub proof fn missing_optional_command_skips(
    checks: Seq<CheckView>,
    facts: Seq<CheckFacts>,
    i: int,
)
    requires
        checks.len() == facts.len(),
        0 <= i < checks.len(),
        !checks[i].command_required,
        !facts[i].probe_found,
        forall|j: int|
            0 <= j < checks.len() && j != i ==> #[trigger] passes_or_skips(checks[j], facts[j]),
    ensures
        forall|j: int| 0 <= j <= checks.len() ==> #[trigger] reaches_block(checks, facts, j),
        !exits_nonzero(checks, facts),
{
    assert(passes_or_skips(checks[i], facts[i]));
    lemma_benign_running(checks, facts, Seq::empty());
    assert forall|j: int| 0 <= j <= checks.len() implies #[trigger] reaches_block(
        checks,
        facts,
        j,
    ) by {
        assert forall|k: int|
            0 <= k < checks.take(j).len() implies #[trigger] passes_or_skips(
            checks.take(j)[k],
            facts.take(j)[k],
        ) by {
            assert(checks.take(j)[k] == checks[k]);
            assert(facts.take(j)[k] == facts[k]);
            if k != i {
                assert(passes_or_skips(checks[k], facts[k]));
            }
        }
        lemma_benign_running(checks.take(j), facts.take(j), Seq::empty());
    }
}

/// A present command that fails under `Abort` defers the failure: every
/// later block and the epilogue are still reached, the check's display name
/// stands in the final failure report, and the script exits non-zero — here
/// stated with no other check failing (each passes, is skipped as optional
/// and missing, or fails under `Warn` only).
pub proof fn abort_mode_defers_failure(checks: Seq<CheckView>, facts: Seq<CheckFacts>, i: int)
    requires
        checks.len() == facts.len(),
        0 <= i < checks.len(),
        checks[i].error_mode is Abort,
        facts[i].probe_found,
        !facts[i].command_succeeds,
        forall|j: int|
            0 <= j < checks.len() && j != i ==> #[trigger] passes_or_skips(checks[j], facts[j]),
    ensures
        forall|j: int| 0 <= j <= checks.len() ==> #[trigger] reaches_block(checks, facts, j),
        run_checks(checks, facts) is Running,
        failed_names(run_checks(checks, facts)).contains(display_name(checks[i])),
        exits_nonzero(checks, facts),
{
    let name = display_name(checks[i]);
    assert forall|j: int| 0 <= j < checks.len() implies !(#[trigger] halts(
        checks[j],
        facts[j],
    )) by {
        if j != i {
            assert(passes_or_skips(checks[j], facts[j]));
        }
    }
    assert forall|j: int| 0 <= j <= checks.len() implies #[trigger] reaches_block(
        checks,
        facts,
        j,
    ) by {
        assert forall|k: int|
            0 <= k < checks.take(j).len() implies !(#[trigger] halts(
            checks.take(j)[k],
            facts.take(j)[k],
        )) by {
            assert(checks.take(j)[k] == checks[k]);
            assert(facts.take(j)[k] == facts[k]);
        }
        lemma_no_halt_running(checks.take(j), facts.take(j), Seq::empty());
    }
    lemma_run_split(checks, facts, Seq::empty(), i);
    assert forall|k: int|
        0 <= k < checks.take(i).len() implies #[trigger] passes_or_skips(
        checks.take(i)[k],
        facts.take(i)[k],
    ) by {
        assert(checks.take(i)[k] == checks[k]);
        assert(facts.take(i)[k] == facts[k]);
        assert(passes_or_skips(checks[k], facts[k]));
    }
    lemma_benign_running(checks.take(i), facts.take(i), Seq::empty());
    assert(checks.skip(i)[0] == checks[i]);
    assert(facts.skip(i)[0] == facts[i]);
    assert(check_step(checks[i], facts[i], Seq::empty()) == RunState::Running(
        Seq::<Seq<char>>::empty().push(name),
    ));
    assert(checks.skip(i).drop_first() =~= checks.skip(i + 1));
    assert(facts.skip(i).drop_first() =~= facts.skip(i + 1));
    assert forall|k: int|
        0 <= k < checks.skip(i + 1).len() implies #[trigger] passes_or_skips(
        checks.skip(i + 1)[k],
        facts.skip(i + 1)[k],
    ) by {
        assert(checks.skip(i + 1)[k] == checks[k + i + 1]);
        assert(facts.skip(i + 1)[k] == facts[k + i + 1]);
        assert(passes_or_skips(checks[k + i + 1], facts[k + i + 1]));
    }
    lemma_benign_running(checks.skip(i + 1), facts.skip(i + 1), Seq::<Seq<char>>::empty().push(name));
    assert(run_checks(checks, facts) == RunState::Running(Seq::<Seq<char>>::empty().push(name)));
    assert(failed_names(run_checks(checks, facts))[0] == name);
}

/// A present command that fails under `AbortImmediate` terminates the whole
/// script at once: no block appended after it, nor the epilogue, is reached,
/// and the script exits non-zero.
pub proof fn immediate_abort_stops_later_checks(
    checks: Seq<CheckView>,
    facts: Seq<CheckFacts>,
    i: int,
    j: int,
)
    requires
        checks.len() == facts.len(),
        0 <= i < checks.len(),
        checks[i].error_mode is AbortImmediate,
        facts[i].probe_found,
        !facts[i].command_succeeds,
        i < j <= checks.len(),
    ensures
        !reaches_block(checks, facts, j),
        exits_nonzero(checks, facts),
{
    lemma_halting_step_blocks(checks, facts, i, j);
}

/// Rendering is a pure function of the guard's content: guards whose
/// ordered check views are equal render identical text. Stated for the
/// record; it is immediate from `build_sh`'s contract, which pins the result
/// to `script_text` of the view alone.
pub proof fn rendering_is_deterministic(a: Seq<CheckView>, b: Seq<CheckView>)
    requires
        a == b,
    ensures
        script_text(a) == script_text(b),
{
}

} // verus!
