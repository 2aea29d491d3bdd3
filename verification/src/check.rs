//! The data model for a single check: the command to run, the policy for
//! interpreting its result, and the fluent configuration API that builds it.

use vstd::prelude::*;

verus! {

/// The action the emitted script takes when a check's command exits non-zero.
#[derive(Debug, Clone, Copy, PartialEq, Eq)]
pub enum ErrorMode {
    /// Print a warning, continue with the next check, and let the hook pass.
    Warn,
    /// Print an error and terminate the whole script at once; no further
    /// check runs.
    AbortImmediate,
    /// Print an error and record the check as failed, but keep running the
    /// remaining checks; the script exits non-zero at its epilogue.
    Abort,
}

/// The mathematical content of a [`Check`]: every field as a plain value.
/// Contracts on the configuration API and on rendering speak of this view.
pub ghost struct CheckView {
    /// The executable to invoke.
    pub command: Seq<char>,
    /// The command whose presence is probed; `command` is probed when absent.
    pub check_for_command: Option<Seq<char>>,
    /// Whether a missing probe target aborts the whole script.
    pub command_required: bool,
    /// Free text shown when the probe target is missing.
    pub install_instructions: Option<Seq<char>>,
    /// Argument tokens appended to the invocation, in order.
    pub args: Seq<Seq<char>>,
    /// The failure policy.
    pub error_mode: ErrorMode,
    /// Display label; `command` is used when absent.
    pub name: Option<Seq<char>>,
    /// Whether output of a successful run is suppressed.
    pub silent: bool,
}

/// The views of a sequence of owned strings.
pub open spec fn views_of(strings: Seq<String>) -> Seq<Seq<char>> {
    strings.map_values(|s: String| s@)
}

/// A single check to be performed: one planned command execution together
/// with the policy for interpreting its result. Immutable once constructed;
/// every configuration method consumes the value and returns the updated one.
pub struct Check {
    /// Name of the command to run.
    pub(crate) command: String,
    /// Name of the command to check for, when it differs from `command`.
    pub(crate) check_for_command: Option<String>,
    /// If true, the command needs to be present for the hook to proceed.
    /// If false, a missing command only skips this check.
    pub(crate) command_required: bool,
    /// Instructions for installing the command, shown when it is missing.
    pub(crate) install_instructions: Option<String>,
    /// Arguments to pass to the command.
    pub(crate) args: Vec<String>,
    /// The error mode to use.
    pub(crate) error_mode: ErrorMode,
    /// Optional name for the check, used in output.
    pub(crate) name: Option<String>,
    /// Ignore the output if the check succeeds.
    pub(crate) silent: bool,
}

/// The view of a check, spelled out over its fields. Within the crate the
/// renderer relates field accesses to the view through this function and
/// [`lemma_full_view`].
pub(crate) open spec fn full_view(c: &Check) -> CheckView {
    CheckView {
        command: c.command@,
        check_for_command: match c.check_for_command {
            Some(s) => Some(s@),
            None => None,
        },
        command_required: c.command_required,
        install_instructions: match c.install_instructions {
            Some(s) => Some(s@),
            None => None,
        },
        args: views_of(c.args@),
        error_mode: c.error_mode,
        name: match c.name {
            Some(s) => Some(s@),
            None => None,
        },
        silent: c.silent,
    }
}

impl View for Check {
    type V = CheckView;

    closed spec fn view(&self) -> CheckView {
        full_view(self)
    }
}

/// A check's view is exactly [`full_view`] of its fields.
pub(crate) proof fn lemma_full_view(c: &Check)
    ensures
        c@ == full_view(c),
{
}

impl Check {
    /// Construct a new check for `command`.
    ///
    /// The returned value is a builder: refine it with the other
    /// configuration methods. Defaults: the command itself is probed, a
    /// missing command only skips the check, no install instructions, no
    /// arguments, failure aborts the script immediately, the command is its
    /// own display name, and output of a successful run is suppressed.
    pub fn new(command: &str) -> (check: Self)
        ensures
            check@ == (CheckView {
                command: command@,
                check_for_command: None,
                command_required: false,
                install_instructions: None,
                args: Seq::<Seq<char>>::empty(),
                error_mode: ErrorMode::AbortImmediate,
                name: None,
                silent: true,
            }),
    {
        let check = Check {
            command: command.to_owned(),
            check_for_command: None,
            command_required: false,
            install_instructions: None,
            args: Vec::new(),
            error_mode: ErrorMode::AbortImmediate,
            name: None,
            silent: true,
        };
        proof {
            assert(check@.args =~= Seq::<Seq<char>>::empty());
        }
        check
    }

    /// Probe for `command` instead of the command that is run.
    ///
    /// This lets a check invoke `cargo fmt` while probing for the
    /// separately-named helper binary `cargo-fmt`.
    pub fn check_for_command(self, command: &str) -> (check: Self)
        ensures
            check@ == (CheckView { check_for_command: Some(command@), ..self@ }),
    {
        let mut check = self;
        check.check_for_command = Some(command.to_owned());
        check
    }

    /// Set the arguments to pass to the command, replacing any earlier ones.
    pub fn args(self, args: Vec<String>) -> (check: Self)
        ensures
            check@ == (CheckView { args: views_of(args@), ..self@ }),
    {
        let mut check = self;
        check.args = args;
        check
    }

    /// Require this command to be present.
    ///
    /// When the probe target is missing, the whole script then aborts with an
    /// error; without this, the check is skipped with a warning.
    pub fn require_command(self) -> (check: Self)
        ensures
            check@ == (CheckView { command_required: true, ..self@ }),
    {
        let mut check = self;
        check.command_required = true;
        check
    }

    /// Warn if the check fails instead of aborting the hook.
    ///
    /// Also see `abort()` and `abort_immediate()`.
    pub fn warn(self) -> (check: Self)
        ensures
            check@ == (CheckView { error_mode: ErrorMode::Warn, ..self@ }),
    {
        let mut check = self;
        check.error_mode = ErrorMode::Warn;
        check
    }

    /// Abort the hook if this check fails, but run the other checks first.
    ///
    /// To abort at once without running other checks, use
    /// `abort_immediate()`. To only warn and continue the hook, use `warn()`.
    pub fn abort(self) -> (check: Self)
        ensures
            check@ == (CheckView { error_mode: ErrorMode::Abort, ..self@ }),
    {
        let mut check = self;
        check.error_mode = ErrorMode::Abort;
        check
    }

    /// Abort the hook at once if the check fails, without running the
    /// remaining checks.
    ///
    /// Also see `warn()` and `abort()`.
    pub fn abort_immediate(self) -> (check: Self)
        ensures
            check@ == (CheckView { error_mode: ErrorMode::AbortImmediate, ..self@ }),
    {
        let mut check = self;
        check.error_mode = ErrorMode::AbortImmediate;
        check
    }

    /// Provide install instructions shown when the command is not present.
    pub fn install_instructions(self, instructions: &str) -> (check: Self)
        ensures
            check@ == (CheckView { install_instructions: Some(instructions@), ..self@ }),
    {
        let mut check = self;
        check.install_instructions = Some(instructions.to_owned());
        check
    }

    /// Specify a custom name for the check, used in the script's output.
    pub fn name(self, name: &str) -> (check: Self)
        ensures
            check@ == (CheckView { name: Some(name@), ..self@ }),
    {
        let mut check = self;
        check.name = Some(name.to_owned());
        check
    }

    /// Specify whether the check should be silent.
    ///
    /// A silent check captures the output of its command and prints it only
    /// when the command fails; a non-silent check lets output stream
    /// directly. Checks are silent when first constructed.
    pub fn silent(self, silent: bool) -> (check: Self)
        ensures
            check@ == (CheckView { silent: silent, ..self@ }),
    {
        let mut check = self;
        check.silent = silent;
        check
    }
}

} // verus!
