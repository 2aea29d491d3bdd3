//! The per-check shell-fragment renderer and the whole-script text model.
//!
//! Every piece of the emitted script is defined twice: once as a spec
//! function on [`CheckView`] values giving the exact character sequence, and
//! once as executable code proved to produce that sequence. The control flow
//! the fragments encode runs later, inside the emitted script, never at
//! render time.

use vstd::prelude::*;

use crate::check::Check;
use crate::check::CheckView;
use crate::check::ErrorMode;
use crate::check::lemma_full_view;
use crate::check::views_of;

verus! {

/// The label naming a check in the script's output: its `name`, or else its
/// command.
pub open spec fn display_name(c: CheckView) -> Seq<char> {
    match c.name {
        Some(n) => n,
        None => c.command,
    }
}

/// The command whose presence the script probes: `check_for_command`, or
/// else the command itself.
pub open spec fn probe_target(c: CheckView) -> Seq<char> {
    match c.check_for_command {
        Some(t) => t,
        None => c.command,
    }
}

/// How one character of the install instructions appears inside the single
/// quotes of the script's `echo`: newlines and single quotes are escaped.
pub open spec fn escaped_char(c: char) -> Seq<char> {
    if c == '\n' {
        "\\n"@
    } else if c == '\'' {
        "\\'"@
    } else {
        seq![c]
    }
}

/// Install-instruction text with every character escaped for the script.
pub open spec fn escaped(s: Seq<char>) -> Seq<char>
    decreases s.len(),
{
    if s.len() == 0 {
        Seq::empty()
    } else {
        escaped_char(s[0]) + escaped(s.drop_first())
    }
}

/// Argument tokens joined by single spaces, in order, verbatim.
pub open spec fn joined_args(args: Seq<Seq<char>>) -> Seq<char>
    decreases args.len(),
{
    if args.len() == 0 {
        Seq::empty()
    } else if args.len() == 1 {
        args[0]
    } else {
        args[0] + " "@ + joined_args(args.drop_first())
    }
}

/// The command invocation: the command, a space, and the joined arguments.
pub open spec fn invocation(c: CheckView) -> Seq<char> {
    c.command + " "@ + joined_args(c.args)
}

/// The `echo` line showing the install instructions, or nothing when there
/// are none.
pub open spec fn install_hint(c: CheckView) -> Seq<char> {
    match c.install_instructions {
        Some(t) => "    echo 'Install it like this: "@ + escaped(t) + "'\n"@,
        None => Seq::empty(),
    }
}

/// The branch taken when the probe target is missing: a fatal error and
/// `exit 1` for a required command, a warning that falls through for an
/// optional one; either shows the install hint.
pub open spec fn missing_branch(c: CheckView) -> Seq<char> {
    if c.command_required {
        "echo 'ERROR: missing required command "@ + probe_target(c) + "'\n"@ + install_hint(c)
            + "    exit 1"@
    } else {
        "echo 'WARNING: missing command "@ + probe_target(c) + "'\n"@ + install_hint(c)
    }
}

/// The invocation lines: a silent check captures combined stdout and stderr
/// into a variable, a non-silent one streams output directly; either records
/// the exit status.
pub open spec fn execute_lines(c: CheckView) -> Seq<char> {
    (if c.silent {
        "OUTPUT=$("@ + invocation(c) + " 2>&1)\n"@
    } else {
        invocation(c) + "\n"@
    }) + "    OK=$?\n"@
}

/// The echo of the captured output shown before a failure message. Only a
/// silent check captured anything, so only a silent check echoes it; a
/// non-silent check already streamed its output live.
pub open spec fn failure_echo(c: CheckView) -> Seq<char> {
    if c.silent {
        "echo \"\n$OUTPUT\n\n\"\n"@
    } else {
        Seq::empty()
    }
}

/// The branch taken when the command exits non-zero, by error mode: a
/// warning that falls through, an error with an immediate `exit 1`, or an
/// error that records the check's name in the failed-checks accumulator.
pub open spec fn failure_branch(c: CheckView) -> Seq<char> {
    match c.error_mode {
        ErrorMode::Warn => failure_echo(c) + "    echo 'WARNING: check "@ + display_name(c)
            + " failed!'\n"@,
        ErrorMode::AbortImmediate => failure_echo(c) + "    echo 'ERROR: check "@ + display_name(
            c,
        ) + " failed!'\n    exit 1\n"@,
        ErrorMode::Abort => failure_echo(c) + "    echo 'ERROR: check "@ + display_name(c)
            + " failed!'\n    FAILED_CHECKS=\"$FAILED_CHECKS "@ + display_name(c) + "\"\n"@,
    }
}

/// One whole check block: the probe, the missing-command branch, the
/// invocation with exit-status branching, the success confirmation, and a
/// trailing blank-line echo.
pub open spec fn check_block(c: CheckView) -> Seq<char> {
    "# Check if "@ + probe_target(c) + " command exists\n"@ + "echo 'Running check \""@
        + display_name(c) + "\"\n'\ncommand -v "@ + probe_target(c)
        + " >/dev/null 2>&1\nif [[ $? -gt 0 ]]; then\n    # Command not found.\n    "@
        + missing_branch(c) + "\nelse\n    # Command found, so execute it.\n    "@ + execute_lines(
        c,
    ) + "\n    if [ $OK -gt 0 ]; then\n        "@ + failure_branch(c)
        + "\n    else\n        echo 'Check \""@ + display_name(c)
        + "\" OK'\n    fi\nfi\necho ''\n\n"@
}

/// The blocks of all checks, in insertion order.
pub open spec fn check_blocks(cs: Seq<CheckView>) -> Seq<char>
    decreases cs.len(),
{
    if cs.len() == 0 {
        Seq::empty()
    } else {
        check_block(cs[0]) + check_blocks(cs.drop_first())
    }
}

/// The script's opening: interpreter directive, banner comment with the
/// project URL, startup message, and the empty failed-checks accumulator.
pub open spec fn script_preamble() -> Seq<char> {
    "#! /bin/sh\n\n"@
        + "# This hook script was created by commitguard (https://github.com/theduke/commitguard)\n\n"@
        + "echo 'Running commit guards...\n'\n\n"@ + "FAILED_CHECKS=''\n\n"@
}

/// The script's closing: print the failed-checks accumulator and exit
/// non-zero when it is non-empty, otherwise exit zero.
pub open spec fn script_epilogue() -> Seq<char> {
    "if [ ! -z \"$FAILED_CHECKS\" ]; then\n    echo \"Failed checks: $FAILED_CHECKS\"\n    exit 1\nfi\n\nexit 0\n"@
}

/// The whole script for an ordered sequence of checks: preamble, one block
/// per check in order, epilogue. Rendering is this function of the checks'
/// views and of nothing else.
pub open spec fn script_text(cs: Seq<CheckView>) -> Seq<char> {
    script_preamble() + check_blocks(cs) + script_epilogue()
}

/// Escaping distributes over appending one character.
pub proof fn lemma_escaped_snoc(s: Seq<char>, c: char)
    ensures
        escaped(s.push(c)) == escaped(s) + escaped_char(c),
    decreases s.len(),
{
    if s.len() == 0 {
        assert(s.push(c).drop_first() =~= s);
        assert(escaped(s.push(c)) =~= escaped(s) + escaped_char(c));
    } else {
        assert(s.push(c).drop_first() =~= s.drop_first().push(c));
        lemma_escaped_snoc(s.drop_first(), c);
        assert(escaped(s.push(c)) =~= escaped(s) + escaped_char(c));
    }
}

/// Joining distributes over appending one token: the new token arrives after
/// a separating space, except onto an empty token list.
pub proof fn lemma_joined_args_snoc(args: Seq<Seq<char>>, a: Seq<char>)
    ensures
        joined_args(args.push(a)) == if args.len() == 0 {
            a
        } else {
            joined_args(args) + " "@ + a
        },
    decreases args.len(),
{
    if args.len() == 0 {
        assert(joined_args(args.push(a)) =~= a);
    } else if args.len() == 1 {
        assert(args.push(a).drop_first() =~= seq![a]);
        assert(joined_args(seq![a]) == a);
        assert(joined_args(args.push(a)) =~= joined_args(args) + " "@ + a);
    } else {
        assert(args.push(a).drop_first() =~= args.drop_first().push(a));
        lemma_joined_args_snoc(args.drop_first(), a);
        assert(joined_args(args.push(a)) =~= joined_args(args) + " "@ + a);
    }
}

/// The block sequence distributes over appending one check.
pub proof fn lemma_check_blocks_snoc(cs: Seq<CheckView>, c: CheckView)
    ensures
        check_blocks(cs.push(c)) == check_blocks(cs) + check_block(c),
    decreases cs.len(),
{
    if cs.len() == 0 {
        assert(cs.push(c).drop_first() =~= cs);
        assert(check_blocks(cs.push(c)) =~= check_blocks(cs) + check_block(c));
    } else {
        assert(cs.push(c).drop_first() =~= cs.drop_first().push(c));
        lemma_check_blocks_snoc(cs.drop_first(), c);
        assert(check_blocks(cs.push(c)) =~= check_blocks(cs) + check_block(c));
    }
}

/// Escape install-instruction text for the script's single-quoted `echo`.
pub(crate) fn escape_text(s: &str) -> (r: String)
    ensures
        r@ == escaped(s@),
{
    let n = s.unicode_len();
    let mut out = String::new();
    let mut i: usize = 0;
    while i < n
        invariant
            i <= n,
            n == s@.len(),
            out@ == escaped(s@.take(i as int)),
        decreases n - i,
    {
        let c = s.get_char(i);
        if c == '\n' {
            out.append("\\n");
        } else if c == '\'' {
            out.append("\\'");
        } else {
            let piece = s.substring_char(i, i + 1);
            proof {
                assert(piece@ =~= seq![s@[i as int]]);
            }
            out.append(piece);
        }
        proof {
            lemma_escaped_snoc(s@.take(i as int), s@[i as int]);
            assert(s@.take(i as int).push(s@[i as int]) =~= s@.take(i + 1 as int));
        }
        i = i + 1;
    }
    proof {
        assert(s@.take(n as int) =~= s@);
    }
    out
}

/// Join argument tokens with single spaces, preserving their order.
pub(crate) fn join_args(args: &Vec<String>) -> (r: String)
    ensures
        r@ == joined_args(views_of(args@)),
{
    let mut out = String::new();
    let mut i: usize = 0;
    while i < args.len()
        invariant
            i <= args.len(),
            out@ == joined_args(views_of(args@).take(i as int)),
        decreases args.len() - i,
    {
        if i > 0 {
            out.append(" ");
        }
        out.append(args[i].as_str());
        proof {
            lemma_joined_args_snoc(views_of(args@).take(i as int), args@[i as int]@);
            assert(views_of(args@).take(i as int).push(args@[i as int]@) =~= views_of(
                args@,
            ).take(i + 1 as int));
        }
        i = i + 1;
    }
    proof {
        assert(views_of(args@).take(args@.len() as int) =~= views_of(args@));
    }
    out
}

/// Resolve the display name: the custom name, or else the command.
fn resolved_name(c: &Check) -> (r: &String)
    ensures
        r@ == display_name(c@),
{
    proof {
        lemma_full_view(c);
    }
    match c.name.as_ref() {
        Some(n) => n,
        None => &c.command,
    }
}

/// Resolve the probe target: the probed command, or else the command run.
fn resolved_probe(c: &Check) -> (r: &String)
    ensures
        r@ == probe_target(c@),
{
    proof {
        lemma_full_view(c);
    }
    match c.check_for_command.as_ref() {
        Some(t) => t,
        None => &c.command,
    }
}

/// Render the command invocation: the command, a space, and the arguments.
fn invocation_text(c: &Check) -> (r: String)
    ensures
        r@ == invocation(c@),
{
    proof {
        lemma_full_view(c);
    }
    let mut out = String::new();
    out.append(c.command.as_str());
    out.append(" ");
    let args = join_args(&c.args);
    out.append(args.as_str());
    proof {
        assert(out@ =~= invocation(c@));
    }
    out
}

/// Render the install-instruction line, or nothing when there is none.
fn install_hint_text(c: &Check) -> (r: String)
    ensures
        r@ == install_hint(c@),
{
    proof {
        lemma_full_view(c);
    }
    match c.install_instructions.as_ref() {
        Some(t) => {
            let mut out = String::new();
            out.append("    echo 'Install it like this: ");
            let escaped_part = escape_text(t.as_str());
            out.append(escaped_part.as_str());
            out.append("'\n");
            proof {
                assert(out@ =~= install_hint(c@));
            }
            out
        },
        None => String::new(),
    }
}

/// Render the branch the script takes when the probe target is missing.
fn missing_branch_text(c: &Check) -> (r: String)
    ensures
        r@ == missing_branch(c@),
{
    proof {
        lemma_full_view(c);
    }
    let probe = resolved_probe(c);
    let hint = install_hint_text(c);
    let mut out = String::new();
    if c.command_required {
        out.append("echo 'ERROR: missing required command ");
        out.append(probe.as_str());
        out.append("'\n");
        out.append(hint.as_str());
        out.append("    exit 1");
    } else {
        out.append("echo 'WARNING: missing command ");
        out.append(probe.as_str());
        out.append("'\n");
        out.append(hint.as_str());
    }
    proof {
        assert(out@ =~= missing_branch(c@));
    }
    out
}

/// Render the invocation lines, capturing output when the check is silent.
fn execute_text(c: &Check) -> (r: String)
    ensures
        r@ == execute_lines(c@),
{
    proof {
        lemma_full_view(c);
    }
    let cmd = invocation_text(c);
    let mut out = String::new();
    if c.silent {
        out.append("OUTPUT=$(");
        out.append(cmd.as_str());
        out.append(" 2>&1)\n");
    } else {
        out.append(cmd.as_str());
        out.append("\n");
    }
    out.append("    OK=$?\n");
    proof {
        assert(out@ =~= execute_lines(c@));
    }
    out
}

/// Render the branch the script takes when the command exits non-zero.
fn failure_branch_text(c: &Check) -> (r: String)
    ensures
        r@ == failure_branch(c@),
{
    proof {
        lemma_full_view(c);
    }
    let name = resolved_name(c);
    let mut out = String::new();
    if c.silent {
        out.append("echo \"\n$OUTPUT\n\n\"\n");
    }
    match c.error_mode {
        ErrorMode::Warn => {
            out.append("    echo 'WARNING: check ");
            out.append(name.as_str());
            out.append(" failed!'\n");
        },
        ErrorMode::AbortImmediate => {
            out.append("    echo 'ERROR: check ");
            out.append(name.as_str());
            out.append(" failed!'\n    exit 1\n");
        },
        ErrorMode::Abort => {
            out.append("    echo 'ERROR: check ");
            out.append(name.as_str());
            out.append(" failed!'\n    FAILED_CHECKS=\"$FAILED_CHECKS ");
            out.append(name.as_str());
            out.append("\"\n");
        },
    }
    proof {
        assert(out@ =~= failure_branch(c@));
    }
    out
}

/// Render one whole check block of the script.
pub(crate) fn render_block(c: &Check) -> (r: String)
    ensures
        r@ == check_block(c@),
{
    let name = resolved_name(c);
    let probe = resolved_probe(c);
    let missing = missing_branch_text(c);
    let execute = execute_text(c);
    let on_failure = failure_branch_text(c);
    let mut out = String::new();
    out.append("# Check if ");
    out.append(probe.as_str());
    out.append(" command exists\n");
    out.append("echo 'Running check \"");
    out.append(name.as_str());
    out.append("\"\n'\ncommand -v ");
    out.append(probe.as_str());
    out.append(" >/dev/null 2>&1\nif [[ $? -gt 0 ]]; then\n    # Command not found.\n    ");
    out.append(missing.as_str());
    out.append("\nelse\n    # Command found, so execute it.\n    ");
    out.append(execute.as_str());
    out.append("\n    if [ $OK -gt 0 ]; then\n        ");
    out.append(on_failure.as_str());
    out.append("\n    else\n        echo 'Check \"");
    out.append(name.as_str());
    out.append("\" OK'\n    fi\nfi\necho ''\n\n");
    proof {
        assert(out@ =~= check_block(c@));
    }
    out
}

} // verus!
